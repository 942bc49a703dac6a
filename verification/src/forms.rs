//! The forms that post requests submit.

use vstd::prelude::*;

verus! {

/// DNS configuration.
#[derive(Clone, Debug, PartialEq, Eq)]
pub struct DnsForm {
    pub external_domain: String,
    pub enable_dyndns: bool,
    pub dynamic_domain: String,
}

/// Change of the password by the administrator who is logged in.
#[derive(Clone, Debug, PartialEq, Eq)]
pub struct PasswordForm {
    pub old_password: String,
    pub new_password1: String,
    pub new_password2: String,
}

/// Reset of a forgotten password with a temporary one.
#[derive(Clone, Debug, PartialEq, Eq)]
pub struct ResetPasswordForm {
    pub temporary_password: String,
    pub new_password1: String,
    pub new_password2: String,
}

/// The name of a network.
#[derive(Clone, Debug, PartialEq, Eq)]
pub struct Ssid {
    pub ssid: String,
}

/// The credentials of a network.
#[derive(Clone, Debug, PartialEq, Eq)]
pub struct WiFi {
    pub ssid: String,
    pub pass: String,
}

/// A Scuttlebutt identity that is to become an administrator.
#[derive(Clone, Debug, PartialEq, Eq)]
pub struct AddAdminForm {
    pub ssb_id: String,
}

/// A Scuttlebutt identity that is to be an administrator no longer.
#[derive(Clone, Debug, PartialEq, Eq)]
pub struct DeleteAdminForm {
    pub ssb_id: String,
}

} // verus!
