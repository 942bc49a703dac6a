//! What the pages and the JSON API share: saving a DNS configuration and
//! saving a new password. Each works in steps, since what it does next
//! depends on what came of the step before.

use crate::error::PeachWebError;
use crate::forms::{DnsForm, PasswordForm, ResetPasswordForm};
use crate::response::Step;
use crate::utils::{check_is_new_dyndns_domain, dyndns_suffix, get_full_dynamic_domain};
use vstd::prelude::*;

verus! {

/// The code with which the dynamic DNS service says that a domain is
/// registered already.
pub const DOMAIN_ALREADY_REGISTERED: i64 = -32030;

/// What kind of failure a call ended in.
#[derive(Clone, Debug, PartialEq, Eq)]
pub enum FailureKind {
    /// The remote service answered with an error. `server_code` is its code
    /// where that is one of the server's own; `debug` is the error as the
    /// debug format writes it.
    JsonRpc { server_code: Option<i64>, debug: String },
    /// The remote service could not be asked, or its answer not read.
    /// `debug` is the error as the debug format writes it.
    Client { debug: String },
    /// Anything else.
    Other,
}

/// A call that failed: the text that its error displays, and its kind.
#[derive(Clone, Debug, PartialEq, Eq)]
pub struct Failure {
    pub display: String,
    pub kind: FailureKind,
}

/// The error that passes a failed call on.
pub fn passed_on(failure: &Failure) -> (error: PeachWebError)
    ensures
        error.display() == failure.display@ + ": "@,
        error matches PeachWebError::PeachLibError { source, msg } && source@ == failure.display@
            && msg@ == Seq::<char>::empty(),
{
    PeachWebError::from_peach_lib(failure.display.clone())
}

/// The message on a registration of `domain` that failed.
pub open spec fn registration_failed(kind: FailureKind, domain: Seq<char>) -> Seq<char> {
    match kind {
        FailureKind::JsonRpc { server_code, debug } => if server_code == Some(
            DOMAIN_ALREADY_REGISTERED,
        ) {
            "Error registering domain: "@ + domain + " was previously registered"@
        } else {
            "Failed to register dyndns domain "@ + debug@
        },
        FailureKind::Client { debug } => "Failed to register dyndns domain: "@ + debug@,
        FailureKind::Other => "Failed to register dyndns domain"@,
    }
}

/// The message on a registration of `full_dynamic_domain` that failed. A
/// domain that was registered before is told apart by the code of the
/// service's answer.
pub fn registration_failure(kind: &FailureKind, full_dynamic_domain: &str) -> (msg: String)
    ensures
        msg@ == registration_failed(*kind, full_dynamic_domain@),
{
    match kind {
        FailureKind::JsonRpc { server_code, debug } => {
            let already_registered = match server_code {
                Some(code) => *code == DOMAIN_ALREADY_REGISTERED,
                None => false,
            };
            if already_registered {
                let mut msg = "Error registering domain: ".to_string();
                msg.append(full_dynamic_domain);
                msg.append(" was previously registered");
                msg
            } else {
                let mut msg = "Failed to register dyndns domain ".to_string();
                msg.append(debug.as_str());
                msg
            }
        },
        FailureKind::Client { debug } => {
            let mut msg = "Failed to register dyndns domain: ".to_string();
            msg.append(debug.as_str());
            msg
        },
        FailureKind::Other => "Failed to register dyndns domain".to_string(),
    }
}

/// What saving a DNS configuration has come to: for each step what came of
/// it, `None` as long as it has not been taken.
#[derive(Clone, Debug, PartialEq, Eq)]
pub struct DnsProgress {
    pub set_external_domain: Option<Result<(), Failure>>,
    pub set_dyndns_enabled: Option<Result<(), Failure>>,
    /// The dynamic domain that was configured before.
    pub previous_dyn_domain: Option<String>,
    pub registered: Option<Result<(), Failure>>,
}

/// An outside call that saving a DNS configuration needs.
#[derive(Clone, Debug, PartialEq, Eq)]
pub enum DnsCall {
    /// Write the external domain to the configuration.
    SetExternalDomain(String),
    /// Write to the configuration whether dynamic DNS is enabled.
    SetDyndnsEnabledValue(bool),
    /// Read the dynamic domain from the configuration.
    LoadDynDomain,
    /// Register the domain with the dynamic DNS service.
    RegisterDomain(String),
}

impl DnsProgress {
    /// No step has been taken.
    pub fn new() -> (progress: DnsProgress)
        ensures
            progress.set_external_domain is None,
            progress.set_dyndns_enabled is None,
            progress.previous_dyn_domain is None,
            progress.registered is None,
    {
        DnsProgress {
            set_external_domain: None,
            set_dyndns_enabled: None,
            previous_dyn_domain: None,
            registered: None,
        }
    }
}

/// `error` passes `failure` on.
pub open spec fn passes_on(error: PeachWebError, failure: Failure) -> bool {
    error matches PeachWebError::PeachLibError { source, msg } && source@ == failure.display@
        && msg@ == Seq::<char>::empty()
}

/// What saving `dns_form` does after `progress`: `step`.
pub open spec fn saving_dns(
    dns_form: DnsForm,
    progress: DnsProgress,
    step: Step<DnsCall, Result<(), PeachWebError>>,
) -> bool {
    let full_dynamic_domain = dns_form.dynamic_domain@ + dyndns_suffix();
    match progress.set_external_domain {
        None => step matches Step::Call(DnsCall::SetExternalDomain(domain)) && domain@
            == dns_form.external_domain@,
        Some(Err(failure)) => step matches Step::Done(Err(error)) && passes_on(error, failure),
        Some(Ok(_)) => match progress.set_dyndns_enabled {
            None => step matches Step::Call(DnsCall::SetDyndnsEnabledValue(enabled)) && enabled
                == dns_form.enable_dyndns,
            Some(Err(failure)) => step matches Step::Done(Err(error)) && passes_on(
                error,
                failure,
            ),
            Some(Ok(_)) => if !dns_form.enable_dyndns {
                step matches Step::Done(Ok(_))
            } else {
                match progress.previous_dyn_domain {
                    None => step matches Step::Call(DnsCall::LoadDynDomain),
                    Some(previous) => if previous@ == full_dynamic_domain {
                        step matches Step::Done(Ok(_))
                    } else {
                        match progress.registered {
                            None => step matches Step::Call(DnsCall::RegisterDomain(domain))
                                && domain@ == full_dynamic_domain,
                            Some(Ok(_)) => step matches Step::Done(Ok(_)),
                            Some(Err(failure)) => step matches Step::Done(
                                Err(PeachWebError::FailedToRegisterDynDomain { msg }),
                            ) && msg@ == registration_failed(failure.kind, full_dynamic_domain),
                        }
                    },
                }
            },
        },
    }
}

/// Saves a DNS configuration. The external domain and the dynamic DNS
/// switch are written first. Then, if dynamic DNS is enabled and the dynamic
/// domain is not the one configured before, the domain is registered. A
/// write that fails ends the saving with its error; so does a registration
/// that fails, with a message of its own.
pub fn save_dns_configuration(dns_form: &DnsForm, progress: &DnsProgress) -> (step: Step<
    DnsCall,
    Result<(), PeachWebError>,
>)
    ensures
        saving_dns(*dns_form, *progress, step),
{
    // first save local configurations
    match &progress.set_external_domain {
        None => { return Step::Call(DnsCall::SetExternalDomain(dns_form.external_domain.clone())); },
        Some(Err(failure)) => { return Step::Done(Err(passed_on(failure))); },
        Some(Ok(_)) => {},
    }
    match &progress.set_dyndns_enabled {
        None => { return Step::Call(DnsCall::SetDyndnsEnabledValue(dns_form.enable_dyndns)); },
        Some(Err(failure)) => { return Step::Done(Err(passed_on(failure))); },
        Some(Ok(_)) => {},
    }
    // if dynamic dns is enabled and this is a new domain name, then register it
    if !dns_form.enable_dyndns {
        return Step::Done(Ok(()));
    }
    let full_dynamic_domain = get_full_dynamic_domain(dns_form.dynamic_domain.as_str());
    // check if this is a new domain or if its already registered
    let is_new_domain = match &progress.previous_dyn_domain {
        None => { return Step::Call(DnsCall::LoadDynDomain); },
        Some(previous) => check_is_new_dyndns_domain(
            full_dynamic_domain.as_str(),
            previous.as_str(),
        ),
    };
    if !is_new_domain {
        // the domain is already registered: just return success
        return Step::Done(Ok(()));
    }
    match &progress.registered {
        None => Step::Call(DnsCall::RegisterDomain(full_dynamic_domain)),
        Some(Ok(_)) => Step::Done(Ok(())),
        Some(Err(failure)) => {
            let msg = registration_failure(&failure.kind, full_dynamic_domain.as_str());
            Step::Done(Err(PeachWebError::FailedToRegisterDynDomain { msg }))
        },
    }
}

/// What saving a new password has come to: for each step what came of it,
/// `None` as long as it has not been taken.
#[derive(Clone, Debug, PartialEq, Eq)]
pub struct PasswordProgress {
    /// Whether the password that authorises the change is the right one.
    pub verified: Option<Result<(), Failure>>,
    /// Whether the new password is acceptable.
    pub validated: Option<Result<(), Failure>>,
    pub set: Option<Result<(), Failure>>,
}

/// An outside call that saving a new password needs.
#[derive(Clone, Debug, PartialEq, Eq)]
pub enum PasswordCall {
    /// Check the current password.
    VerifyPassword(String),
    /// Check the temporary password.
    VerifyTemporaryPassword(String),
    /// Check the new password, which was entered twice.
    ValidateNewPasswords(String, String),
    /// Make the new password the password.
    SetNewPassword(String),
}

impl PasswordProgress {
    /// No step has been taken.
    pub fn new() -> (progress: PasswordProgress)
        ensures
            progress.verified is None,
            progress.validated is None,
            progress.set is None,
    {
        PasswordProgress { verified: None, validated: None, set: None }
    }
}

/// What saving a new password does after `progress`: `step`. The password
/// that authorises the change, the current one or a temporary one, is
/// verified first; then the new password is validated, then set. A step that
/// fails ends the saving with its error.
pub open spec fn saving_password(
    authorising: Seq<char>,
    temporary: bool,
    new_password1: Seq<char>,
    new_password2: Seq<char>,
    progress: PasswordProgress,
    step: Step<PasswordCall, Result<(), PeachWebError>>,
) -> bool {
    match progress.verified {
        None => if temporary {
            step matches Step::Call(PasswordCall::VerifyTemporaryPassword(password)) && password@
                == authorising
        } else {
            step matches Step::Call(PasswordCall::VerifyPassword(password)) && password@
                == authorising
        },
        Some(Err(failure)) => step matches Step::Done(Err(error)) && passes_on(error, failure),
        Some(Ok(_)) => match progress.validated {
            None => step matches Step::Call(PasswordCall::ValidateNewPasswords(first, second))
                && first@ == new_password1 && second@ == new_password2,
            Some(Err(failure)) => step matches Step::Done(Err(error)) && passes_on(
                error,
                failure,
            ),
            Some(Ok(_)) => match progress.set {
                None => step matches Step::Call(PasswordCall::SetNewPassword(password))
                    && password@ == new_password1,
                Some(Err(failure)) => step matches Step::Done(Err(error)) && passes_on(
                    error,
                    failure,
                ),
                Some(Ok(_)) => step matches Step::Done(Ok(_)),
            },
        },
    }
}

fn save_verified(new_password1: &String, new_password2: &String, progress: &PasswordProgress) -> (step:
    Step<PasswordCall, Result<(), PeachWebError>>)
    requires
        progress.verified is Some,
    ensures
        forall|authorising: Seq<char>, temporary: bool|
            saving_password(
                authorising,
                temporary,
                new_password1@,
                new_password2@,
                *progress,
                step,
            ),
{
    match &progress.verified {
        Some(Err(failure)) => { return Step::Done(Err(passed_on(failure))); },
        _ => {},
    }
    // the old password is correct
    match &progress.validated {
        None => {
            return Step::Call(
                PasswordCall::ValidateNewPasswords(new_password1.clone(), new_password2.clone()),
            );
        },
        Some(Err(failure)) => { return Step::Done(Err(passed_on(failure))); },
        Some(Ok(_)) => {},
    }
    // the new password is valid
    match &progress.set {
        None => Step::Call(PasswordCall::SetNewPassword(new_password1.clone())),
        Some(Err(failure)) => Step::Done(Err(passed_on(failure))),
        Some(Ok(_)) => Step::Done(Ok(())),
    }
}

/// Changes the password of an administrator who is logged in: the old
/// password is verified, the new one validated and then set.
pub fn save_password_form(password_form: &PasswordForm, progress: &PasswordProgress) -> (step: Step<
    PasswordCall,
    Result<(), PeachWebError>,
>)
    ensures
        saving_password(
            password_form.old_password@,
            false,
            password_form.new_password1@,
            password_form.new_password2@,
            *progress,
            step,
        ),
{
    match &progress.verified {
        None => Step::Call(PasswordCall::VerifyPassword(password_form.old_password.clone())),
        Some(_) => save_verified(
            &password_form.new_password1,
            &password_form.new_password2,
            progress,
        ),
    }
}

/// Resets a forgotten password: the temporary password is verified, the new
/// one validated and then set.
pub fn save_reset_password_form(password_form: &ResetPasswordForm, progress: &PasswordProgress) -> (step:
    Step<PasswordCall, Result<(), PeachWebError>>)
    ensures
        saving_password(
            password_form.temporary_password@,
            true,
            password_form.new_password1@,
            password_form.new_password2@,
            *progress,
            step,
        ),
{
    match &progress.verified {
        None => Step::Call(
            PasswordCall::VerifyTemporaryPassword(password_form.temporary_password.clone()),
        ),
        Some(_) => save_verified(
            &password_form.new_password1,
            &password_form.new_password2,
            progress,
        ),
    }
}

/// A domain that was registered before is reported as such, and the
/// message names it; no other failure is.
pub proof fn lemma_previously_registered(server_code: Option<i64>, debug: String, domain: Seq<char>)
    ensures
        server_code == Some(DOMAIN_ALREADY_REGISTERED) ==> registration_failed(
            FailureKind::JsonRpc { server_code, debug },
            domain,
        ) == "Error registering domain: "@ + domain + " was previously registered"@,
        server_code != Some(DOMAIN_ALREADY_REGISTERED) ==> registration_failed(
            FailureKind::JsonRpc { server_code, debug },
            domain,
        ) == "Failed to register dyndns domain "@ + debug@,
{
}

} // verus!
