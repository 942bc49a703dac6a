//! Context objects for the templates. Each page has a context struct with a
//! `build` method; a context makes the state of the application and of the
//! device available to the template that is rendered.

use crate::network_client::{AccessPoint, AccessPointView, Networks, Scan};
use crate::response::FlashMessage;
use crate::ssid_map::{
    filled, inserted, is_last_of_key, lemma_filled, lemma_inserted_keys, lemma_inserted_value, names,
    SsidMap,
};
use crate::monitor::{Alert, Data, Threshold};
use crate::stats_client::{DiskUsage, MemStat, Traffic};
use crate::text::{opt_text, or_text, parse_i32, parsed_i32, some_text, text_or};
use crate::utils::{find_dyndns_subdomain, same_text, subdomain_of};
use vstd::prelude::*;

verus! {

/// The amount shown for a number of bytes: whole gigabytes above 999
/// megabytes, whole megabytes up to there.
pub open spec fn shown_amount(bytes: u64) -> u64 {
    if bytes > 1_047_527_424 {
        bytes / 1_073_741_824
    } else {
        bytes / 1_048_576
    }
}

/// The unit in which `shown_amount` counts.
pub open spec fn shown_unit(bytes: u64) -> Seq<char> {
    if bytes > 1_047_527_424 {
        "GB"@
    } else {
        "MB"@
    }
}

/// `shown` is `reported` as a page shows it: both amounts scaled, each with
/// its unit.
pub open spec fn shows_traffic(shown: Traffic, reported: Traffic) -> bool {
    &&& shown.received == shown_amount(reported.received)
    &&& shown.transmitted == shown_amount(reported.transmitted)
    &&& opt_text(shown.rx_unit) == Some(shown_unit(reported.received))
    &&& opt_text(shown.tx_unit) == Some(shown_unit(reported.transmitted))
}

/// `shown` is what a page shows for the traffic that the service reported,
/// if it reported any.
pub open spec fn shows_optional_traffic(shown: Option<Traffic>, reported: Option<Traffic>) -> bool {
    match reported {
        Some(reported) => shown matches Some(shown) && shows_traffic(shown, reported),
        None => shown is None,
    }
}

/// Scales the amounts of a traffic report, which come in bytes, and sets
/// their units.
pub fn scale_traffic(reported: Traffic) -> (shown: Traffic)
    ensures
        shows_traffic(shown, reported),
{
    let mut t = reported;
    if t.received > 1_047_527_424 {
        t.received = t.received / 1_073_741_824;
        t.rx_unit = some_text("GB");
    } else if t.received > 0 {
        t.received = (t.received / 1024) / 1024;
        t.rx_unit = some_text("MB");
    } else {
        t.received = 0;
        t.rx_unit = some_text("MB");
    }
    if t.transmitted > 1_047_527_424 {
        t.transmitted = t.transmitted / 1_073_741_824;
        t.tx_unit = some_text("GB");
    } else if t.transmitted > 0 {
        t.transmitted = (t.transmitted / 1024) / 1024;
        t.tx_unit = some_text("MB");
    } else {
        t.transmitted = 0;
        t.tx_unit = some_text("MB");
    }
    t
}

fn scale_optional_traffic(reported: Option<Traffic>) -> (shown: Option<Traffic>)
    ensures
        shows_optional_traffic(shown, reported),
{
    match reported {
        Some(traffic) => Some(scale_traffic(traffic)),
        None => None,
    }
}

/// What the network service answered to the questions of the network page,
/// `None` for each that it did not answer.
pub struct NetworkReadings {
    pub ap_ip: Option<String>,
    pub ap_ssid: Option<String>,
    pub ap_state: Option<String>,
    pub ap_traffic: Option<Traffic>,
    pub wlan_ip: Option<String>,
    pub wlan_rssi: Option<String>,
    pub wlan_scan: Option<Vec<Scan>>,
    pub wlan_ssid: Option<String>,
    pub wlan_state: Option<String>,
    pub wlan_status: Option<String>,
    pub wlan_traffic: Option<Traffic>,
}

/// Context of the network page.
#[derive(Debug)]
pub struct NetworkContext {
    pub ap_ip: String,
    pub ap_ssid: String,
    pub ap_state: String,
    pub ap_traffic: Option<Traffic>,
    pub wlan_ip: String,
    pub wlan_rssi: Option<String>,
    pub wlan_scan: Option<Vec<Scan>>,
    pub wlan_ssid: String,
    pub wlan_state: String,
    pub wlan_status: String,
    pub wlan_traffic: Option<Traffic>,
    pub flash_name: Option<String>,
    pub flash_msg: Option<String>,
    /// SSID of a chosen access point.
    pub selected: Option<String>,
    /// Page title for the header in the navigation bar.
    pub title: Option<String>,
    /// URL of the back-arrow link.
    pub back: Option<String>,
}

impl NetworkContext {
    /// The context states what `readings` hold: each answer as it came, a
    /// placeholder for each that is missing, and the traffic scaled.
    pub open spec fn describes(self, readings: NetworkReadings) -> bool {
        &&& self.ap_ip@ == text_or(readings.ap_ip, "x.x.x.x"@)
        &&& self.ap_ssid@ == text_or(readings.ap_ssid, "Not currently activated"@)
        &&& self.ap_state@ == text_or(readings.ap_state, "Interface unavailable"@)
        &&& shows_optional_traffic(self.ap_traffic, readings.ap_traffic)
        &&& self.wlan_ip@ == text_or(readings.wlan_ip, "x.x.x.x"@)
        &&& self.wlan_rssi == readings.wlan_rssi
        &&& self.wlan_scan == readings.wlan_scan
        &&& self.wlan_ssid@ == text_or(readings.wlan_ssid, "Not connected"@)
        &&& self.wlan_state@ == text_or(readings.wlan_state, "Interface unavailable"@)
        &&& self.wlan_status@ == text_or(readings.wlan_status, "Interface unavailable"@)
        &&& shows_optional_traffic(self.wlan_traffic, readings.wlan_traffic)
    }

    pub fn build(readings: NetworkReadings) -> (context: NetworkContext)
        ensures
            context.describes(readings),
            context.flash_name is None,
            context.flash_msg is None,
            context.selected is None,
            context.title is None,
            context.back is None,
    {
        let ap_ip = or_text(readings.ap_ip, "x.x.x.x");
        let ap_ssid = or_text(readings.ap_ssid, "Not currently activated");
        let ap_state = or_text(readings.ap_state, "Interface unavailable");
        let ap_traffic = scale_optional_traffic(readings.ap_traffic);
        let wlan_ip = or_text(readings.wlan_ip, "x.x.x.x");
        let wlan_rssi = readings.wlan_rssi;
        let wlan_scan = readings.wlan_scan;
        let wlan_ssid = or_text(readings.wlan_ssid, "Not connected");
        let wlan_state = or_text(readings.wlan_state, "Interface unavailable");
        let wlan_status = or_text(readings.wlan_status, "Interface unavailable");
        let wlan_traffic = scale_optional_traffic(readings.wlan_traffic);

        NetworkContext {
            ap_ip,
            ap_ssid,
            ap_state,
            ap_traffic,
            wlan_ip,
            wlan_rssi,
            wlan_scan,
            wlan_ssid,
            wlan_state,
            wlan_status,
            wlan_traffic,
            flash_name: None,
            flash_msg: None,
            selected: None,
            title: None,
            back: None,
        }
    }
}

/// What every page shows around its own content: the link of the back
/// arrow, the title, and a flash message.
pub struct Envelope {
    pub back: Option<Seq<char>>,
    pub title: Option<Seq<char>>,
    pub flash_name: Option<Seq<char>>,
    pub flash_msg: Option<Seq<char>>,
}

impl Envelope {
    /// Nothing is set.
    pub open spec fn empty() -> Envelope {
        Envelope { back: None, title: None, flash_name: None, flash_msg: None }
    }

    /// The envelope with `back` and `title` set, and with the flash message
    /// replaced by `flash` where there is one.
    pub open spec fn framed(self, back: Seq<char>, title: Seq<char>, flash: Option<FlashMessage>)
        -> Envelope {
        Envelope {
            back: Some(back),
            title: Some(title),
            flash_name: match flash {
                Some(flash) => Some(flash.name@),
                None => self.flash_name,
            },
            flash_msg: match flash {
                Some(flash) => Some(flash.msg@),
                None => self.flash_msg,
            },
        }
    }
}

/// A context that has the envelope of a page.
pub trait Page: Sized {
    /// The envelope of the context.
    spec fn envelope(&self) -> Envelope;

    /// The two contexts agree on everything but the envelope.
    spec fn same_content(&self, other: &Self) -> bool;

    /// Sets the back link and the title, and the flash message where there
    /// is one to display.
    fn frame(self, back: &str, title: &str, flash: Option<FlashMessage>) -> (framed: Self)
        ensures
            framed.envelope() == self.envelope().framed(back@, title@, flash),
            framed.same_content(&self),
    ;
}

/// Context of the error pages.
#[derive(Debug)]
pub struct ErrorContext {
    pub back: Option<String>,
    pub flash_name: Option<String>,
    pub flash_msg: Option<String>,
    pub title: Option<String>,
}

impl ErrorContext {
    pub fn build() -> (context: ErrorContext)
        ensures
            context.envelope() == Envelope::empty(),
    {
        ErrorContext { back: None, flash_name: None, flash_msg: None, title: None }
    }
}

impl Page for ErrorContext {
    open spec fn envelope(&self) -> Envelope {
        Envelope {
            back: opt_text(self.back),
            title: opt_text(self.title),
            flash_name: opt_text(self.flash_name),
            flash_msg: opt_text(self.flash_msg),
        }
    }

    open spec fn same_content(&self, other: &Self) -> bool {
        true
    }

    fn frame(self, back: &str, title: &str, flash: Option<FlashMessage>) -> (framed: Self) {
        let mut context = self;
        context.back = some_text(back);
        context.title = some_text(title);
        match flash {
            Some(flash) => {
                context.flash_name = Some(flash.name);
                context.flash_msg = Some(flash.msg);
            },
            None => {},
        }
        context
    }
}

/// Context of the help page.
#[derive(Debug)]
pub struct HelpContext {
    pub back: Option<String>,
    pub flash_name: Option<String>,
    pub flash_msg: Option<String>,
    pub title: Option<String>,
}

impl HelpContext {
    pub fn build() -> (context: HelpContext)
        ensures
            context.envelope() == Envelope::empty(),
    {
        HelpContext { back: None, flash_name: None, flash_msg: None, title: None }
    }
}

impl Page for HelpContext {
    open spec fn envelope(&self) -> Envelope {
        Envelope {
            back: opt_text(self.back),
            title: opt_text(self.title),
            flash_name: opt_text(self.flash_name),
            flash_msg: opt_text(self.flash_msg),
        }
    }

    open spec fn same_content(&self, other: &Self) -> bool {
        true
    }

    fn frame(self, back: &str, title: &str, flash: Option<FlashMessage>) -> (framed: Self) {
        let mut context = self;
        context.back = some_text(back);
        context.title = some_text(title);
        match flash {
            Some(flash) => {
                context.flash_name = Some(flash.name);
                context.flash_msg = Some(flash.msg);
            },
            None => {},
        }
        context
    }
}

/// Context of the login page.
#[derive(Debug)]
pub struct LoginContext {
    pub back: Option<String>,
    pub flash_name: Option<String>,
    pub flash_msg: Option<String>,
    pub title: Option<String>,
}

impl LoginContext {
    pub fn build() -> (context: LoginContext)
        ensures
            context.envelope() == Envelope::empty(),
    {
        LoginContext { back: None, flash_name: None, flash_msg: None, title: None }
    }
}

impl Page for LoginContext {
    open spec fn envelope(&self) -> Envelope {
        Envelope {
            back: opt_text(self.back),
            title: opt_text(self.title),
            flash_name: opt_text(self.flash_name),
            flash_msg: opt_text(self.flash_msg),
        }
    }

    open spec fn same_content(&self, other: &Self) -> bool {
        true
    }

    fn frame(self, back: &str, title: &str, flash: Option<FlashMessage>) -> (framed: Self) {
        let mut context = self;
        context.back = some_text(back);
        context.title = some_text(title);
        match flash {
            Some(flash) => {
                context.flash_name = Some(flash.name);
                context.flash_msg = Some(flash.msg);
            },
            None => {},
        }
        context
    }
}

/// Context of the private messages page.
#[derive(Debug)]
pub struct MessageContext {
    pub back: Option<String>,
    pub flash_name: Option<String>,
    pub flash_msg: Option<String>,
    pub title: Option<String>,
}

impl MessageContext {
    pub fn build() -> (context: MessageContext)
        ensures
            context.envelope() == Envelope::empty(),
    {
        MessageContext { back: None, flash_name: None, flash_msg: None, title: None }
    }
}

impl Page for MessageContext {
    open spec fn envelope(&self) -> Envelope {
        Envelope {
            back: opt_text(self.back),
            title: opt_text(self.title),
            flash_name: opt_text(self.flash_name),
            flash_msg: opt_text(self.flash_msg),
        }
    }

    open spec fn same_content(&self, other: &Self) -> bool {
        true
    }

    fn frame(self, back: &str, title: &str, flash: Option<FlashMessage>) -> (framed: Self) {
        let mut context = self;
        context.back = some_text(back);
        context.title = some_text(title);
        match flash {
            Some(flash) => {
                context.flash_name = Some(flash.name);
                context.flash_msg = Some(flash.msg);
            },
            None => {},
        }
        context
    }
}

/// Context of the peers page.
#[derive(Debug)]
pub struct PeerContext {
    pub back: Option<String>,
    pub flash_name: Option<String>,
    pub flash_msg: Option<String>,
    pub title: Option<String>,
}

impl PeerContext {
    pub fn build() -> (context: PeerContext)
        ensures
            context.envelope() == Envelope::empty(),
    {
        PeerContext { back: None, flash_name: None, flash_msg: None, title: None }
    }
}

impl Page for PeerContext {
    open spec fn envelope(&self) -> Envelope {
        Envelope {
            back: opt_text(self.back),
            title: opt_text(self.title),
            flash_name: opt_text(self.flash_name),
            flash_msg: opt_text(self.flash_msg),
        }
    }

    open spec fn same_content(&self, other: &Self) -> bool {
        true
    }

    fn frame(self, back: &str, title: &str, flash: Option<FlashMessage>) -> (framed: Self) {
        let mut context = self;
        context.back = some_text(back);
        context.title = some_text(title);
        match flash {
            Some(flash) => {
                context.flash_name = Some(flash.name);
                context.flash_msg = Some(flash.msg);
            },
            None => {},
        }
        context
    }
}

/// Context of the profile page.
#[derive(Debug)]
pub struct ProfileContext {
    pub back: Option<String>,
    pub flash_name: Option<String>,
    pub flash_msg: Option<String>,
    pub title: Option<String>,
}

impl ProfileContext {
    pub fn build() -> (context: ProfileContext)
        ensures
            context.envelope() == Envelope::empty(),
    {
        ProfileContext { back: None, flash_name: None, flash_msg: None, title: None }
    }
}

impl Page for ProfileContext {
    open spec fn envelope(&self) -> Envelope {
        Envelope {
            back: opt_text(self.back),
            title: opt_text(self.title),
            flash_name: opt_text(self.flash_name),
            flash_msg: opt_text(self.flash_msg),
        }
    }

    open spec fn same_content(&self, other: &Self) -> bool {
        true
    }

    fn frame(self, back: &str, title: &str, flash: Option<FlashMessage>) -> (framed: Self) {
        let mut context = self;
        context.back = some_text(back);
        context.title = some_text(title);
        match flash {
            Some(flash) => {
                context.flash_name = Some(flash.name);
                context.flash_msg = Some(flash.msg);
            },
            None => {},
        }
        context
    }
}

/// Context of the shutdown menu.
#[derive(Debug)]
pub struct ShutdownContext {
    pub back: Option<String>,
    pub flash_name: Option<String>,
    pub flash_msg: Option<String>,
    pub title: Option<String>,
}

impl ShutdownContext {
    pub fn build() -> (context: ShutdownContext)
        ensures
            context.envelope() == Envelope::empty(),
    {
        ShutdownContext { back: None, flash_name: None, flash_msg: None, title: None }
    }
}

impl Page for ShutdownContext {
    open spec fn envelope(&self) -> Envelope {
        Envelope {
            back: opt_text(self.back),
            title: opt_text(self.title),
            flash_name: opt_text(self.flash_name),
            flash_msg: opt_text(self.flash_msg),
        }
    }

    open spec fn same_content(&self, other: &Self) -> bool {
        true
    }

    fn frame(self, back: &str, title: &str, flash: Option<FlashMessage>) -> (framed: Self) {
        let mut context = self;
        context.back = some_text(back);
        context.title = some_text(title);
        match flash {
            Some(flash) => {
                context.flash_name = Some(flash.name);
                context.flash_msg = Some(flash.msg);
            },
            None => {},
        }
        context
    }
}

/// Context of the page on which the administrator changes the password.
#[derive(Debug)]
pub struct ChangePasswordContext {
    pub back: Option<String>,
    pub flash_name: Option<String>,
    pub flash_msg: Option<String>,
    pub title: Option<String>,
}

impl ChangePasswordContext {
    pub fn build() -> (context: ChangePasswordContext)
        ensures
            context.envelope() == Envelope::empty(),
    {
        ChangePasswordContext { back: None, flash_name: None, flash_msg: None, title: None }
    }
}

impl Page for ChangePasswordContext {
    open spec fn envelope(&self) -> Envelope {
        Envelope {
            back: opt_text(self.back),
            title: opt_text(self.title),
            flash_name: opt_text(self.flash_name),
            flash_msg: opt_text(self.flash_msg),
        }
    }

    open spec fn same_content(&self, other: &Self) -> bool {
        true
    }

    fn frame(self, back: &str, title: &str, flash: Option<FlashMessage>) -> (framed: Self) {
        let mut context = self;
        context.back = some_text(back);
        context.title = some_text(title);
        match flash {
            Some(flash) => {
                context.flash_name = Some(flash.name);
                context.flash_msg = Some(flash.msg);
            },
            None => {},
        }
        context
    }
}

/// Context of the page on which a password is reset with a temporary one.
#[derive(Debug)]
pub struct ResetPasswordContext {
    pub back: Option<String>,
    pub flash_name: Option<String>,
    pub flash_msg: Option<String>,
    pub title: Option<String>,
}

impl ResetPasswordContext {
    pub fn build() -> (context: ResetPasswordContext)
        ensures
            context.envelope() == Envelope::empty(),
    {
        ResetPasswordContext { back: None, flash_name: None, flash_msg: None, title: None }
    }
}

impl Page for ResetPasswordContext {
    open spec fn envelope(&self) -> Envelope {
        Envelope {
            back: opt_text(self.back),
            title: opt_text(self.title),
            flash_name: opt_text(self.flash_name),
            flash_msg: opt_text(self.flash_msg),
        }
    }

    open spec fn same_content(&self, other: &Self) -> bool {
        true
    }

    fn frame(self, back: &str, title: &str, flash: Option<FlashMessage>) -> (framed: Self) {
        let mut context = self;
        context.back = some_text(back);
        context.title = some_text(title);
        match flash {
            Some(flash) => {
                context.flash_name = Some(flash.name);
                context.flash_msg = Some(flash.msg);
            },
            None => {},
        }
        context
    }
}

/// Context of the page that sends a password reset link.
#[derive(Debug)]
pub struct SendPasswordResetContext {
    pub back: Option<String>,
    pub flash_name: Option<String>,
    pub flash_msg: Option<String>,
    pub title: Option<String>,
}

impl SendPasswordResetContext {
    pub fn build() -> (context: SendPasswordResetContext)
        ensures
            context.envelope() == Envelope::empty(),
    {
        SendPasswordResetContext { back: None, flash_name: None, flash_msg: None, title: None }
    }
}

impl Page for SendPasswordResetContext {
    open spec fn envelope(&self) -> Envelope {
        Envelope {
            back: opt_text(self.back),
            title: opt_text(self.title),
            flash_name: opt_text(self.flash_name),
            flash_msg: opt_text(self.flash_msg),
        }
    }

    open spec fn same_content(&self, other: &Self) -> bool {
        true
    }

    fn frame(self, back: &str, title: &str, flash: Option<FlashMessage>) -> (framed: Self) {
        let mut context = self;
        context.back = some_text(back);
        context.title = some_text(title);
        match flash {
            Some(flash) => {
                context.flash_name = Some(flash.name);
                context.flash_msg = Some(flash.msg);
            },
            None => {},
        }
        context
    }
}

/// Context of the page that lists the administrators.
#[derive(Debug)]
pub struct ConfigureAdminContext {
    pub back: Option<String>,
    pub flash_name: Option<String>,
    pub flash_msg: Option<String>,
    pub title: Option<String>,
}

impl ConfigureAdminContext {
    pub fn build() -> (context: ConfigureAdminContext)
        ensures
            context.envelope() == Envelope::empty(),
    {
        ConfigureAdminContext { back: None, flash_name: None, flash_msg: None, title: None }
    }
}

impl Page for ConfigureAdminContext {
    open spec fn envelope(&self) -> Envelope {
        Envelope {
            back: opt_text(self.back),
            title: opt_text(self.title),
            flash_name: opt_text(self.flash_name),
            flash_msg: opt_text(self.flash_msg),
        }
    }

    open spec fn same_content(&self, other: &Self) -> bool {
        true
    }

    fn frame(self, back: &str, title: &str, flash: Option<FlashMessage>) -> (framed: Self) {
        let mut context = self;
        context.back = some_text(back);
        context.title = some_text(title);
        match flash {
            Some(flash) => {
                context.flash_name = Some(flash.name);
                context.flash_msg = Some(flash.msg);
            },
            None => {},
        }
        context
    }
}

/// Context of the page that adds an administrator.
#[derive(Debug)]
pub struct AddAdminContext {
    pub back: Option<String>,
    pub flash_name: Option<String>,
    pub flash_msg: Option<String>,
    pub title: Option<String>,
}

impl AddAdminContext {
    pub fn build() -> (context: AddAdminContext)
        ensures
            context.envelope() == Envelope::empty(),
    {
        AddAdminContext { back: None, flash_name: None, flash_msg: None, title: None }
    }
}

impl Page for AddAdminContext {
    open spec fn envelope(&self) -> Envelope {
        Envelope {
            back: opt_text(self.back),
            title: opt_text(self.title),
            flash_name: opt_text(self.flash_name),
            flash_msg: opt_text(self.flash_msg),
        }
    }

    open spec fn same_content(&self, other: &Self) -> bool {
        true
    }

    fn frame(self, back: &str, title: &str, flash: Option<FlashMessage>) -> (framed: Self) {
        let mut context = self;
        context.back = some_text(back);
        context.title = some_text(title);
        match flash {
            Some(flash) => {
                context.flash_name = Some(flash.name);
                context.flash_msg = Some(flash.msg);
            },
            None => {},
        }
        context
    }
}

/// A flash message alone.
#[derive(Debug)]
pub struct FlashContext {
    pub flash_name: Option<String>,
    pub flash_msg: Option<String>,
}

/// Context of the home page.
#[derive(Debug)]
pub struct HomeContext {
    pub flash_name: Option<String>,
    pub flash_msg: Option<String>,
    pub title: Option<String>,
}

impl HomeContext {
    pub fn build() -> (context: HomeContext)
        ensures
            context.flash_name is None,
            context.flash_msg is None,
            context.title is None,
    {
        HomeContext { flash_name: None, flash_msg: None, title: None }
    }
}

/// Context of the form that adds a network, or changes its password.
#[derive(Debug)]
pub struct NetworkAddContext {
    pub back: Option<String>,
    pub flash_name: Option<String>,
    pub flash_msg: Option<String>,
    /// SSID that the form is filled in with.
    pub selected: Option<String>,
    pub title: Option<String>,
}

impl NetworkAddContext {
    pub fn build() -> (context: NetworkAddContext)
        ensures
            context.envelope() == Envelope::empty(),
            context.selected is None,
    {
        NetworkAddContext { back: None, flash_name: None, flash_msg: None, selected: None, title: None }
    }
}

impl Page for NetworkAddContext {
    open spec fn envelope(&self) -> Envelope {
        Envelope {
            back: opt_text(self.back),
            title: opt_text(self.title),
            flash_name: opt_text(self.flash_name),
            flash_msg: opt_text(self.flash_msg),
        }
    }

    open spec fn same_content(&self, other: &Self) -> bool {
        self.selected == other.selected
    }

    fn frame(self, back: &str, title: &str, flash: Option<FlashMessage>) -> (framed: Self) {
        let mut context = self;
        context.back = some_text(back);
        context.title = some_text(title);
        match flash {
            Some(flash) => {
                context.flash_name = Some(flash.name);
                context.flash_msg = Some(flash.msg);
            },
            None => {},
        }
        context
    }
}

impl Page for NetworkContext {
    open spec fn envelope(&self) -> Envelope {
        Envelope {
            back: opt_text(self.back),
            title: opt_text(self.title),
            flash_name: opt_text(self.flash_name),
            flash_msg: opt_text(self.flash_msg),
        }
    }

    open spec fn same_content(&self, other: &Self) -> bool {
        &&& self.ap_ip == other.ap_ip
        &&& self.ap_ssid == other.ap_ssid
        &&& self.ap_state == other.ap_state
        &&& self.ap_traffic == other.ap_traffic
        &&& self.wlan_ip == other.wlan_ip
        &&& self.wlan_rssi == other.wlan_rssi
        &&& self.wlan_scan == other.wlan_scan
        &&& self.wlan_ssid == other.wlan_ssid
        &&& self.wlan_state == other.wlan_state
        &&& self.wlan_status == other.wlan_status
        &&& self.wlan_traffic == other.wlan_traffic
        &&& self.selected == other.selected
    }

    fn frame(self, back: &str, title: &str, flash: Option<FlashMessage>) -> (framed: Self) {
        let mut context = self;
        context.back = some_text(back);
        context.title = some_text(title);
        match flash {
            Some(flash) => {
                context.flash_name = Some(flash.name);
                context.flash_msg = Some(flash.msg);
            },
            None => {},
        }
        context
    }
}

/// The signal quality in percent that a signal level in dBm, written in
/// decimal, comes to: twice the level plus 100. There is none where the
/// level is no number or the quality does not fit in 32 bits.
pub open spec fn signal_quality(signal_level: Seq<char>) -> Option<i32> {
    match parsed_i32(signal_level) {
        Some(rssi) => if i32::MIN <= 2 * (rssi + 100) <= i32::MAX {
            Some((2 * (rssi + 100)) as i32)
        } else {
            None
        },
        None => None,
    }
}

/// Converts a signal level (dBm) to a quality (%).
pub fn quality_percent(signal_level: &str) -> (quality: Option<i32>)
    ensures
        quality == signal_quality(signal_level@),
{
    match parse_i32(signal_level) {
        Some(rssi) => {
            if rssi < -1_073_741_924 || rssi > 1_073_741_723 {
                None
            } else {
                Some(2 * (rssi + 100))
            }
        },
        None => None,
    }
}

/// Every access point of the scan has a signal level that comes to a
/// quality.
pub open spec fn measurable(scan: Seq<Scan>) -> bool {
    forall|i: int| 0 <= i < scan.len() ==> signal_quality((#[trigger] scan[i]).signal_level@) is Some
}

/// Whether every access point of the scan has a signal level that comes to
/// a quality.
pub fn is_measurable(scan: &Vec<Scan>) -> (measurable: bool)
    ensures
        measurable == self::measurable(scan@),
{
    let mut i: usize = 0;
    while i < scan.len()
        invariant
            i <= scan@.len(),
            forall|j: int| 0 <= j < i ==> signal_quality((#[trigger] scan@[j]).signal_level@) is Some,
        decreases scan@.len() - i,
    {
        if quality_percent(scan[i].signal_level.as_str()).is_none() {
            return false;
        }
        i = i + 1;
    }
    true
}

/// How an access point in range is listed.
pub open spec fn available(ap: Scan) -> AccessPointView {
    AccessPointView {
        detail: Some(ap),
        signal: signal_quality(ap.signal_level@),
        state: "Available"@,
    }
}

/// How a saved network is listed that is not in range.
pub open spec fn not_in_range() -> AccessPointView {
    AccessPointView { detail: None, signal: None, state: "Not in range"@ }
}

/// The SSID of each access point of a scan with how it is listed.
pub open spec fn scanned(scan: Seq<Scan>) -> Seq<(Seq<char>, AccessPointView)> {
    scan.map_values(|ap: Scan| (ap.ssid@, available(ap)))
}

/// The SSIDs of a list of networks.
pub open spec fn ssids(networks: Seq<Networks>) -> Seq<Seq<char>> {
    networks.map_values(|network: Networks| network.ssid@)
}

/// The networks that the detail page lists: those in range, each as the
/// scan last reported it, then the saved ones that are not in range.
pub open spec fn detailed_networks(scan: Seq<Scan>, saved: Seq<Networks>) -> Map<
    Seq<char>,
    AccessPointView,
> {
    filled(inserted(Map::empty(), scanned(scan)), ssids(saved), not_in_range())
}

/// The list of a reading, empty where the service did not answer.
pub open spec fn list_or_empty<T>(list: Option<Vec<T>>) -> Seq<T> {
    match list {
        Some(list) => list@,
        None => Seq::empty(),
    }
}

fn or_empty<T>(list: Option<Vec<T>>) -> (items: Vec<T>)
    ensures
        items@ == list_or_empty(list),
{
    match list {
        Some(list) => list,
        None => Vec::new(),
    }
}

/// What the network service answered to the questions of the page on the
/// details of the networks, `None` for each that it did not answer. The saved
/// networks are asked for twice.
pub struct NetworkDetailReadings {
    pub wlan_ip: Option<String>,
    pub wlan_list: Option<Vec<Networks>>,
    pub saved_aps: Option<Vec<Networks>>,
    pub wlan_rssi: Option<String>,
    pub wlan_scan: Option<Vec<Scan>>,
    pub wlan_ssid: Option<String>,
    pub wlan_state: Option<String>,
    pub wlan_status: Option<String>,
    pub wlan_traffic: Option<Traffic>,
}

/// Context of the page on the details of the networks.
pub struct NetworkDetailContext {
    pub back: Option<String>,
    pub flash_name: Option<String>,
    pub flash_msg: Option<String>,
    pub saved_aps: Vec<Networks>,
    pub selected: Option<String>,
    pub title: Option<String>,
    pub wlan_ip: String,
    pub wlan_networks: SsidMap<AccessPoint>,
    pub wlan_rssi: Option<String>,
    pub wlan_ssid: String,
    pub wlan_state: String,
    pub wlan_status: String,
    pub wlan_traffic: Option<Traffic>,
}

impl NetworkDetailContext {
    /// The context states what `readings` hold: each answer as it came, a
    /// placeholder for each that is missing, the traffic scaled, and the
    /// networks in range and saved put together into one list.
    pub open spec fn describes(self, readings: NetworkDetailReadings) -> bool {
        &&& self.saved_aps@ == list_or_empty(readings.saved_aps)
        &&& self.wlan_ip@ == text_or(readings.wlan_ip, "x.x.x.x"@)
        &&& self.wlan_networks@ == detailed_networks(
            list_or_empty(readings.wlan_scan),
            list_or_empty(readings.wlan_list),
        )
        &&& self.wlan_rssi == readings.wlan_rssi
        &&& self.wlan_ssid@ == text_or(readings.wlan_ssid, "Not connected"@)
        &&& self.wlan_state@ == text_or(readings.wlan_state, "Interface unavailable"@)
        &&& self.wlan_status@ == text_or(readings.wlan_status, "Interface unavailable"@)
        &&& shows_optional_traffic(self.wlan_traffic, readings.wlan_traffic)
    }

    /// `build` asks that every access point of the scan has a signal level
    /// that comes to a quality: `is_measurable` tells.
    pub fn build(readings: NetworkDetailReadings) -> (context: NetworkDetailContext)
        requires
            measurable(list_or_empty(readings.wlan_scan)),
        ensures
            context.describes(readings),
            context.envelope() == Envelope::empty(),
            context.selected is None,
    {
        let wlan_ip = or_text(readings.wlan_ip, "x.x.x.x");
        // list of networks saved in wpa_supplicant.conf
        let wlan_list = or_empty(readings.wlan_list);
        let saved_aps = or_empty(readings.saved_aps);
        let wlan_rssi = readings.wlan_rssi;
        // list of networks currently in range (online & accessible)
        let wlan_scan = or_empty(readings.wlan_scan);
        let wlan_ssid = or_text(readings.wlan_ssid, "Not connected");
        let wlan_state = or_text(readings.wlan_state, "Interface unavailable");
        let wlan_status = or_text(readings.wlan_status, "Interface unavailable");
        let wlan_traffic = scale_optional_traffic(readings.wlan_traffic);
        // combine wlan_list & wlan_scan without repetition
        let ghost scan = wlan_scan@;
        let ghost saved = wlan_list@;
        let mut wlan_networks: SsidMap<AccessPoint> = SsidMap::new();
        for ap in it: wlan_scan
            invariant
                it.seq() == scan,
                measurable(scan),
                wlan_networks@ == inserted(Map::empty(), scanned(scan).take(it.index() as int)),
        {
            let ghost i = it.index() as int;
            assert(scanned(scan).take(i + 1).drop_last() =~= scanned(scan).take(i));
            assert(scanned(scan)[i] == (ap.ssid@, available(ap)));
            assert(signal_quality(scan[i].signal_level@) is Some);
            let ssid = ap.ssid.clone();
            // perform rssi (dBm) to quality (%) conversion
            let quality_percent = quality_percent(ap.signal_level.as_str());
            let ap_detail = AccessPoint {
                detail: Some(ap),
                state: "Available".to_string(),
                signal: quality_percent,
            };
            wlan_networks.insert(ssid, ap_detail);
        }
        assert(scanned(scan).take(scan.len() as int) =~= scanned(scan));
        let ghost shown = wlan_networks@;
        for network in it: wlan_list
            invariant
                it.seq() == saved,
                wlan_networks@ == filled(shown, ssids(saved).take(it.index() as int), not_in_range()),
        {
            let ghost i = it.index() as int;
            assert(ssids(saved).take(i + 1).drop_last() =~= ssids(saved).take(i));
            assert(ssids(saved)[i] == network.ssid@);
            // avoid repetition by checking that ssid is not already in list
            if !wlan_networks.contains_key(network.ssid.as_str()) {
                let net_detail = AccessPoint {
                    detail: None,
                    state: "Not in range".to_string(),
                    signal: None,
                };
                wlan_networks.insert(network.ssid, net_detail);
            }
        }
        assert(ssids(saved).take(saved.len() as int) =~= ssids(saved));

        NetworkDetailContext {
            back: None,
            flash_name: None,
            flash_msg: None,
            saved_aps,
            selected: None,
            title: None,
            wlan_ip,
            wlan_networks,
            wlan_rssi,
            wlan_ssid,
            wlan_state,
            wlan_status,
            wlan_traffic,
        }
    }
}

impl Page for NetworkDetailContext {
    open spec fn envelope(&self) -> Envelope {
        Envelope {
            back: opt_text(self.back),
            title: opt_text(self.title),
            flash_name: opt_text(self.flash_name),
            flash_msg: opt_text(self.flash_msg),
        }
    }

    open spec fn same_content(&self, other: &Self) -> bool {
        &&& self.saved_aps == other.saved_aps
        &&& self.selected == other.selected
        &&& self.wlan_ip == other.wlan_ip
        &&& self.wlan_networks == other.wlan_networks
        &&& self.wlan_rssi == other.wlan_rssi
        &&& self.wlan_ssid == other.wlan_ssid
        &&& self.wlan_state == other.wlan_state
        &&& self.wlan_status == other.wlan_status
        &&& self.wlan_traffic == other.wlan_traffic
    }

    fn frame(self, back: &str, title: &str, flash: Option<FlashMessage>) -> (framed: Self) {
        let mut context = self;
        context.back = some_text(back);
        context.title = some_text(title);
        match flash {
            Some(flash) => {
                context.flash_name = Some(flash.name);
                context.flash_msg = Some(flash.msg);
            },
            None => {},
        }
        context
    }
}

/// The SSID of each network in range with the state that the list shows.
pub open spec fn in_range(scan: Seq<Networks>) -> Seq<(Seq<char>, Seq<char>)> {
    scan.map_values(|network: Networks| (network.ssid@, "Available"@))
}

/// The networks that the list page shows, each with its state: those in
/// range are available, the saved ones that are not in range say so.
pub open spec fn listed_networks(scan: Seq<Networks>, saved: Seq<Networks>) -> Map<
    Seq<char>,
    Seq<char>,
> {
    filled(inserted(Map::empty(), in_range(scan)), ssids(saved), "Not in range"@)
}

/// What the network service answered to the questions of the page that
/// lists the networks, `None` for each that it did not answer.
pub struct NetworkListReadings {
    pub wlan_list: Option<Vec<Networks>>,
    pub wlan_scan: Option<Vec<Networks>>,
    pub wlan_ssid: Option<String>,
    pub ap_state: Option<String>,
}

/// Context of the page that lists the networks.
pub struct NetworkListContext {
    pub ap_state: String,
    pub back: Option<String>,
    pub flash_name: Option<String>,
    pub flash_msg: Option<String>,
    pub title: Option<String>,
    pub wlan_networks: SsidMap<String>,
    pub wlan_ssid: String,
}

impl NetworkListContext {
    /// The context states what `readings` hold: each answer as it came, a
    /// placeholder for each that is missing, and the networks in range and
    /// saved put together into one list.
    pub open spec fn describes(self, readings: NetworkListReadings) -> bool {
        &&& self.ap_state@ == text_or(readings.ap_state, "Interface unavailable"@)
        &&& self.wlan_networks@ == listed_networks(
            list_or_empty(readings.wlan_scan),
            list_or_empty(readings.wlan_list),
        )
        &&& self.wlan_ssid@ == text_or(readings.wlan_ssid, "Not connected"@)
    }

    pub fn build(readings: NetworkListReadings) -> (context: NetworkListContext)
        ensures
            context.describes(readings),
            context.envelope() == Envelope::empty(),
    {
        // list of networks saved in the wpa_supplicant.conf
        let wlan_list = or_empty(readings.wlan_list);
        // list of networks currently in range (online & accessible)
        let wlan_scan = or_empty(readings.wlan_scan);
        let wlan_ssid = or_text(readings.wlan_ssid, "Not connected");
        // combine wlan_list & wlan_scan without repetition
        let ghost scan = wlan_scan@;
        let ghost saved = wlan_list@;
        let mut wlan_networks: SsidMap<String> = SsidMap::new();
        for ap in it: wlan_scan
            invariant
                it.seq() == scan,
                wlan_networks@ == inserted(Map::empty(), in_range(scan).take(it.index() as int)),
        {
            let ghost i = it.index() as int;
            assert(in_range(scan).take(i + 1).drop_last() =~= in_range(scan).take(i));
            assert(in_range(scan)[i] == (ap.ssid@, "Available"@));
            wlan_networks.insert(ap.ssid, "Available".to_string());
        }
        assert(in_range(scan).take(scan.len() as int) =~= in_range(scan));
        let ghost shown = wlan_networks@;
        for network in it: wlan_list
            invariant
                it.seq() == saved,
                wlan_networks@ == filled(shown, ssids(saved).take(it.index() as int), "Not in range"@),
        {
            let ghost i = it.index() as int;
            assert(ssids(saved).take(i + 1).drop_last() =~= ssids(saved).take(i));
            assert(ssids(saved)[i] == network.ssid@);
            // insert ssid (with state) only if it doesn't already exist
            if !wlan_networks.contains_key(network.ssid.as_str()) {
                wlan_networks.insert(network.ssid, "Not in range".to_string());
            }
        }
        assert(ssids(saved).take(saved.len() as int) =~= ssids(saved));
        let ap_state = or_text(readings.ap_state, "Interface unavailable");

        NetworkListContext {
            ap_state,
            back: None,
            flash_msg: None,
            flash_name: None,
            title: None,
            wlan_networks,
            wlan_ssid,
        }
    }
}

impl Page for NetworkListContext {
    open spec fn envelope(&self) -> Envelope {
        Envelope {
            back: opt_text(self.back),
            title: opt_text(self.title),
            flash_name: opt_text(self.flash_name),
            flash_msg: opt_text(self.flash_msg),
        }
    }

    open spec fn same_content(&self, other: &Self) -> bool {
        &&& self.ap_state == other.ap_state
        &&& self.wlan_networks == other.wlan_networks
        &&& self.wlan_ssid == other.wlan_ssid
    }

    fn frame(self, back: &str, title: &str, flash: Option<FlashMessage>) -> (framed: Self) {
        let mut context = self;
        context.back = some_text(back);
        context.title = some_text(title);
        match flash {
            Some(flash) => {
                context.flash_name = Some(flash.name);
                context.flash_msg = Some(flash.msg);
            },
            None => {},
        }
        context
    }
}

/// Context of the page on network data usage and its alerts.
#[derive(Debug)]
pub struct NetworkAlertContext {
    pub alert: Alert,
    pub back: Option<String>,
    /// Stored and current wifi traffic together, in bytes.
    pub data_total: Data,
    pub flash_name: Option<String>,
    pub flash_msg: Option<String>,
    pub threshold: Threshold,
    pub title: Option<String>,
    /// Current wifi traffic in bytes, since boot.
    pub traffic: Traffic,
}

impl NetworkAlertContext {
    /// The traffic of the live session, nothing where the service did not
    /// answer.
    pub open spec fn session(traffic: Option<Traffic>) -> int {
        match traffic {
            Some(traffic) => traffic.session(),
            None => 0,
        }
    }

    /// Whether the stored total and the traffic of the live session
    /// together fit in 64 bits.
    pub fn fits(stored_traffic: &Data, traffic: &Option<Traffic>) -> (fits: bool)
        ensures
            fits == (stored_traffic.total + NetworkAlertContext::session(*traffic) <= u64::MAX),
    {
        let session = match traffic {
            Some(traffic) => traffic.checked_session(),
            None => Some(0),
        };
        match session {
            Some(session) => stored_traffic.total.checked_add(session).is_some(),
            None => false,
        }
    }

    /// `build` asks that the stored total and the traffic of the live
    /// session together fit in 64 bits: `fits` tells.
    pub fn build(
        alert: Alert,
        stored_traffic: Data,
        threshold: Threshold,
        traffic: Option<Traffic>,
    ) -> (context: NetworkAlertContext)
        requires
            stored_traffic.total + NetworkAlertContext::session(traffic) <= u64::MAX,
        ensures
            context.alert == alert,
            context.threshold == threshold,
            context.data_total.total == stored_traffic.total + NetworkAlertContext::session(
                traffic,
            ),
            match traffic {
                Some(traffic) => context.traffic == traffic,
                None => context.traffic.received == 0 && context.traffic.transmitted == 0
                    && context.traffic.rx_unit is None && context.traffic.tx_unit is None,
            },
            context.envelope() == Envelope::empty(),
    {
        // current wifi traffic values as bytes
        let traffic = match traffic {
            Some(t) => t,
            None => Traffic::none(),
        };
        let current_traffic = traffic.received + traffic.transmitted;
        let total = stored_traffic.total + current_traffic;
        let data_total = Data { total };

        NetworkAlertContext {
            alert,
            back: None,
            data_total,
            flash_name: None,
            flash_msg: None,
            threshold,
            title: None,
            traffic,
        }
    }
}

impl Page for NetworkAlertContext {
    open spec fn envelope(&self) -> Envelope {
        Envelope {
            back: opt_text(self.back),
            title: opt_text(self.title),
            flash_name: opt_text(self.flash_name),
            flash_msg: opt_text(self.flash_msg),
        }
    }

    open spec fn same_content(&self, other: &Self) -> bool {
        &&& self.alert == other.alert
        &&& self.data_total == other.data_total
        &&& self.threshold == other.threshold
        &&& self.traffic == other.traffic
    }

    fn frame(self, back: &str, title: &str, flash: Option<FlashMessage>) -> (framed: Self) {
        let mut context = self;
        context.back = some_text(back);
        context.title = some_text(title);
        match flash {
            Some(flash) => {
                context.flash_name = Some(flash.name);
                context.flash_msg = Some(flash.msg);
            },
            None => {},
        }
        context
    }
}

/// What the configuration of the device says about its domains.
#[derive(Clone, Debug, PartialEq, Eq)]
pub struct PeachConfig {
    pub external_domain: String,
    pub dyn_domain: String,
    pub dyn_enabled: bool,
}

/// Context of the page that configures DNS.
#[derive(Debug)]
pub struct ConfigureDNSContext {
    pub external_domain: String,
    pub dyndns_subdomain: String,
    pub enable_dyndns: bool,
    pub is_dyndns_online: bool,
    pub back: Option<String>,
    pub title: Option<String>,
    pub flash_name: Option<String>,
    pub flash_msg: Option<String>,
}

impl ConfigureDNSContext {
    /// The subdomain that the form shows for a configured dynamic domain:
    /// its subdomain, or all of it where it has not the shape of a dynamic
    /// domain.
    pub open spec fn shown_subdomain(dyn_domain: Seq<char>) -> Seq<char> {
        match subdomain_of(dyn_domain) {
            Some(subdomain) => subdomain,
            None => dyn_domain,
        }
    }

    pub fn build(peach_config: PeachConfig, is_dyndns_online: bool) -> (context:
        ConfigureDNSContext)
        ensures
            context.external_domain == peach_config.external_domain,
            context.dyndns_subdomain@ == ConfigureDNSContext::shown_subdomain(
                peach_config.dyn_domain@,
            ),
            context.enable_dyndns == peach_config.dyn_enabled,
            context.is_dyndns_online == is_dyndns_online,
            context.envelope() == Envelope::empty(),
    {
        let dyndns_fulldomain = peach_config.dyn_domain;
        let dyndns_subdomain = match find_dyndns_subdomain(dyndns_fulldomain.as_str()) {
            Some(subdomain) => subdomain,
            None => dyndns_fulldomain,
        };
        ConfigureDNSContext {
            external_domain: peach_config.external_domain,
            dyndns_subdomain,
            enable_dyndns: peach_config.dyn_enabled,
            is_dyndns_online,
            back: None,
            title: None,
            flash_name: None,
            flash_msg: None,
        }
    }
}

impl Page for ConfigureDNSContext {
    open spec fn envelope(&self) -> Envelope {
        Envelope {
            back: opt_text(self.back),
            title: opt_text(self.title),
            flash_name: opt_text(self.flash_name),
            flash_msg: opt_text(self.flash_msg),
        }
    }

    open spec fn same_content(&self, other: &Self) -> bool {
        &&& self.external_domain == other.external_domain
        &&& self.dyndns_subdomain == other.dyndns_subdomain
        &&& self.enable_dyndns == other.enable_dyndns
        &&& self.is_dyndns_online == other.is_dyndns_online
    }

    fn frame(self, back: &str, title: &str, flash: Option<FlashMessage>) -> (framed: Self) {
        let mut context = self;
        context.back = some_text(back);
        context.title = some_text(title);
        match flash {
            Some(flash) => {
                context.flash_name = Some(flash.name);
                context.flash_msg = Some(flash.msg);
            },
            None => {},
        }
        context
    }
}

/// The partitions that are mounted at `/`, in the order of the report.
pub open spec fn mounted_at_root(disks: Seq<DiskUsage>) -> Seq<DiskUsage> {
    disks.filter(|disk: DiskUsage| disk.mountpoint@ == "/"@)
}

/// What the services of the device answered to the questions of the status
/// page, `None` for each that did not answer. The figures on processor and
/// load are carried through as they came. Whether the DNS updater is online
/// is asked, and read, only where dynamic DNS is enabled.
pub struct DeviceReadings<C, L> {
    pub cpu_stat_percent: Option<C>,
    pub load_average: Option<L>,
    pub mem_stats: Option<MemStat>,
    pub network_ping: Option<String>,
    pub oled_ping: Option<()>,
    pub stats_ping: Option<String>,
    /// Minutes since the device started, in decimal.
    pub uptime: Option<String>,
    pub disk_usage: Option<Vec<DiskUsage>>,
    pub peach_config: Option<PeachConfig>,
    pub dns_updater_online: Option<bool>,
    pub sbot_online: Option<bool>,
}

/// Context of the status page of the device.
pub struct DeviceContext<C, L> {
    pub back: Option<String>,
    pub cpu_stat_percent: Option<C>,
    pub disk_stats: Vec<DiskUsage>,
    pub flash_name: Option<String>,
    pub flash_msg: Option<String>,
    pub load_average: Option<L>,
    pub mem_stats: Option<MemStat>,
    pub network_ping: String,
    pub oled_ping: String,
    pub stats_ping: String,
    pub dyndns_enabled: bool,
    pub dyndns_is_online: bool,
    pub config_is_valid: bool,
    pub sbot_is_online: bool,
    pub title: Option<String>,
    pub uptime: Option<i32>,
}

/// How the status page names a service that answered, or did not.
pub open spec fn online<T>(answer: Option<T>) -> Seq<char> {
    if answer is Some {
        "ONLINE"@
    } else {
        "OFFLINE"@
    }
}

fn online_or_offline<T>(answer: &Option<T>) -> (state: String)
    ensures
        state@ == online(*answer),
{
    match answer {
        Some(_) => "ONLINE".to_string(),
        None => "OFFLINE".to_string(),
    }
}

/// Whether dynamic DNS is enabled by a configuration that could be read.
pub fn dyndns_enabled(peach_config: &Option<PeachConfig>) -> (enabled: bool)
    ensures
        enabled == (peach_config matches Some(config) && config.dyn_enabled),
{
    match peach_config {
        Some(config) => config.dyn_enabled,
        None => false,
    }
}

impl<C, L> DeviceContext<C, L> {
    /// The context states what `readings` hold.
    pub open spec fn describes(self, readings: DeviceReadings<C, L>) -> bool {
        &&& self.cpu_stat_percent == readings.cpu_stat_percent
        &&& self.load_average == readings.load_average
        &&& self.mem_stats == readings.mem_stats
        &&& self.network_ping@ == online(readings.network_ping)
        &&& self.oled_ping@ == online(readings.oled_ping)
        &&& self.stats_ping@ == online(readings.stats_ping)
        &&& self.uptime == match readings.uptime {
            Some(minutes) => parsed_i32(minutes@),
            None => None,
        }
        &&& self.disk_stats@ == mounted_at_root(list_or_empty(readings.disk_usage))
        &&& self.config_is_valid == readings.peach_config is Some
        &&& self.dyndns_enabled == (readings.peach_config matches Some(config)
            && config.dyn_enabled)
        &&& self.dyndns_is_online == (self.dyndns_enabled && readings.dns_updater_online == Some(
            true,
        ))
        &&& self.sbot_is_online == (readings.sbot_online == Some(true))
    }

    pub fn build(readings: DeviceReadings<C, L>) -> (context: DeviceContext<C, L>)
        ensures
            context.describes(readings),
            context.envelope() == Envelope::empty(),
    {
        let cpu_stat_percent = readings.cpu_stat_percent;
        let load_average = readings.load_average;
        let mem_stats = readings.mem_stats;
        let network_ping = online_or_offline(&readings.network_ping);
        let oled_ping = online_or_offline(&readings.oled_ping);
        let stats_ping = online_or_offline(&readings.stats_ping);
        // parse the uptime string to a signed integer (for math)
        let uptime_parsed = match &readings.uptime {
            Some(minutes) => parse_i32(minutes.as_str()),
            None => None,
        };
        let dyndns_enabled = dyndns_enabled(&readings.peach_config);
        let config_is_valid = readings.peach_config.is_some();
        let dyndns_is_online = if dyndns_enabled {
            match readings.dns_updater_online {
                Some(is_online) => is_online,
                None => false,
            }
        } else {
            false
        };
        // test if go-sbot is running
        let sbot_is_online = match readings.sbot_online {
            Some(val) => val,
            None => false,
        };
        let disk_usage_stats = or_empty(readings.disk_usage);
        let ghost disks = disk_usage_stats@;
        let mut disk_stats: Vec<DiskUsage> = Vec::new();
        proof {
            reveal(Seq::filter);
        }
        // select only the partition we're interested in: /dev/mmcblk0p2 ("/")
        for disk in it: disk_usage_stats
            invariant
                it.seq() == disks,
                disk_stats@ == mounted_at_root(disks.take(it.index() as int)),
        {
            proof {
                reveal(Seq::filter);
            }
            let ghost i = it.index() as int;
            assert(disks.take(i + 1).drop_last() =~= disks.take(i));
            assert(disks.take(i + 1).last() == disk);
            if same_text(disk.mountpoint.as_str(), "/") {
                disk_stats.push(disk);
            }
        }
        assert(disks.take(disks.len() as int) =~= disks);

        DeviceContext {
            back: None,
            cpu_stat_percent,
            disk_stats,
            flash_name: None,
            flash_msg: None,
            load_average,
            mem_stats,
            network_ping,
            oled_ping,
            stats_ping,
            dyndns_enabled,
            dyndns_is_online,
            config_is_valid,
            sbot_is_online,
            title: None,
            uptime: uptime_parsed,
        }
    }
}

impl<C, L> Page for DeviceContext<C, L> {
    open spec fn envelope(&self) -> Envelope {
        Envelope {
            back: opt_text(self.back),
            title: opt_text(self.title),
            flash_name: opt_text(self.flash_name),
            flash_msg: opt_text(self.flash_msg),
        }
    }

    open spec fn same_content(&self, other: &Self) -> bool {
        &&& self.cpu_stat_percent == other.cpu_stat_percent
        &&& self.disk_stats == other.disk_stats
        &&& self.load_average == other.load_average
        &&& self.mem_stats == other.mem_stats
        &&& self.network_ping == other.network_ping
        &&& self.oled_ping == other.oled_ping
        &&& self.stats_ping == other.stats_ping
        &&& self.dyndns_enabled == other.dyndns_enabled
        &&& self.dyndns_is_online == other.dyndns_is_online
        &&& self.config_is_valid == other.config_is_valid
        &&& self.sbot_is_online == other.sbot_is_online
        &&& self.uptime == other.uptime
    }

    fn frame(self, back: &str, title: &str, flash: Option<FlashMessage>) -> (framed: Self) {
        let mut context = self;
        context.back = some_text(back);
        context.title = some_text(title);
        match flash {
            Some(flash) => {
                context.flash_name = Some(flash.name);
                context.flash_msg = Some(flash.msg);
            },
            None => {},
        }
        context
    }
}

/// The scan reports an access point with this SSID.
pub open spec fn scan_has(scan: Seq<Scan>, ssid: Seq<char>) -> bool {
    exists|i: int| 0 <= i < scan.len() && (#[trigger] scan[i]).ssid@ == ssid
}

/// The list of networks has one with this SSID.
pub open spec fn list_has(networks: Seq<Networks>, ssid: Seq<char>) -> bool {
    exists|i: int| 0 <= i < networks.len() && (#[trigger] networks[i]).ssid@ == ssid
}

/// `scan[i]` is the last report of the scan on its SSID.
pub open spec fn is_last_report(scan: Seq<Scan>, i: int) -> bool {
    &&& 0 <= i < scan.len()
    &&& forall|j: int| i < j < scan.len() ==> (#[trigger] scan[j]).ssid@ != scan[i].ssid@
}

/// The detail page lists a network if and only if it is in range or saved.
/// A saved network that is not in range is listed as not in range.
pub proof fn lemma_detailed_networks(scan: Seq<Scan>, saved: Seq<Networks>, ssid: Seq<char>)
    ensures
        detailed_networks(scan, saved).contains_key(ssid) <==> scan_has(scan, ssid) || list_has(
            saved,
            ssid,
        ),
        !scan_has(scan, ssid) && list_has(saved, ssid) ==> detailed_networks(scan, saved)[ssid]
            == not_in_range(),
{
    let found = inserted(Map::empty(), scanned(scan));
    lemma_inserted_keys(Map::empty(), scanned(scan), ssid);
    lemma_filled(found, ssids(saved), not_in_range(), ssid);
    if names(scanned(scan), ssid) {
        let i = choose|i: int| 0 <= i < scanned(scan).len() && (#[trigger] scanned(scan)[i]).0 == ssid;
        assert(scan[i].ssid@ == ssid);
    }
    if scan_has(scan, ssid) {
        let i = choose|i: int| 0 <= i < scan.len() && (#[trigger] scan[i]).ssid@ == ssid;
        assert(scanned(scan)[i].0 == ssid);
    }
    if ssids(saved).contains(ssid) {
        let i = choose|i: int| 0 <= i < ssids(saved).len() && ssids(saved)[i] == ssid;
        assert(saved[i].ssid@ == ssid);
    }
    if list_has(saved, ssid) {
        let i = choose|i: int| 0 <= i < saved.len() && (#[trigger] saved[i]).ssid@ == ssid;
        assert(ssids(saved)[i] == ssid);
    }
}

/// The detail page lists a network in range as available, with what the
/// scan last reported of it and the quality of that signal, whether the
/// network is saved or not.
pub proof fn lemma_detailed_network_in_range(scan: Seq<Scan>, saved: Seq<Networks>, i: int)
    requires
        is_last_report(scan, i),
    ensures
        detailed_networks(scan, saved).contains_key(scan[i].ssid@),
        detailed_networks(scan, saved)[scan[i].ssid@] == available(scan[i]),
{
    let pairs = scanned(scan);
    assert(is_last_of_key(pairs, i)) by {
        assert forall|j: int| i < j < pairs.len() implies (#[trigger] pairs[j]).0 != pairs[i].0 by {
            assert(scan[j].ssid@ != scan[i].ssid@);
        }
    }
    lemma_inserted_value(Map::empty(), pairs, i);
    lemma_filled(inserted(Map::empty(), pairs), ssids(saved), not_in_range(), scan[i].ssid@);
}

/// The list page shows a network if and only if it is in range or saved:
/// as available where it is in range, as not in range where it is only
/// saved.
pub proof fn lemma_listed_networks(scan: Seq<Networks>, saved: Seq<Networks>, ssid: Seq<char>)
    ensures
        listed_networks(scan, saved).contains_key(ssid) <==> list_has(scan, ssid) || list_has(
            saved,
            ssid,
        ),
        list_has(scan, ssid) ==> listed_networks(scan, saved)[ssid] == "Available"@,
        !list_has(scan, ssid) && list_has(saved, ssid) ==> listed_networks(scan, saved)[ssid]
            == "Not in range"@,
{
    let pairs = in_range(scan);
    let found = inserted(Map::empty(), pairs);
    lemma_inserted_keys(Map::empty(), pairs, ssid);
    lemma_filled(found, ssids(saved), "Not in range"@, ssid);
    if names(pairs, ssid) {
        let i = choose|i: int| 0 <= i < pairs.len() && (#[trigger] pairs[i]).0 == ssid;
        assert(scan[i].ssid@ == ssid);
    }
    if list_has(scan, ssid) {
        let i = choose|i: int| 0 <= i < scan.len() && (#[trigger] scan[i]).ssid@ == ssid;
        assert(pairs[i].0 == ssid);
        lemma_all_available(scan, ssid);
    }
    if ssids(saved).contains(ssid) {
        let i = choose|i: int| 0 <= i < ssids(saved).len() && ssids(saved)[i] == ssid;
        assert(saved[i].ssid@ == ssid);
    }
    if list_has(saved, ssid) {
        let i = choose|i: int| 0 <= i < saved.len() && (#[trigger] saved[i]).ssid@ == ssid;
        assert(ssids(saved)[i] == ssid);
    }
}

proof fn lemma_all_available(scan: Seq<Networks>, ssid: Seq<char>)
    requires
        list_has(scan, ssid),
    ensures
        inserted(Map::empty(), in_range(scan)).contains_key(ssid),
        inserted(Map::empty(), in_range(scan))[ssid] == "Available"@,
    decreases scan.len(),
{
    let pairs = in_range(scan);
    let rest = scan.drop_last();
    assert(pairs.drop_last() =~= in_range(rest));
    assert(pairs.last() == (scan.last().ssid@, "Available"@));
    if scan.last().ssid@ != ssid {
        let i = choose|i: int| 0 <= i < scan.len() && (#[trigger] scan[i]).ssid@ == ssid;
        assert(rest[i] == scan[i]);
        lemma_all_available(rest, ssid);
    }
}

/// Where the network service answers nothing, the network page shows a
/// placeholder in place of every answer, and neither traffic nor a scan.
pub proof fn lemma_silent_network_service(context: NetworkContext, readings: NetworkReadings)
    requires
        context.describes(readings),
        readings.ap_ip is None,
        readings.ap_ssid is None,
        readings.ap_state is None,
        readings.ap_traffic is None,
        readings.wlan_ip is None,
        readings.wlan_rssi is None,
        readings.wlan_scan is None,
        readings.wlan_ssid is None,
        readings.wlan_state is None,
        readings.wlan_status is None,
        readings.wlan_traffic is None,
    ensures
        context.ap_ip@ == "x.x.x.x"@,
        context.ap_ssid@ == "Not currently activated"@,
        context.ap_state@ == "Interface unavailable"@,
        context.ap_traffic is None,
        context.wlan_ip@ == "x.x.x.x"@,
        context.wlan_rssi is None,
        context.wlan_scan is None,
        context.wlan_ssid@ == "Not connected"@,
        context.wlan_state@ == "Interface unavailable"@,
        context.wlan_status@ == "Interface unavailable"@,
        context.wlan_traffic is None,
{
}

/// Where the network service answers nothing, the page on the details of
/// the networks can be built, lists no network and shows a placeholder in
/// place of every answer.
pub proof fn lemma_silent_network_details(
    context: NetworkDetailContext,
    readings: NetworkDetailReadings,
)
    requires
        readings.wlan_ip is None,
        readings.wlan_list is None,
        readings.saved_aps is None,
        readings.wlan_rssi is None,
        readings.wlan_scan is None,
        readings.wlan_ssid is None,
        readings.wlan_state is None,
        readings.wlan_status is None,
        readings.wlan_traffic is None,
    ensures
        measurable(list_or_empty(readings.wlan_scan)),
        context.describes(readings) ==> {
            &&& context.saved_aps@ == Seq::<Networks>::empty()
            &&& context.wlan_networks@ == Map::<Seq<char>, AccessPointView>::empty()
            &&& context.wlan_ip@ == "x.x.x.x"@
            &&& context.wlan_rssi is None
            &&& context.wlan_ssid@ == "Not connected"@
            &&& context.wlan_state@ == "Interface unavailable"@
            &&& context.wlan_status@ == "Interface unavailable"@
            &&& context.wlan_traffic is None
        },
{
    assert(scanned(Seq::<Scan>::empty()) =~= Seq::empty());
    assert(ssids(Seq::<Networks>::empty()) =~= Seq::empty());
}

/// Where no service of the device answers, the status page shows every
/// service as offline, no figures, no partition and no uptime, and dynamic
/// DNS and the Scuttlebutt server as down.
pub proof fn lemma_silent_device<C, L>(context: DeviceContext<C, L>, readings: DeviceReadings<C, L>)
    requires
        context.describes(readings),
        readings.cpu_stat_percent is None,
        readings.load_average is None,
        readings.mem_stats is None,
        readings.network_ping is None,
        readings.oled_ping is None,
        readings.stats_ping is None,
        readings.uptime is None,
        readings.disk_usage is None,
        readings.peach_config is None,
        readings.sbot_online is None,
    ensures
        context.cpu_stat_percent is None,
        context.load_average is None,
        context.mem_stats is None,
        context.network_ping@ == "OFFLINE"@,
        context.oled_ping@ == "OFFLINE"@,
        context.stats_ping@ == "OFFLINE"@,
        context.uptime is None,
        context.disk_stats@ == Seq::<DiskUsage>::empty(),
        !context.config_is_valid,
        !context.dyndns_enabled,
        !context.dyndns_is_online,
        !context.sbot_is_online,
{
    reveal(Seq::filter);
    assert(mounted_at_root(Seq::<DiskUsage>::empty()) =~= Seq::empty());
}

} // verus!
