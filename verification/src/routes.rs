//! The pages: what each route answers, given what came of the calls that it
//! needs. A page is a template with its context; an action is answered with
//! a redirect that carries a flash message.
//!
//! | Method | URL                         | Description                       |
//! | ------ | --------------------------- | --------------------------------- |
//! | GET    | /                           | Home                              |
//! | GET    | /device                     | Device statistics                 |
//! | GET    | /device/reboot              | Reboot device                     |
//! | GET    | /device/shutdown            | Shutdown device                   |
//! | GET    | /help                       | Help and usage guidelines         |
//! | GET    | /login                      | Login form                        |
//! | POST   | /logout                     | Logout authenticated user         |
//! | GET    | /network                    | Network overview                  |
//! | GET    | /network/ap/activate        | Activate WiFi access point mode   |
//! | GET    | /network/wifi               | List of networks                  |
//! | GET    | /network/wifi?<ssid>        | Details of single network         |
//! | GET    | /network/wifi/activate      | Activate WiFi client mode         |
//! | GET    | /network/wifi/add           | Add WiFi form                     |
//! | POST   | /network/wifi/add           | WiFi form submission              |
//! | GET    | /network/wifi/add?<ssid>    | Add WiFi form (SSID populated)    |
//! | POST   | /network/wifi/connect       | Connect to WiFi access point      |
//! | POST   | /network/wifi/disconnect    | Disconnect from WiFi access point |
//! | POST   | /network/wifi/forget        | Remove WiFi                       |
//! | GET    | /network/wifi/modify?<ssid> | Modify WiFi password form         |
//! | POST   | /network/wifi/modify        | Modify network password           |
//! | GET    | /network/wifi/usage         | WiFi data usage form              |
//! | POST   | /network/wifi/usage         | WiFi data usage form submission   |
//! | GET    | /network/wifi/usage/reset   | Reset stored data usage total     |
//! | GET    | /messages                   | Private Scuttlebutt messages      |
//! | GET    | /peers                      | Scuttlebutt peers overview        |
//! | GET    | /profile                    | Scuttlebutt user profile          |
//! | GET    | /shutdown                   | Shutdown menu                     |
//! | GET    | /network/dns                | View DNS configurations           |
//! | POST   | /network/dns                | Modify DNS configurations         |
//! | GET    | /settings/change_password   | View password settings form       |
//! | POST   | /settings/change_password   | Change admin password             |
//! | GET    | /reset_password             | Change password using temp pass   |
//! | POST   | /reset_password             | Change password using temp pass   |
//! | GET    | /send_password_reset        | Send new password reset link      |
//! | POST   | /send_password_reset        | Send new password reset link      |
//! | GET    | /settings/configure_admin   | View the administrators           |
//! | GET    | /settings/admin/add         | Add administrator form            |
//! | POST   | /settings/admin/add         | Add an administrator              |
//! | POST   | /settings/admin/delete      | Remove an administrator           |

use crate::common::Failure;
use crate::context::{
    measurable, AddAdminContext, ChangePasswordContext, ConfigureAdminContext,
    ConfigureDNSContext, DeviceContext, DeviceReadings, Envelope, ErrorContext, HelpContext,
    HomeContext, LoginContext, MessageContext, NetworkAddContext, NetworkAlertContext,
    NetworkContext, NetworkDetailContext, NetworkDetailReadings, NetworkListContext,
    NetworkListReadings, NetworkReadings, Page, PeachConfig, PeerContext, ProfileContext,
    ResetPasswordContext, SendPasswordResetContext, ShutdownContext, list_or_empty,
};
use crate::error::PeachWebError;
use crate::forms::{Ssid, WiFi};
use crate::monitor::{Alert, Data, Threshold};
use crate::network_client::{connecting, next_connect_call, ConnectCall, ConnectProgress};
use crate::response::{Answer, Flash, FlashMessage, FlashView, Status, Step, Template};
use crate::stats_client::Traffic;
use crate::text::opt_text;
use crate::utils::{decode_url_value, url_decoded};
use vstd::pervasive::unreached;
use vstd::prelude::*;

verus! {

/// `template` is the page `name` around `context`: with the back link and
/// the title set, and with `flash` in place of the flash message of `context`
/// where there is one.
pub open spec fn is_page<C: Page>(
    template: Template<C>,
    name: Seq<char>,
    context: C,
    back: Seq<char>,
    title: Seq<char>,
    flash: Option<FlashMessage>,
) -> bool {
    &&& template.name@ == name
    &&& template.context.envelope() == context.envelope().framed(back, title, flash)
    &&& template.context.same_content(&context)
}

/// `template` is the page `name` with nothing in it but the back link, the
/// title and, where there is one, the flash message.
pub open spec fn is_plain_page<C: Page>(
    template: Template<C>,
    name: Seq<char>,
    back: Seq<char>,
    title: Seq<char>,
    flash: Option<FlashMessage>,
) -> bool {
    &&& template.name@ == name
    &&& template.context.envelope() == Envelope::empty().framed(back, title, flash)
}

/// `template` is the page `name` with nothing in it but the back link, the
/// title and a flash message named `flash_name` that says `flash_msg`.
pub open spec fn is_flashing_page<C: Page>(
    template: Template<C>,
    name: Seq<char>,
    back: Seq<char>,
    title: Seq<char>,
    flash_name: Seq<char>,
    flash_msg: Seq<char>,
) -> bool {
    &&& template.name@ == name
    &&& template.context.envelope() == (Envelope {
        back: Some(back),
        title: Some(title),
        flash_name: Some(flash_name),
        flash_msg: Some(flash_msg),
    })
}

/// The name of the flash message that reports what came of saving.
pub open spec fn report_name<T, E>(saved: Result<T, E>) -> Seq<char> {
    if saved is Ok {
        "success"@
    } else {
        "error"@
    }
}

/// What the flash message says that reports what came of saving: `done` on
/// success, else `failed` and, behind it, the error as it displays.
pub open spec fn report_msg(saved: Result<(), PeachWebError>, done: Seq<char>, failed: Seq<char>)
    -> Seq<char> {
    match saved {
        Ok(_) => done,
        Err(error) => failed + error.display(),
    }
}

fn page<C: Page>(name: &str, context: C, back: &str, title: &str, flash: Option<FlashMessage>) -> (template:
    Template<C>)
    ensures
        is_page(template, name@, context, back@, title@, flash),
{
    Template::render(name, context.frame(back, title, flash))
}

fn flash_of(name: &str, msg: String) -> (flash: Option<FlashMessage>)
    ensures
        flash matches Some(flash) && flash.name@ == name@ && flash.msg == msg,
{
    Some(FlashMessage { name: name.to_string(), msg })
}

fn decoded(raw: &str) -> (text: String)
    requires
        url_decoded(raw@) is Some,
    ensures
        Some(text@) == url_decoded(raw@),
{
    match decode_url_value(raw) {
        Some(text) => text,
        None => unreached(),
    }
}

/// Home.
pub fn index() -> (template: Template<HomeContext>)
    ensures
        template.name@ == "index"@,
        template.context.flash_name is None,
        template.context.flash_msg is None,
        template.context.title is None,
{
    let context = HomeContext { flash_name: None, flash_msg: None, title: None };
    Template::render("index", context)
}

/// Device statistics.
pub fn device_stats<C, L>(readings: DeviceReadings<C, L>, flash: Option<FlashMessage>) -> (template:
    Template<DeviceContext<C, L>>)
    ensures
        is_plain_page(template, "device"@, "/"@, "Device Status"@, flash),
        template.context.describes(readings),
{
    let context = DeviceContext::build(readings);
    page("device", context, "/", "Device Status", flash)
}

/// Reboot device: answers what came of the command.
pub fn reboot_cmd<T, E>(rebooted: Result<T, E>) -> (flash: Flash)
    ensures
        flash@ == FlashView::acted(
            rebooted is Ok,
            "/shutdown"@,
            "Rebooting the device"@,
            "Failed to reboot the device"@,
        ),
{
    Flash::acted(rebooted.is_ok(), "/shutdown", "Rebooting the device", "Failed to reboot the device")
}

/// Shutdown device: answers what came of the command.
pub fn shutdown_cmd<T, E>(shut_down: Result<T, E>) -> (flash: Flash)
    ensures
        flash@ == FlashView::acted(
            shut_down is Ok,
            "/shutdown"@,
            "Shutting down the device"@,
            "Failed to shutdown the device"@,
        ),
{
    Flash::acted(
        shut_down.is_ok(),
        "/shutdown",
        "Shutting down the device",
        "Failed to shutdown the device",
    )
}

/// Help and usage guidelines.
pub fn help(flash: Option<FlashMessage>) -> (template: Template<HelpContext>)
    ensures
        is_plain_page(template, "help"@, "/"@, "Help"@, flash),
{
    page("help", HelpContext::build(), "/", "Help", flash)
}

/// Login form.
pub fn login(flash: Option<FlashMessage>) -> (template: Template<LoginContext>)
    ensures
        is_plain_page(template, "login"@, "/"@, "Login"@, flash),
{
    page("login", LoginContext::build(), "/", "Login", flash)
}

/// Logout authenticated user.
pub fn logout() -> (flash: Flash)
    ensures
        flash@ == FlashView::success("/"@, "Logged out"@),
{
    Flash::success("/", "Logged out")
}

/// Network overview.
pub fn network_home(readings: NetworkReadings, flash: Option<FlashMessage>) -> (template: Template<
    NetworkContext,
>)
    ensures
        is_plain_page(template, "network_card"@, "/"@, "Network Configuration"@, flash),
        template.context.describes(readings),
        template.context.selected is None,
{
    let context = NetworkContext::build(readings);
    page("network_card", context, "/", "Network Configuration", flash)
}

/// Activate WiFi access point mode: answers what came of it.
pub fn deploy_ap<T, E>(activated: Result<T, E>) -> (flash: Flash)
    ensures
        flash@ == FlashView::acted(
            activated is Ok,
            "/network"@,
            "Activated WiFi access point"@,
            "Failed to activate WiFi access point"@,
        ),
{
    Flash::acted(
        activated.is_ok(),
        "/network",
        "Activated WiFi access point",
        "Failed to activate WiFi access point",
    )
}

/// List of networks.
pub fn wifi_list(readings: NetworkListReadings, flash: Option<FlashMessage>) -> (template: Template<
    NetworkListContext,
>)
    ensures
        is_plain_page(template, "network_list"@, "/network"@, "WiFi Networks"@, flash),
        template.context.describes(readings),
{
    let context = NetworkListContext::build(readings);
    page("network_list", context, "/network", "WiFi Networks", flash)
}

/// Details of a single network. `ssid` is the value of the query parameter
/// as it stands in the URL. It has to decode to text, and every access point
/// of the scan needs a signal level that comes to a quality.
pub fn network_detail(readings: NetworkDetailReadings, ssid: &str, flash: Option<FlashMessage>) -> (template:
    Template<NetworkDetailContext>)
    requires
        measurable(list_or_empty(readings.wlan_scan)),
        url_decoded(ssid@) is Some,
    ensures
        is_plain_page(template, "network_detail"@, "/network/wifi"@, "WiFi Network"@, flash),
        template.context.describes(readings),
        opt_text(template.context.selected) == url_decoded(ssid@),
{
    let mut context = NetworkDetailContext::build(readings);
    // decode ssid from url
    let decoded_ssid = decoded(ssid);
    context.selected = Some(decoded_ssid);
    page("network_detail", context, "/network/wifi", "WiFi Network", flash)
}

/// Activate WiFi client mode: answers what came of it.
pub fn deploy_client<T, E>(activated: Result<T, E>) -> (flash: Flash)
    ensures
        flash@ == FlashView::acted(
            activated is Ok,
            "/network"@,
            "Activated WiFi client"@,
            "Failed to activate WiFi client"@,
        ),
{
    Flash::acted(
        activated.is_ok(),
        "/network",
        "Activated WiFi client",
        "Failed to activate WiFi client",
    )
}

/// Add WiFi form.
pub fn network_add_wifi(readings: NetworkReadings, flash: Option<FlashMessage>) -> (template:
    Template<NetworkContext>)
    ensures
        is_plain_page(template, "network_add"@, "/network"@, "Add WiFi Network"@, flash),
        template.context.describes(readings),
        template.context.selected is None,
{
    let context = NetworkContext::build(readings);
    page("network_add", context, "/network", "Add WiFi Network", flash)
}

/// Add WiFi form, with the SSID filled in. `ssid` is the value of the query
/// parameter as it stands in the URL; it has to decode to text.
pub fn network_add_ssid(ssid: &str, flash: Option<FlashMessage>) -> (template: Template<
    NetworkAddContext,
>)
    requires
        url_decoded(ssid@) is Some,
    ensures
        is_plain_page(template, "network_add"@, "/network/wifi"@, "Add WiFi Network"@, flash),
        opt_text(template.context.selected) == url_decoded(ssid@),
{
    // decode ssid from url
    let decoded_ssid = decoded(ssid);
    let mut context = NetworkAddContext::build();
    context.selected = Some(decoded_ssid);
    page("network_add", context, "/network/wifi", "Add WiFi Network", flash)
}

/// What adding the credentials of a network has come to.
#[derive(Clone, Debug, PartialEq, Eq)]
pub struct AddCredentialsProgress {
    /// Whether credentials are saved for the network already.
    pub saved_ap: Answer<bool>,
    pub added: Answer<String>,
    pub reconfigured: Answer<String>,
}

/// An outside call that adding the credentials of a network needs.
#[derive(Clone, Debug, PartialEq, Eq)]
pub enum AddCredentialsCall {
    /// Ask whether credentials are saved for the network `ssid`.
    SavedAp { ssid: String },
    /// Write the credentials to the configuration of the wireless client.
    Add { ssid: String, pass: String },
    /// Have the configuration read again.
    Reconfigure,
}

/// `template` is the add-network page with this flash message.
pub open spec fn is_add_page(template: Template<NetworkAddContext>, name: Seq<char>, msg: Seq<char>)
    -> bool {
    &&& is_flashing_page(template, "network_add"@, "/network"@, "Add WiFi Network"@, name, msg)
    &&& template.context.selected is None
}

fn add_page(name: &str, msg: &str) -> (template: Template<NetworkAddContext>)
    ensures
        is_add_page(template, name@, msg@),
{
    let flash = flash_of(name, msg.to_string());
    page("network_add", NetworkAddContext::build(), "/network", "Add WiFi Network", flash)
}

/// WiFi form submission. It is asked first whether credentials exist for
/// the access point; if they do, or if it cannot be found out, the page says
/// so at once. Else the credentials are added; where that succeeded, the
/// configuration is read again, and whatever comes of that the page reports
/// success.
pub fn add_credentials(wifi: &WiFi, progress: &AddCredentialsProgress) -> (step: Step<
    AddCredentialsCall,
    Template<NetworkAddContext>,
>)
    ensures
        match progress.saved_ap {
            Answer::Pending => step matches Step::Call(AddCredentialsCall::SavedAp { ssid })
                && ssid@ == wifi.ssid@,
            Answer::Given(true) => step matches Step::Done(template) && is_add_page(
                template,
                "error"@,
                "Network credentials already exist for this access point"@,
            ),
            _ => match progress.added {
                Answer::Pending => step matches Step::Call(AddCredentialsCall::Add { ssid, pass })
                    && ssid@ == wifi.ssid@ && pass@ == wifi.pass@,
                Answer::Failed => step matches Step::Done(template) && is_add_page(
                    template,
                    "error"@,
                    "Failed to add WiFi credentials"@,
                ),
                Answer::Given(_) => if progress.reconfigured is Pending {
                    step matches Step::Call(AddCredentialsCall::Reconfigure)
                } else {
                    step matches Step::Done(template) && is_add_page(
                        template,
                        "success"@,
                        "Added WiFi credentials"@,
                    )
                },
            },
        },
{
    // check if the credentials already exist for this access point:
    // taken as not existing where the answer is missing
    let creds_exist = match &progress.saved_ap {
        Answer::Pending => {
            return Step::Call(AddCredentialsCall::SavedAp { ssid: wifi.ssid.clone() });
        },
        Answer::Failed => false,
        Answer::Given(exist) => *exist,
    };
    if creds_exist {
        // return early with "creds already exist" message
        return Step::Done(
            add_page("error", "Network credentials already exist for this access point"),
        );
    }
    // if credentials not found, generate and write wifi config to wpa_supplicant
    match &progress.added {
        Answer::Pending => Step::Call(
            AddCredentialsCall::Add { ssid: wifi.ssid.clone(), pass: wifi.pass.clone() },
        ),
        Answer::Failed => Step::Done(add_page("error", "Failed to add WiFi credentials")),
        Answer::Given(_) => match &progress.reconfigured {
            // force reread of wpa_supplicant.conf file with new credentials
            Answer::Pending => Step::Call(AddCredentialsCall::Reconfigure),
            _ => Step::Done(add_page("success", "Added WiFi credentials")),
        },
    }
}

/// WiFi data usage form. The stored total and the traffic of the live
/// session together have to fit in 64 bits.
pub fn wifi_usage(
    alert: Alert,
    stored_traffic: Data,
    threshold: Threshold,
    traffic: Option<Traffic>,
    flash: Option<FlashMessage>,
) -> (template: Template<NetworkAlertContext>)
    requires
        stored_traffic.total + NetworkAlertContext::session(traffic) <= u64::MAX,
    ensures
        is_plain_page(template, "network_usage"@, "/network"@, "Network Data Usage"@, flash),
        template.context.alert == alert,
        template.context.threshold == threshold,
        template.context.data_total.total == stored_traffic.total + NetworkAlertContext::session(
            traffic,
        ),
        match traffic {
            Some(traffic) => template.context.traffic == traffic,
            None => template.context.traffic.received == 0 && template.context.traffic.transmitted
                == 0 && template.context.traffic.rx_unit is None
                && template.context.traffic.tx_unit is None,
        },
{
    let context = NetworkAlertContext::build(alert, stored_traffic, threshold, traffic);
    page("network_usage", context, "/network", "Network Data Usage", flash)
}

/// WiFi data usage form submission: answers what came of storing the
/// thresholds.
pub fn wifi_usage_alerts<T, E>(updated: Result<T, E>) -> (flash: Flash)
    ensures
        flash@ == FlashView::acted(
            updated is Ok,
            "/network/wifi/usage"@,
            "Updated alert thresholds and flags"@,
            "Failed to update alert thresholds and flags"@,
        ),
{
    Flash::acted(
        updated.is_ok(),
        "/network/wifi/usage",
        "Updated alert thresholds and flags",
        "Failed to update alert thresholds and flags",
    )
}

/// View DNS configurations.
pub fn configure_dns(peach_config: PeachConfig, is_dyndns_online: bool, flash: Option<
    FlashMessage,
>) -> (template: Template<ConfigureDNSContext>)
    ensures
        is_plain_page(template, "configure_dns"@, "/network"@, "Configure DNS"@, flash),
        template.context.external_domain == peach_config.external_domain,
        template.context.dyndns_subdomain@ == ConfigureDNSContext::shown_subdomain(
            peach_config.dyn_domain@,
        ),
        template.context.enable_dyndns == peach_config.dyn_enabled,
        template.context.is_dyndns_online == is_dyndns_online,
{
    let context = ConfigureDNSContext::build(peach_config, is_dyndns_online);
    page("configure_dns", context, "/network", "Configure DNS", flash)
}

fn report(saved: &Result<(), PeachWebError>, done: &str, failed: &str) -> (flash: Option<
    FlashMessage,
>)
    ensures
        flash matches Some(flash) && flash.name@ == report_name(*saved) && flash.msg@
            == report_msg(*saved, done@, failed@),
{
    match saved {
        Ok(_) => flash_of("success", done.to_string()),
        Err(error) => {
            let mut msg = failed.to_string();
            let shown = error.to_string();
            msg.append(shown.as_str());
            flash_of("error", msg)
        },
    }
}

/// Modify DNS configurations: the page after the configuration was saved,
/// or could not be.
pub fn configure_dns_post(
    saved: Result<(), PeachWebError>,
    peach_config: PeachConfig,
    is_dyndns_online: bool,
) -> (template: Template<ConfigureDNSContext>)
    ensures
        is_flashing_page(
            template,
            "configure_dns"@,
            "/network"@,
            "Configure DNS"@,
            report_name(saved),
            report_msg(
                saved,
                "New dynamic dns configuration is now enabled"@,
                "Failed to save dns configurations: "@,
            ),
        ),
        template.context.external_domain == peach_config.external_domain,
        template.context.dyndns_subdomain@ == ConfigureDNSContext::shown_subdomain(
            peach_config.dyn_domain@,
        ),
        template.context.enable_dyndns == peach_config.dyn_enabled,
        template.context.is_dyndns_online == is_dyndns_online,
{
    let flash = report(
        &saved,
        "New dynamic dns configuration is now enabled",
        "Failed to save dns configurations: ",
    );
    let context = ConfigureDNSContext::build(peach_config, is_dyndns_online);
    page("configure_dns", context, "/network", "Configure DNS", flash)
}

/// View password settings form.
pub fn change_password(flash: Option<FlashMessage>) -> (template: Template<ChangePasswordContext>)
    ensures
        is_plain_page(
            template,
            "password/change_password"@,
            "/network"@,
            "Change Password"@,
            flash,
        ),
{
    page(
        "password/change_password",
        ChangePasswordContext::build(),
        "/network",
        "Change Password",
        flash,
    )
}

/// Change admin password: the page after the password was saved, or could
/// not be. The page of a failure is titled "Configure DNS".
pub fn change_password_post(saved: Result<(), PeachWebError>) -> (template: Template<
    ChangePasswordContext,
>)
    ensures
        is_flashing_page(
            template,
            "password/change_password"@,
            "/network"@,
            if saved is Ok {
                "Change Password"@
            } else {
                "Configure DNS"@
            },
            report_name(saved),
            report_msg(saved, "New password is now saved"@, "Failed to save new password: "@),
        ),
{
    let flash = report(&saved, "New password is now saved", "Failed to save new password: ");
    let title = match saved {
        Ok(_) => "Change Password",
        Err(_) => "Configure DNS",
    };
    page(
        "password/change_password",
        ChangePasswordContext::build(),
        "/network",
        title,
        flash,
    )
}

/// Form that changes the password with a temporary one, for who has
/// forgotten the password.
pub fn reset_password(flash: Option<FlashMessage>) -> (template: Template<ResetPasswordContext>)
    ensures
        is_plain_page(template, "password/reset_password"@, "/"@, "Reset Password"@, flash),
{
    page("password/reset_password", ResetPasswordContext::build(), "/", "Reset Password", flash)
}

/// Change the password with a temporary one: the page after the password
/// was saved, or could not be.
pub fn reset_password_post(saved: Result<(), PeachWebError>) -> (template: Template<
    ChangePasswordContext,
>)
    ensures
        is_flashing_page(
            template,
            "password/reset_password"@,
            "/"@,
            "Reset Password"@,
            report_name(saved),
            report_msg(
                saved,
                "New password is now saved. Return home to login"@,
                "Failed to reset password: "@,
            ),
        ),
{
    let flash = report(
        &saved,
        "New password is now saved. Return home to login",
        "Failed to reset password: ",
    );
    page(
        "password/reset_password",
        ChangePasswordContext::build(),
        "/",
        "Reset Password",
        flash,
    )
}

/// Form that sends a new password reset link.
pub fn send_password_reset_page(flash: Option<FlashMessage>) -> (template: Template<
    SendPasswordResetContext,
>)
    ensures
        is_plain_page(
            template,
            "password/send_password_reset"@,
            "/"@,
            "Send Password Reset"@,
            flash,
        ),
{
    page(
        "password/send_password_reset",
        SendPasswordResetContext::build(),
        "/",
        "Send Password Reset",
        flash,
    )
}

/// Send a new password reset link: the page after the link was sent, or
/// could not be.
pub fn send_password_reset_post(sent: Result<(), Failure>) -> (template: Template<
    ChangePasswordContext,
>)
    ensures
        is_flashing_page(
            template,
            "password/send_password_reset"@,
            "/"@,
            "Send Password Reset"@,
            report_name(sent),
            match sent {
                Ok(_) => "A password reset link has been sent to the admin of this device"@,
                Err(failure) => "Failed to send password reset link: "@ + failure.display@,
            },
        ),
{
    let flash = match &sent {
        Ok(_) => flash_of(
            "success",
            "A password reset link has been sent to the admin of this device".to_string(),
        ),
        Err(failure) => {
            let mut msg = "Failed to send password reset link: ".to_string();
            msg.append(failure.display.as_str());
            flash_of("error", msg)
        },
    };
    page(
        "password/send_password_reset",
        ChangePasswordContext::build(),
        "/",
        "Send Password Reset",
        flash,
    )
}

/// View of the administrators that are configured.
pub fn configure_admin(flash: Option<FlashMessage>) -> (template: Template<ConfigureAdminContext>)
    ensures
        is_plain_page(template, "admin/configure_admin"@, "/network"@, "Configure Admin"@, flash),
{
    page("admin/configure_admin", ConfigureAdminContext::build(), "/network", "Configure Admin", flash)
}

/// Add administrator form.
pub fn add_admin(flash: Option<FlashMessage>) -> (template: Template<AddAdminContext>)
    ensures
        is_plain_page(
            template,
            "admin/add_admin"@,
            "/settings/configure_admin"@,
            "Add Admin"@,
            flash,
        ),
{
    page("admin/add_admin", AddAdminContext::build(), "/settings/configure_admin", "Add Admin", flash)
}

/// Add an administrator: answers what came of saving the form.
pub fn add_admin_post<T, E>(saved: Result<T, E>) -> (flash: Flash)
    ensures
        flash@ == FlashView::acted(
            saved is Ok,
            "/settings/configure_admin"@,
            "Successfully added new admin"@,
            "Failed to add new admin"@,
        ),
{
    Flash::acted(
        saved.is_ok(),
        "/settings/configure_admin",
        "Successfully added new admin",
        "Failed to add new admin",
    )
}

/// Remove an administrator: answers what came of it.
pub fn delete_admin_post<T, E>(deleted: Result<T, E>) -> (flash: Flash)
    ensures
        flash@ == FlashView::acted(
            deleted is Ok,
            "/settings/configure_admin"@,
            "Successfully removed admin id"@,
            "Failed to remove admin id"@,
        ),
{
    Flash::acted(
        deleted.is_ok(),
        "/settings/configure_admin",
        "Successfully removed admin id",
        "Failed to remove admin id",
    )
}

/// Reset stored data usage total: answers what came of the reset.
pub fn wifi_usage_reset<T, E>(reset: Result<T, E>) -> (flash: Flash)
    ensures
        flash@ == FlashView::acted(
            reset is Ok,
            "/network/wifi/usage"@,
            "Reset stored network traffic total"@,
            "Failed to reset stored network traffic total"@,
        ),
{
    Flash::acted(
        reset.is_ok(),
        "/network/wifi/usage",
        "Reset stored network traffic total",
        "Failed to reset stored network traffic total",
    )
}

/// Connect to WiFi access point: the ID of the network is asked for, then
/// the connection is made with that ID. The redirect leads to the page on
/// the network.
pub fn connect_wifi(network: &Ssid, progress: &ConnectProgress) -> (step: Step<ConnectCall, Flash>)
    ensures
        match step {
            Step::Call(call) => connecting(network.ssid@, *progress, Some(call)),
            Step::Done(flash) => connecting(network.ssid@, *progress, None) && flash@
                == if progress.id is Failed {
                FlashView::error("/network/wifi"@, "Failed to retrieve the network ID"@)
            } else {
                FlashView::acted(
                    progress.connected is Given,
                    "/network/wifi"@,
                    "Connected to chosen network"@,
                    "Failed to connect to chosen network"@,
                )
            }.on_network(network.ssid@),
        },
{
    match next_connect_call(&network.ssid, progress) {
        Some(call) => Step::Call(call),
        None => {
            let flash = match &progress.id {
                Answer::Failed => Flash::error("/network/wifi", "Failed to retrieve the network ID"),
                _ => {
                    let connected = match &progress.connected {
                        Answer::Given(_) => true,
                        _ => false,
                    };
                    Flash::acted(
                        connected,
                        "/network/wifi",
                        "Connected to chosen network",
                        "Failed to connect to chosen network",
                    )
                },
            };
            Step::Done(flash.on_network(network.ssid.as_str()))
        },
    }
}

/// Disconnect from WiFi access point: answers what came of it.
pub fn disconnect_wifi<T, E>(network: &Ssid, disabled: Result<T, E>) -> (flash: Flash)
    ensures
        flash@ == FlashView::acted(
            disabled is Ok,
            "/network"@,
            "Disconnected from WiFi network"@,
            "Failed to disconnect from WiFi network"@,
        ),
{
    Flash::acted(
        disabled.is_ok(),
        "/network",
        "Disconnected from WiFi network",
        "Failed to disconnect from WiFi network",
    )
}

/// Remove WiFi: answers what came of it.
pub fn forget_wifi<T, E>(network: &Ssid, forgotten: Result<T, E>) -> (flash: Flash)
    ensures
        flash@ == FlashView::acted(
            forgotten is Ok,
            "/network"@,
            "WiFi credentials removed"@,
            "Failed to remove WiFi credentials"@,
        ),
{
    Flash::acted(
        forgotten.is_ok(),
        "/network",
        "WiFi credentials removed",
        "Failed to remove WiFi credentials",
    )
}

/// Modify WiFi password form. `ssid` is the value of the query parameter as
/// it stands in the URL; it has to decode to text.
pub fn wifi_password(ssid: &str, flash: Option<FlashMessage>) -> (template: Template<
    NetworkAddContext,
>)
    requires
        url_decoded(ssid@) is Some,
    ensures
        is_plain_page(
            template,
            "network_modify"@,
            "/network/wifi"@,
            "Update WiFi Password"@,
            flash,
        ),
        opt_text(template.context.selected) == url_decoded(ssid@),
{
    // decode ssid from url
    let decoded_ssid = decoded(ssid);
    let mut context = NetworkAddContext::build();
    context.selected = Some(decoded_ssid);
    page("network_modify", context, "/network/wifi", "Update WiFi Password", flash)
}

/// Modify network password: answers what came of it. The redirect leads to
/// the page on the network.
pub fn wifi_set_password<T, E>(wifi: &WiFi, updated: Result<T, E>) -> (flash: Flash)
    ensures
        flash@ == FlashView::acted(
            updated is Ok,
            "/network/wifi"@,
            "WiFi password updated"@,
            "Failed to update WiFi password"@,
        ).on_network(wifi.ssid@),
{
    Flash::acted(
        updated.is_ok(),
        "/network/wifi",
        "WiFi password updated",
        "Failed to update WiFi password",
    ).on_network(wifi.ssid.as_str())
}

/// Private Scuttlebutt messages.
pub fn messages(flash: Option<FlashMessage>) -> (template: Template<MessageContext>)
    ensures
        is_plain_page(template, "messages"@, "/"@, "Private Messages"@, flash),
{
    page("messages", MessageContext::build(), "/", "Private Messages", flash)
}

/// Scuttlebutt peers overview.
pub fn peers(flash: Option<FlashMessage>) -> (template: Template<PeerContext>)
    ensures
        is_plain_page(template, "peers"@, "/"@, "Scuttlebutt Peers"@, flash),
{
    page("peers", PeerContext::build(), "/", "Scuttlebutt Peers", flash)
}

/// Scuttlebutt user profile.
pub fn profile(flash: Option<FlashMessage>) -> (template: Template<ProfileContext>)
    ensures
        is_plain_page(template, "profile"@, "/"@, "Profile"@, flash),
{
    page("profile", ProfileContext::build(), "/", "Profile", flash)
}

/// Shutdown menu.
pub fn shutdown_menu(flash: Option<FlashMessage>) -> (template: Template<ShutdownContext>)
    ensures
        is_plain_page(template, "shutdown"@, "/"@, "Shutdown Device"@, flash),
{
    page("shutdown", ShutdownContext::build(), "/", "Shutdown Device", flash)
}

/// The page that answers a request for which there is no resource.
pub fn not_found() -> (template: Template<ErrorContext>)
    ensures
        is_flashing_page(
            template,
            "not_found"@,
            "/"@,
            "404: Page Not Found"@,
            "error"@,
            "No resource found for given URL"@,
        ),
{
    let flash = flash_of("error", "No resource found for given URL".to_string());
    page("not_found", ErrorContext::build(), "/", "404: Page Not Found", flash)
}

/// The page that answers a request on which the server failed.
pub fn internal_error() -> (template: Template<ErrorContext>)
    ensures
        is_flashing_page(
            template,
            "internal_error"@,
            "/"@,
            "500: Internal Server Error"@,
            "error"@,
            "Internal server error"@,
        ),
{
    let flash = flash_of("error", "Internal server error".to_string());
    page("internal_error", ErrorContext::build(), "/", "500: Internal Server Error", flash)
}

/// The directory from which static files are served.
pub open spec fn static_directory() -> Seq<char> {
    "static/"@
}

/// The path at which a static file is opened.
pub fn files(file: &str) -> (path: String)
    ensures
        path@ == static_directory() + file@,
{
    let mut path = "static/".to_string();
    path.append(file);
    path
}

/// An error page with the status of its answer.
#[derive(Debug)]
pub struct ErrorPage {
    pub status: Status,
    pub template: Template<ErrorContext>,
}

/// The answer to a request for a static file: the file where it could be
/// opened, else the page that says that there is no such resource, with the
/// status "404 Not Found".
pub fn serve<F>(opened: Option<F>) -> (answer: Result<F, ErrorPage>)
    ensures
        match opened {
            Some(file) => answer == Ok::<F, ErrorPage>(file),
            None => answer matches Err(page) && is_missing(page),
        },
{
    match opened {
        Some(file) => Ok(file),
        None => Err(missing()),
    }
}

/// `page` says that there is no resource for the URL of the request.
pub open spec fn is_missing(page: ErrorPage) -> bool {
    &&& page.status == Status::NotFound
    &&& is_flashing_page(
        page.template,
        "not_found"@,
        "/"@,
        "404: Page Not Found"@,
        "error"@,
        "No resource found for given URL"@,
    )
}

/// The answer to a request that nobody answers.
pub fn missing() -> (page: ErrorPage)
    ensures
        is_missing(page),
{
    ErrorPage { status: Status::NotFound, template: not_found() }
}

} // verus!
