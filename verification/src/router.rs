//! The routes: which handler answers which request.

use crate::text::opt_text;
use crate::uri::{
    canonical, canonical_path, file_of, file_path, find_query_value, path_and_query, path_of,
    query_of, query_value,
};
use crate::utils::same_text;
use vstd::prelude::*;

verus! {

/// The methods of the requests that are answered.
#[derive(Clone, Copy, Debug, PartialEq, Eq, Structural)]
pub enum Method {
    Get,
    Post,
}

/// The handlers, each named as the function that answers, and what is
/// done with a request that none of them answers.
#[derive(Clone, Copy, Debug, PartialEq, Eq, Structural)]
pub enum Route {
    /// `GET /`: Home.
    Index,
    /// `GET /device`: Device statistics.
    DeviceStats,
    /// `GET /device/reboot`: Reboot device.
    RebootCmd,
    /// `GET /device/shutdown`: Shutdown device.
    ShutdownCmd,
    /// `GET /help`: Help and usage guidelines.
    Help,
    /// `GET /login`: Login form.
    Login,
    /// `GET /network`: Network overview.
    NetworkHome,
    /// `GET /network/ap/activate`: Activate WiFi access point mode.
    DeployAp,
    /// `GET /network/wifi?<ssid>`: Details of single network.
    NetworkDetail,
    /// `GET /network/wifi`: List of networks.
    WifiList,
    /// `GET /network/wifi/activate`: Activate WiFi client mode.
    DeployClient,
    /// `GET /network/wifi/add?<ssid>`: Add WiFi form (SSID populated).
    NetworkAddSsid,
    /// `GET /network/wifi/add`: Add WiFi form.
    NetworkAddWifi,
    /// `GET /network/wifi/modify?<ssid>`: Modify WiFi password form.
    WifiPassword,
    /// `GET /network/wifi/usage`: WiFi data usage form.
    WifiUsage,
    /// `GET /network/wifi/usage/reset`: Reset stored data usage total.
    WifiUsageReset,
    /// `GET /network/dns`: View DNS configurations.
    ConfigureDns,
    /// `GET /settings/change_password`: View password settings form.
    ChangePassword,
    /// `GET /reset_password`: Change password using temp pass.
    ResetPassword,
    /// `GET /send_password_reset`: Send new password reset link.
    SendPasswordResetPage,
    /// `GET /settings/configure_admin`: View the administrators.
    ConfigureAdmin,
    /// `GET /settings/admin/add`: Add administrator form.
    AddAdmin,
    /// `GET /messages`: Private Scuttlebutt messages.
    Messages,
    /// `GET /peers`: Scuttlebutt peers overview.
    Peers,
    /// `GET /profile`: Scuttlebutt user profile.
    Profile,
    /// `GET /shutdown`: Shutdown menu.
    ShutdownMenu,
    /// `GET /api/v1/network/ip`: IP addresses.
    ReturnIp,
    /// `GET /api/v1/network/rssi`: Signal strength.
    ReturnRssi,
    /// `GET /api/v1/network/ssid`: Name of the connected network.
    ReturnSsid,
    /// `GET /api/v1/network/state`: State of the interfaces.
    ReturnState,
    /// `GET /api/v1/network/status`: Status of the connection.
    ReturnStatus,
    /// `GET /api/v1/network/wifi`: Retrieve available networks.
    ScanNetworks,
    /// `GET /api/v1/ping`: Ping the web interface.
    PingPong,
    /// `GET /api/v1/ping/network`: Ping `peach-network`.
    PingNetwork,
    /// `GET /api/v1/ping/oled`: Ping `peach-oled`.
    PingOled,
    /// `GET /api/v1/ping/stats`: Ping `peach-stats`.
    PingStats,
    /// `POST /logout`: Logout authenticated user.
    Logout,
    /// `POST /network/wifi/add`: WiFi form submission.
    AddCredentials,
    /// `POST /network/wifi/connect`: Connect to WiFi access point.
    ConnectWifi,
    /// `POST /network/wifi/disconnect`: Disconnect from WiFi access point.
    DisconnectWifi,
    /// `POST /network/wifi/forget`: Remove WiFi.
    ForgetWifi,
    /// `POST /network/wifi/modify`: Modify network password.
    WifiSetPassword,
    /// `POST /network/wifi/usage`: WiFi data usage form submission.
    WifiUsageAlerts,
    /// `POST /network/dns`: Modify DNS configurations.
    ConfigureDnsPost,
    /// `POST /reset_password`: Change password using temp pass.
    ResetPasswordPost,
    /// `POST /send_password_reset`: Send new password reset link.
    SendPasswordResetPost,
    /// `POST /settings/admin/add`: Add an administrator.
    AddAdminPost,
    /// `POST /settings/admin/delete`: Remove an administrator.
    DeleteAdminPost,
    /// `POST /api/v1/device/reboot`: Reboot device (JSON).
    RebootDevice,
    /// `POST /api/v1/device/shutdown`: Shutdown device (JSON).
    ShutdownDevice,
    /// `POST /api/v1/network/activate_ap`: Activate access point mode (JSON).
    ActivateAp,
    /// `POST /api/v1/network/activate_client`: Activate client mode (JSON).
    ActivateClient,
    /// `POST /api/v1/network/wifi`: Add WiFi AP credentials (JSON).
    AddWifi,
    /// `POST /api/v1/network/wifi/connect`: Connect to WiFi access point (JSON).
    ConnectAp,
    /// `POST /api/v1/network/wifi/disconnect`: Disconnect WiFi access point (JSON).
    DisconnectAp,
    /// `POST /api/v1/network/wifi/forget`: Forget / remove network (JSON).
    ForgetAp,
    /// `POST /api/v1/network/wifi/modify`: Modify network password (JSON).
    ModifyPassword,
    /// `POST /api/v1/network/wifi/usage`: Update alert thresholds (JSON).
    UpdateWifiAlerts,
    /// `POST /api/v1/network/wifi/usage/reset`: Reset stored data usage total (JSON).
    ResetDataTotal,
    /// `GET` of any other path that names a file: the file is served from
    /// the directory of static files, if it is there.
    Files,
    /// Any other request: there is no resource for it.
    NotFound,
}

/// One line of the table of routes: the method, the path, whether the query
/// has to give an `ssid`, and the handler.
#[derive(Clone, Copy, Debug, PartialEq, Eq)]
pub struct Entry {
    pub method: Method,
    pub path: &'static str,
    pub ssid: bool,
    pub route: Route,
}

/// What an `Entry` stands for.
pub struct EntryView {
    pub method: Method,
    pub path: Seq<char>,
    pub ssid: bool,
    pub route: Route,
}

impl View for Entry {
    type V = EntryView;

    open spec fn view(&self) -> EntryView {
        EntryView { method: self.method, path: self.path@, ssid: self.ssid, route: self.route }
    }
}

/// The table of routes. Of two lines that a request matches the earlier
/// one counts: a line that asks for an `ssid` stands before the line of the
/// same path that does not.
pub open spec fn table() -> Seq<EntryView> {
    seq![
        EntryView { method: Method::Get, path: "/"@, ssid: false, route: Route::Index },
        EntryView { method: Method::Get, path: "/device"@, ssid: false, route: Route::DeviceStats },
        EntryView { method: Method::Get, path: "/device/reboot"@, ssid: false, route: Route::RebootCmd },
        EntryView { method: Method::Get, path: "/device/shutdown"@, ssid: false, route: Route::ShutdownCmd },
        EntryView { method: Method::Get, path: "/help"@, ssid: false, route: Route::Help },
        EntryView { method: Method::Get, path: "/login"@, ssid: false, route: Route::Login },
        EntryView { method: Method::Get, path: "/network"@, ssid: false, route: Route::NetworkHome },
        EntryView { method: Method::Get, path: "/network/ap/activate"@, ssid: false, route: Route::DeployAp },
        EntryView { method: Method::Get, path: "/network/wifi"@, ssid: true, route: Route::NetworkDetail },
        EntryView { method: Method::Get, path: "/network/wifi"@, ssid: false, route: Route::WifiList },
        EntryView { method: Method::Get, path: "/network/wifi/activate"@, ssid: false, route: Route::DeployClient },
        EntryView { method: Method::Get, path: "/network/wifi/add"@, ssid: true, route: Route::NetworkAddSsid },
        EntryView { method: Method::Get, path: "/network/wifi/add"@, ssid: false, route: Route::NetworkAddWifi },
        EntryView { method: Method::Get, path: "/network/wifi/modify"@, ssid: true, route: Route::WifiPassword },
        EntryView { method: Method::Get, path: "/network/wifi/usage"@, ssid: false, route: Route::WifiUsage },
        EntryView { method: Method::Get, path: "/network/wifi/usage/reset"@, ssid: false, route: Route::WifiUsageReset },
        EntryView { method: Method::Get, path: "/network/dns"@, ssid: false, route: Route::ConfigureDns },
        EntryView { method: Method::Get, path: "/settings/change_password"@, ssid: false, route: Route::ChangePassword },
        EntryView { method: Method::Get, path: "/reset_password"@, ssid: false, route: Route::ResetPassword },
        EntryView { method: Method::Get, path: "/send_password_reset"@, ssid: false, route: Route::SendPasswordResetPage },
        EntryView { method: Method::Get, path: "/settings/configure_admin"@, ssid: false, route: Route::ConfigureAdmin },
        EntryView { method: Method::Get, path: "/settings/admin/add"@, ssid: false, route: Route::AddAdmin },
        EntryView { method: Method::Get, path: "/messages"@, ssid: false, route: Route::Messages },
        EntryView { method: Method::Get, path: "/peers"@, ssid: false, route: Route::Peers },
        EntryView { method: Method::Get, path: "/profile"@, ssid: false, route: Route::Profile },
        EntryView { method: Method::Get, path: "/shutdown"@, ssid: false, route: Route::ShutdownMenu },
        EntryView { method: Method::Get, path: "/api/v1/network/ip"@, ssid: false, route: Route::ReturnIp },
        EntryView { method: Method::Get, path: "/api/v1/network/rssi"@, ssid: false, route: Route::ReturnRssi },
        EntryView { method: Method::Get, path: "/api/v1/network/ssid"@, ssid: false, route: Route::ReturnSsid },
        EntryView { method: Method::Get, path: "/api/v1/network/state"@, ssid: false, route: Route::ReturnState },
        EntryView { method: Method::Get, path: "/api/v1/network/status"@, ssid: false, route: Route::ReturnStatus },
        EntryView { method: Method::Get, path: "/api/v1/network/wifi"@, ssid: false, route: Route::ScanNetworks },
        EntryView { method: Method::Get, path: "/api/v1/ping"@, ssid: false, route: Route::PingPong },
        EntryView { method: Method::Get, path: "/api/v1/ping/network"@, ssid: false, route: Route::PingNetwork },
        EntryView { method: Method::Get, path: "/api/v1/ping/oled"@, ssid: false, route: Route::PingOled },
        EntryView { method: Method::Get, path: "/api/v1/ping/stats"@, ssid: false, route: Route::PingStats },
        EntryView { method: Method::Post, path: "/logout"@, ssid: false, route: Route::Logout },
        EntryView { method: Method::Post, path: "/network/wifi/add"@, ssid: false, route: Route::AddCredentials },
        EntryView { method: Method::Post, path: "/network/wifi/connect"@, ssid: false, route: Route::ConnectWifi },
        EntryView { method: Method::Post, path: "/network/wifi/disconnect"@, ssid: false, route: Route::DisconnectWifi },
        EntryView { method: Method::Post, path: "/network/wifi/forget"@, ssid: false, route: Route::ForgetWifi },
        EntryView { method: Method::Post, path: "/network/wifi/modify"@, ssid: false, route: Route::WifiSetPassword },
        EntryView { method: Method::Post, path: "/network/wifi/usage"@, ssid: false, route: Route::WifiUsageAlerts },
        EntryView { method: Method::Post, path: "/network/dns"@, ssid: false, route: Route::ConfigureDnsPost },
        EntryView { method: Method::Post, path: "/reset_password"@, ssid: false, route: Route::ResetPasswordPost },
        EntryView { method: Method::Post, path: "/send_password_reset"@, ssid: false, route: Route::SendPasswordResetPost },
        EntryView { method: Method::Post, path: "/settings/admin/add"@, ssid: false, route: Route::AddAdminPost },
        EntryView { method: Method::Post, path: "/settings/admin/delete"@, ssid: false, route: Route::DeleteAdminPost },
        EntryView { method: Method::Post, path: "/api/v1/device/reboot"@, ssid: false, route: Route::RebootDevice },
        EntryView { method: Method::Post, path: "/api/v1/device/shutdown"@, ssid: false, route: Route::ShutdownDevice },
        EntryView { method: Method::Post, path: "/api/v1/network/activate_ap"@, ssid: false, route: Route::ActivateAp },
        EntryView { method: Method::Post, path: "/api/v1/network/activate_client"@, ssid: false, route: Route::ActivateClient },
        EntryView { method: Method::Post, path: "/api/v1/network/wifi"@, ssid: false, route: Route::AddWifi },
        EntryView { method: Method::Post, path: "/api/v1/network/wifi/connect"@, ssid: false, route: Route::ConnectAp },
        EntryView { method: Method::Post, path: "/api/v1/network/wifi/disconnect"@, ssid: false, route: Route::DisconnectAp },
        EntryView { method: Method::Post, path: "/api/v1/network/wifi/forget"@, ssid: false, route: Route::ForgetAp },
        EntryView { method: Method::Post, path: "/api/v1/network/wifi/modify"@, ssid: false, route: Route::ModifyPassword },
        EntryView { method: Method::Post, path: "/api/v1/network/wifi/usage"@, ssid: false, route: Route::UpdateWifiAlerts },
        EntryView { method: Method::Post, path: "/api/v1/network/wifi/usage/reset"@, ssid: false, route: Route::ResetDataTotal },
    ]
}

/// The table of routes.
pub fn routes() -> (entries: Vec<Entry>)
    ensures
        entries@.map_values(|entry: Entry| entry@) == table(),
{
    let entries = vec![
        Entry { method: Method::Get, path: "/", ssid: false, route: Route::Index },
        Entry { method: Method::Get, path: "/device", ssid: false, route: Route::DeviceStats },
        Entry { method: Method::Get, path: "/device/reboot", ssid: false, route: Route::RebootCmd },
        Entry { method: Method::Get, path: "/device/shutdown", ssid: false, route: Route::ShutdownCmd },
        Entry { method: Method::Get, path: "/help", ssid: false, route: Route::Help },
        Entry { method: Method::Get, path: "/login", ssid: false, route: Route::Login },
        Entry { method: Method::Get, path: "/network", ssid: false, route: Route::NetworkHome },
        Entry { method: Method::Get, path: "/network/ap/activate", ssid: false, route: Route::DeployAp },
        Entry { method: Method::Get, path: "/network/wifi", ssid: true, route: Route::NetworkDetail },
        Entry { method: Method::Get, path: "/network/wifi", ssid: false, route: Route::WifiList },
        Entry { method: Method::Get, path: "/network/wifi/activate", ssid: false, route: Route::DeployClient },
        Entry { method: Method::Get, path: "/network/wifi/add", ssid: true, route: Route::NetworkAddSsid },
        Entry { method: Method::Get, path: "/network/wifi/add", ssid: false, route: Route::NetworkAddWifi },
        Entry { method: Method::Get, path: "/network/wifi/modify", ssid: true, route: Route::WifiPassword },
        Entry { method: Method::Get, path: "/network/wifi/usage", ssid: false, route: Route::WifiUsage },
        Entry { method: Method::Get, path: "/network/wifi/usage/reset", ssid: false, route: Route::WifiUsageReset },
        Entry { method: Method::Get, path: "/network/dns", ssid: false, route: Route::ConfigureDns },
        Entry { method: Method::Get, path: "/settings/change_password", ssid: false, route: Route::ChangePassword },
        Entry { method: Method::Get, path: "/reset_password", ssid: false, route: Route::ResetPassword },
        Entry { method: Method::Get, path: "/send_password_reset", ssid: false, route: Route::SendPasswordResetPage },
        Entry { method: Method::Get, path: "/settings/configure_admin", ssid: false, route: Route::ConfigureAdmin },
        Entry { method: Method::Get, path: "/settings/admin/add", ssid: false, route: Route::AddAdmin },
        Entry { method: Method::Get, path: "/messages", ssid: false, route: Route::Messages },
        Entry { method: Method::Get, path: "/peers", ssid: false, route: Route::Peers },
        Entry { method: Method::Get, path: "/profile", ssid: false, route: Route::Profile },
        Entry { method: Method::Get, path: "/shutdown", ssid: false, route: Route::ShutdownMenu },
        Entry { method: Method::Get, path: "/api/v1/network/ip", ssid: false, route: Route::ReturnIp },
        Entry { method: Method::Get, path: "/api/v1/network/rssi", ssid: false, route: Route::ReturnRssi },
        Entry { method: Method::Get, path: "/api/v1/network/ssid", ssid: false, route: Route::ReturnSsid },
        Entry { method: Method::Get, path: "/api/v1/network/state", ssid: false, route: Route::ReturnState },
        Entry { method: Method::Get, path: "/api/v1/network/status", ssid: false, route: Route::ReturnStatus },
        Entry { method: Method::Get, path: "/api/v1/network/wifi", ssid: false, route: Route::ScanNetworks },
        Entry { method: Method::Get, path: "/api/v1/ping", ssid: false, route: Route::PingPong },
        Entry { method: Method::Get, path: "/api/v1/ping/network", ssid: false, route: Route::PingNetwork },
        Entry { method: Method::Get, path: "/api/v1/ping/oled", ssid: false, route: Route::PingOled },
        Entry { method: Method::Get, path: "/api/v1/ping/stats", ssid: false, route: Route::PingStats },
        Entry { method: Method::Post, path: "/logout", ssid: false, route: Route::Logout },
        Entry { method: Method::Post, path: "/network/wifi/add", ssid: false, route: Route::AddCredentials },
        Entry { method: Method::Post, path: "/network/wifi/connect", ssid: false, route: Route::ConnectWifi },
        Entry { method: Method::Post, path: "/network/wifi/disconnect", ssid: false, route: Route::DisconnectWifi },
        Entry { method: Method::Post, path: "/network/wifi/forget", ssid: false, route: Route::ForgetWifi },
        Entry { method: Method::Post, path: "/network/wifi/modify", ssid: false, route: Route::WifiSetPassword },
        Entry { method: Method::Post, path: "/network/wifi/usage", ssid: false, route: Route::WifiUsageAlerts },
        Entry { method: Method::Post, path: "/network/dns", ssid: false, route: Route::ConfigureDnsPost },
        Entry { method: Method::Post, path: "/reset_password", ssid: false, route: Route::ResetPasswordPost },
        Entry { method: Method::Post, path: "/send_password_reset", ssid: false, route: Route::SendPasswordResetPost },
        Entry { method: Method::Post, path: "/settings/admin/add", ssid: false, route: Route::AddAdminPost },
        Entry { method: Method::Post, path: "/settings/admin/delete", ssid: false, route: Route::DeleteAdminPost },
        Entry { method: Method::Post, path: "/api/v1/device/reboot", ssid: false, route: Route::RebootDevice },
        Entry { method: Method::Post, path: "/api/v1/device/shutdown", ssid: false, route: Route::ShutdownDevice },
        Entry { method: Method::Post, path: "/api/v1/network/activate_ap", ssid: false, route: Route::ActivateAp },
        Entry { method: Method::Post, path: "/api/v1/network/activate_client", ssid: false, route: Route::ActivateClient },
        Entry { method: Method::Post, path: "/api/v1/network/wifi", ssid: false, route: Route::AddWifi },
        Entry { method: Method::Post, path: "/api/v1/network/wifi/connect", ssid: false, route: Route::ConnectAp },
        Entry { method: Method::Post, path: "/api/v1/network/wifi/disconnect", ssid: false, route: Route::DisconnectAp },
        Entry { method: Method::Post, path: "/api/v1/network/wifi/forget", ssid: false, route: Route::ForgetAp },
        Entry { method: Method::Post, path: "/api/v1/network/wifi/modify", ssid: false, route: Route::ModifyPassword },
        Entry { method: Method::Post, path: "/api/v1/network/wifi/usage", ssid: false, route: Route::UpdateWifiAlerts },
        Entry { method: Method::Post, path: "/api/v1/network/wifi/usage/reset", ssid: false, route: Route::ResetDataTotal },
    ];
    assert(entries@.map_values(|entry: Entry| entry@) =~= table());
    entries
}

/// The line matches a request with this method and path, written in the
/// form of the table, that gives an `ssid` or does not.
pub open spec fn matches(entry: EntryView, method: Method, path: Seq<char>, has_ssid: bool) -> bool {
    entry.method == method && entry.path == path && (entry.ssid ==> has_ssid)
}

/// The handler of the first line that matches, if one does.
pub open spec fn lookup(entries: Seq<EntryView>, method: Method, path: Seq<char>, has_ssid: bool)
    -> Option<Route>
    decreases entries.len(),
{
    if entries.len() == 0 {
        None
    } else if matches(entries[0], method, path, has_ssid) {
        Some(entries[0].route)
    } else {
        lookup(entries.skip(1), method, path, has_ssid)
    }
}

/// The `ssid` that the query of a request target gives, as it stands
/// there.
pub open spec fn requested_ssid(uri: Seq<char>) -> Option<Seq<char>> {
    match query_of(uri) {
        Some(query) => query_value(query, "ssid"@),
        None => None,
    }
}

/// Who answers a request: the handler of the first line of the table that
/// matches; failing that, for a `GET` whose path names a file, the static
/// files; failing that, nobody.
pub open spec fn route_of(method: Method, uri: Seq<char>) -> Route {
    match lookup(table(), method, canonical(path_of(uri)), requested_ssid(uri) is Some) {
        Some(route) => route,
        None => if method == Method::Get && file_of(path_of(uri)) is Some {
            Route::Files
        } else {
            Route::NotFound
        },
    }
}

/// A request that has found its handler.
#[derive(Clone, Debug, PartialEq, Eq)]
pub struct Routed {
    pub route: Route,
    /// The `ssid` of the query, as it stands there.
    pub ssid: Option<String>,
    /// For `Route::Files`, the file that the path names, relative to the
    /// directory of static files.
    pub file: Option<String>,
}

/// Finds the handler of a request.
pub fn route(method: Method, uri: &str) -> (routed: Routed)
    ensures
        routed.route == route_of(method, uri@),
        opt_text(routed.ssid) == requested_ssid(uri@),
        opt_text(routed.file) == if routed.route == Route::Files {
            file_of(path_of(uri@))
        } else {
            None
        },
{
    let (path, query) = path_and_query(uri);
    let ssid = match &query {
        Some(query) => find_query_value(query.as_str(), "ssid"),
        None => None,
    };
    let written = canonical_path(path.as_str());
    let entries = routes();
    let ghost lines = entries@.map_values(|entry: Entry| entry@);
    let mut i: usize = 0;
    assert(lines.skip(0) =~= lines);
    while i < entries.len()
        invariant
            i <= entries@.len(),
            lines == entries@.map_values(|entry: Entry| entry@),
            lines == table(),
            written@ == canonical(path_of(uri@)),
            opt_text(ssid) == requested_ssid(uri@),
            lookup(table(), method, written@, ssid is Some) == lookup(
                lines.skip(i as int),
                method,
                written@,
                ssid is Some,
            ),
        decreases entries@.len() - i,
    {
        let entry = entries[i];
        assert(lines.skip(i as int)[0] == entry@);
        assert(lines.skip(i as int).skip(1) =~= lines.skip(i + 1));
        let same_method = match (entry.method, method) {
            (Method::Get, Method::Get) => true,
            (Method::Post, Method::Post) => true,
            _ => false,
        };
        if same_method && same_text(entry.path, written.as_str()) && (!entry.ssid
            || ssid.is_some()) {
            return Routed { route: entry.route, ssid, file: None };
        }
        i = i + 1;
    }
    let file = match method {
        Method::Get => file_path(path.as_str()),
        Method::Post => None,
    };
    match file {
        Some(file) => Routed { route: Route::Files, ssid, file: Some(file) },
        None => Routed { route: Route::NotFound, ssid, file: None },
    }
}

/// A request that no line of the table matches is answered by the static
/// files or by nobody; where it is no `GET`, by nobody.
pub proof fn lemma_unlisted_request(method: Method, uri: Seq<char>)
    requires
        lookup(table(), method, canonical(path_of(uri)), requested_ssid(uri) is Some) is None,
    ensures
        route_of(method, uri) == Route::Files || route_of(method, uri) == Route::NotFound,
        route_of(method, uri) == Route::Files <==> method == Method::Get && file_of(path_of(uri))
            is Some,
{
}

/// The handler that a lookup finds stands in a line that matches the
/// request, and no line before it does.
pub proof fn lemma_lookup(entries: Seq<EntryView>, method: Method, path: Seq<char>, has_ssid: bool)
    ensures
        match lookup(entries, method, path, has_ssid) {
            Some(found) => exists|i: int|
                0 <= i < entries.len() && #[trigger] matches(entries[i], method, path, has_ssid)
                    && entries[i].route == found && forall|j: int|
                    0 <= j < i ==> !#[trigger] matches(entries[j], method, path, has_ssid),
            None => forall|i: int|
                0 <= i < entries.len() ==> !#[trigger] matches(entries[i], method, path, has_ssid),
        },
    decreases entries.len(),
{
    if entries.len() > 0 && !matches(entries[0], method, path, has_ssid) {
        let rest = entries.skip(1);
        lemma_lookup(rest, method, path, has_ssid);
        match lookup(rest, method, path, has_ssid) {
            Some(found) => {
                let i = choose|i: int|
                    0 <= i < rest.len() && #[trigger] matches(rest[i], method, path, has_ssid)
                        && rest[i].route == found && forall|j: int|
                        0 <= j < i ==> !#[trigger] matches(rest[j], method, path, has_ssid);
                assert(entries[i + 1] == rest[i]);
                assert forall|j: int| 0 <= j < i + 1 implies !#[trigger] matches(
                    entries[j],
                    method,
                    path,
                    has_ssid,
                ) by {
                    if j > 0 {
                        assert(entries[j] == rest[j - 1]);
                    }
                }
                assert(matches(entries[i + 1], method, path, has_ssid));
            },
            None => {
                assert forall|i: int| 0 <= i < entries.len() implies !#[trigger] matches(
                    entries[i],
                    method,
                    path,
                    has_ssid,
                ) by {
                    if i > 0 {
                        assert(entries[i] == rest[i - 1]);
                    }
                }
            },
        }
    } else if entries.len() > 0 {
        assert(matches(entries[0], method, path, has_ssid));
    }
}

} // verus!
