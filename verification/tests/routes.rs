use peach_web::common::{Failure, FailureKind};
use peach_web::context::{
    DeviceReadings, NetworkDetailReadings, NetworkListReadings, NetworkReadings, PeachConfig,
};
use peach_web::error::PeachWebError;
use peach_web::forms::{Ssid, WiFi};
use peach_web::monitor::{Alert, Data, Threshold};
use peach_web::network_client::{ConnectCall, ConnectProgress, Networks, Scan};
use peach_web::response::{Answer, ContentType, Flash, FlashMessage, Status, Step, Template};
use peach_web::router::{route, Method, Route};
use peach_web::routes::{
    self, AddCredentialsCall, AddCredentialsProgress,
};
use peach_web::context::{is_measurable, quality_percent, NetworkAddContext, NetworkAlertContext};
use peach_web::stats_client::{DiskUsage, MemStat, Traffic};

// every call to a microservice fails in these tests, as it does where
// none is running
fn unavailable() -> Result<String, ()> {
    Err(())
}

fn wifi() -> WiFi {
    WiFi { ssid: "Home".to_string(), pass: "Password".to_string() }
}

fn home() -> Ssid {
    Ssid { ssid: "Home".to_string() }
}

fn flash(name: &str, msg: &str) -> Option<FlashMessage> {
    Some(FlashMessage { name: name.to_string(), msg: msg.to_string() })
}

fn no_network_readings() -> NetworkReadings {
    NetworkReadings {
        ap_ip: None,
        ap_ssid: None,
        ap_state: None,
        ap_traffic: None,
        wlan_ip: None,
        wlan_rssi: None,
        wlan_scan: None,
        wlan_ssid: None,
        wlan_state: None,
        wlan_status: None,
        wlan_traffic: None,
    }
}

fn no_detail_readings() -> NetworkDetailReadings {
    NetworkDetailReadings {
        wlan_ip: None,
        wlan_list: None,
        saved_aps: None,
        wlan_rssi: None,
        wlan_scan: None,
        wlan_ssid: None,
        wlan_state: None,
        wlan_status: None,
        wlan_traffic: None,
    }
}

fn expect_flash(flash: Flash, name: &str, url: &str, msg: &str) {
    assert_eq!(flash.status(), Status::SeeOther);
    assert_eq!(flash.content_type(), None);
    assert_eq!(flash.name, name);
    assert_eq!(flash.url, url);
    assert_eq!(flash.msg, msg);
    assert_eq!(flash.ssid, None);
}

#[test]
fn network_detail_html() {
    let routed = route(Method::Get, "/network/wifi?ssid=Home");
    assert_eq!(routed.route, Route::NetworkDetail);
    let response = routes::network_detail(no_detail_readings(), &routed.ssid.unwrap(), None);
    assert_eq!(response.status(), Status::OK);
    assert_eq!(response.content_type(), Some(ContentType::HTML));
    assert_eq!(response.name, "network_detail");
    assert_eq!(response.context.selected.as_deref(), Some("Home"));
    assert_eq!(response.context.back.as_deref(), Some("/network/wifi"));
    assert_eq!(response.context.title.as_deref(), Some("WiFi Network"));
    assert_eq!(response.context.wlan_ip, "x.x.x.x");
    assert_eq!(response.context.wlan_ssid, "Not connected");
    assert_eq!(response.context.wlan_state, "Interface unavailable");
    assert_eq!(response.context.wlan_status, "Interface unavailable");
    assert!(response.context.saved_aps.is_empty());
    assert!(response.context.wlan_networks.entries().is_empty());
}

// what the body of a page shows of its context: the title
fn shows<C>(page: &Template<C>, title: &Option<String>, text: &str) -> bool {
    page.status() == Status::OK && title.as_deref().map_or(false, |title| title.contains(text))
}

#[test]
fn help_html() {
    assert_eq!(route(Method::Get, "/help").route, Route::Help);
    let response = routes::help(None);
    assert_eq!(response.status(), Status::OK);
    assert_eq!(response.content_type(), Some(ContentType::HTML));
    assert!(shows(&response, &response.context.title, "Help"));
}

#[test]
fn login_html() {
    assert_eq!(route(Method::Get, "/login").route, Route::Login);
    let response = routes::login(None);
    assert_eq!(response.status(), Status::OK);
    assert_eq!(response.content_type(), Some(ContentType::HTML));
    assert!(shows(&response, &response.context.title, "Login"));
}

#[test]
fn messages_html() {
    assert_eq!(route(Method::Get, "/messages").route, Route::Messages);
    let response = routes::messages(None);
    assert_eq!(response.status(), Status::OK);
    assert_eq!(response.content_type(), Some(ContentType::HTML));
    assert!(shows(&response, &response.context.title, "Private Messages"));
}

#[test]
fn peers_html() {
    assert_eq!(route(Method::Get, "/peers").route, Route::Peers);
    let response = routes::peers(None);
    assert_eq!(response.status(), Status::OK);
    assert_eq!(response.content_type(), Some(ContentType::HTML));
    assert!(shows(&response, &response.context.title, "Scuttlebutt Peers"));
}

#[test]
fn profile_html() {
    assert_eq!(route(Method::Get, "/profile").route, Route::Profile);
    let response = routes::profile(None);
    assert_eq!(response.status(), Status::OK);
    assert_eq!(response.content_type(), Some(ContentType::HTML));
    assert!(shows(&response, &response.context.title, "Profile"));
}

#[test]
fn shutdown_html() {
    assert_eq!(route(Method::Get, "/shutdown").route, Route::ShutdownMenu);
    let response = routes::shutdown_menu(None);
    assert_eq!(response.status(), Status::OK);
    assert_eq!(response.content_type(), Some(ContentType::HTML));
    assert!(shows(&response, &response.context.title, "Shutdown Device"));
}

// runs the steps of the form submission, with the outcome of each call given
fn run_add_credentials(
    saved_ap: Answer<bool>,
    added: Answer<String>,
    reconfigured: Answer<String>,
) -> (Vec<AddCredentialsCall>, Template<NetworkAddContext>) {
    let mut progress = AddCredentialsProgress {
        saved_ap: Answer::Pending,
        added: Answer::Pending,
        reconfigured: Answer::Pending,
    };
    let mut calls = Vec::new();
    loop {
        match routes::add_credentials(&wifi(), &progress) {
            Step::Call(call) => {
                match &call {
                    AddCredentialsCall::SavedAp { .. } => progress.saved_ap = saved_ap.clone(),
                    AddCredentialsCall::Add { .. } => progress.added = added.clone(),
                    AddCredentialsCall::Reconfigure => progress.reconfigured = reconfigured.clone(),
                }
                calls.push(call);
            }
            Step::Done(page) => return (calls, page),
        }
    }
}

#[test]
fn add_credentials() {
    // ssid=Home&pass=Password
    assert_eq!(route(Method::Post, "/network/wifi/add").route, Route::AddCredentials);
    let (calls, response) = run_add_credentials(Answer::Failed, Answer::Failed, Answer::Failed);
    assert_eq!(response.status(), Status::OK);
    assert_eq!(response.content_type(), Some(ContentType::HTML));
    assert_eq!(
        calls,
        vec![
            AddCredentialsCall::SavedAp { ssid: "Home".to_string() },
            AddCredentialsCall::Add { ssid: "Home".to_string(), pass: "Password".to_string() },
        ]
    );
    assert_eq!(response.name, "network_add");
    assert_eq!(response.context.flash_name.as_deref(), Some("error"));
    assert_eq!(response.context.flash_msg.as_deref(), Some("Failed to add WiFi credentials"));
    assert_eq!(response.context.back.as_deref(), Some("/network"));
    assert_eq!(response.context.title.as_deref(), Some("Add WiFi Network"));
    assert_eq!(response.context.selected, None);
}

#[test]
fn add_credentials_stops_where_credentials_exist() {
    let (calls, response) =
        run_add_credentials(Answer::Given(true), Answer::Given("".to_string()), Answer::Failed);
    assert_eq!(calls, vec![AddCredentialsCall::SavedAp { ssid: "Home".to_string() }]);
    assert_eq!(response.context.flash_name.as_deref(), Some("error"));
    assert_eq!(
        response.context.flash_msg.as_deref(),
        Some("Network credentials already exist for this access point")
    );
}

#[test]
fn add_credentials_reconfigures_after_adding() {
    for reconfigured in [Answer::Failed, Answer::Given("".to_string())] {
        let (calls, response) =
            run_add_credentials(Answer::Given(false), Answer::Given("".to_string()), reconfigured);
        assert_eq!(
            calls,
            vec![
                AddCredentialsCall::SavedAp { ssid: "Home".to_string() },
                AddCredentialsCall::Add { ssid: "Home".to_string(), pass: "Password".to_string() },
                AddCredentialsCall::Reconfigure,
            ]
        );
        assert_eq!(response.context.flash_name.as_deref(), Some("success"));
        assert_eq!(response.context.flash_msg.as_deref(), Some("Added WiFi credentials"));
    }
}

#[test]
fn forget_wifi() {
    // ssid=Home
    assert_eq!(route(Method::Post, "/network/wifi/forget").route, Route::ForgetWifi);
    let response = routes::forget_wifi(&home(), unavailable());
    assert_eq!(response.status(), Status::SeeOther);
    assert_eq!(response.content_type(), None);
    expect_flash(response, "error", "/network", "Failed to remove WiFi credentials");
}

#[test]
fn modify_password() {
    // ssid=Home&pass=Password
    assert_eq!(route(Method::Post, "/network/wifi/modify").route, Route::WifiSetPassword);
    let response = routes::wifi_set_password(&wifi(), unavailable());
    assert_eq!(response.status(), Status::SeeOther);
    assert_eq!(response.content_type(), None);
    assert_eq!(response.name, "error");
    assert_eq!(response.msg, "Failed to update WiFi password");
    assert_eq!(response.url, "/network/wifi");
    assert_eq!(response.ssid.as_deref(), Some("Home"));
}

#[test]
fn deploy_ap() {
    assert_eq!(route(Method::Get, "/network/ap/activate").route, Route::DeployAp);
    let response = routes::deploy_ap(unavailable());
    // check for 303 status (redirect)
    assert_eq!(response.status(), Status::SeeOther);
    assert_eq!(response.content_type(), None);
    expect_flash(response, "error", "/network", "Failed to activate WiFi access point");
}

#[test]
fn deploy_client() {
    assert_eq!(route(Method::Get, "/network/wifi/activate").route, Route::DeployClient);
    let response = routes::deploy_client(unavailable());
    // check for 303 status (redirect)
    assert_eq!(response.status(), Status::SeeOther);
    assert_eq!(response.content_type(), None);
    expect_flash(response, "error", "/network", "Failed to activate WiFi client");
}

#[test]
fn actions_redirect_with_a_flash_message() {
    let done: Result<String, ()> = Ok("".to_string());
    expect_flash(routes::reboot_cmd(done.clone()), "success", "/shutdown", "Rebooting the device");
    expect_flash(routes::reboot_cmd(unavailable()), "error", "/shutdown", "Failed to reboot the device");
    expect_flash(routes::shutdown_cmd(done.clone()), "success", "/shutdown", "Shutting down the device");
    expect_flash(routes::shutdown_cmd(unavailable()), "error", "/shutdown", "Failed to shutdown the device");
    expect_flash(routes::logout(), "success", "/", "Logged out");
    expect_flash(routes::deploy_ap(done.clone()), "success", "/network", "Activated WiFi access point");
    expect_flash(routes::deploy_client(done.clone()), "success", "/network", "Activated WiFi client");
    expect_flash(
        routes::wifi_usage_alerts(done.clone()),
        "success",
        "/network/wifi/usage",
        "Updated alert thresholds and flags",
    );
    expect_flash(
        routes::wifi_usage_alerts(unavailable()),
        "error",
        "/network/wifi/usage",
        "Failed to update alert thresholds and flags",
    );
    expect_flash(
        routes::wifi_usage_reset(done.clone()),
        "success",
        "/network/wifi/usage",
        "Reset stored network traffic total",
    );
    expect_flash(
        routes::wifi_usage_reset(unavailable()),
        "error",
        "/network/wifi/usage",
        "Failed to reset stored network traffic total",
    );
    expect_flash(
        routes::add_admin_post(done.clone()),
        "success",
        "/settings/configure_admin",
        "Successfully added new admin",
    );
    expect_flash(
        routes::add_admin_post(unavailable()),
        "error",
        "/settings/configure_admin",
        "Failed to add new admin",
    );
    expect_flash(
        routes::delete_admin_post(done.clone()),
        "success",
        "/settings/configure_admin",
        "Successfully removed admin id",
    );
    expect_flash(
        routes::delete_admin_post(unavailable()),
        "error",
        "/settings/configure_admin",
        "Failed to remove admin id",
    );
    expect_flash(
        routes::disconnect_wifi(&home(), done.clone()),
        "success",
        "/network",
        "Disconnected from WiFi network",
    );
    expect_flash(
        routes::disconnect_wifi(&home(), unavailable()),
        "error",
        "/network",
        "Failed to disconnect from WiFi network",
    );
    expect_flash(routes::forget_wifi(&home(), done), "success", "/network", "WiFi credentials removed");
}

#[test]
fn connect_wifi_redirects_to_the_network() {
    let mut progress = ConnectProgress { id: Answer::Pending, connected: Answer::Pending };
    match routes::connect_wifi(&home(), &progress) {
        Step::Call(call) => {
            assert_eq!(call, ConnectCall::Id { iface: "wlan0".to_string(), ssid: "Home".to_string() })
        }
        Step::Done(flash) => panic!("{:?}", flash),
    }
    progress.id = Answer::Failed;
    match routes::connect_wifi(&home(), &progress) {
        Step::Done(flash) => {
            assert_eq!(flash.name, "error");
            assert_eq!(flash.msg, "Failed to retrieve the network ID");
            assert_eq!(flash.url, "/network/wifi");
            assert_eq!(flash.ssid.as_deref(), Some("Home"));
        }
        Step::Call(call) => panic!("{:?}", call),
    }
    progress.id = Answer::Given("7".to_string());
    match routes::connect_wifi(&home(), &progress) {
        Step::Call(call) => {
            assert_eq!(call, ConnectCall::Connect { id: "7".to_string(), iface: "wlan0".to_string() })
        }
        Step::Done(flash) => panic!("{:?}", flash),
    }
    progress.connected = Answer::Failed;
    match routes::connect_wifi(&home(), &progress) {
        Step::Done(flash) => {
            assert_eq!(flash.name, "error");
            assert_eq!(flash.msg, "Failed to connect to chosen network");
        }
        Step::Call(call) => panic!("{:?}", call),
    }
    progress.connected = Answer::Given("".to_string());
    match routes::connect_wifi(&home(), &progress) {
        Step::Done(flash) => {
            assert_eq!(flash.name, "success");
            assert_eq!(flash.msg, "Connected to chosen network");
            assert_eq!(flash.ssid.as_deref(), Some("Home"));
        }
        Step::Call(call) => panic!("{:?}", call),
    }
}

#[test]
fn pages_show_the_flash_message_of_the_request() {
    let page = routes::help(flash("success", "Logged out"));
    assert_eq!(page.name, "help");
    assert_eq!(page.context.back.as_deref(), Some("/"));
    assert_eq!(page.context.title.as_deref(), Some("Help"));
    assert_eq!(page.context.flash_name.as_deref(), Some("success"));
    assert_eq!(page.context.flash_msg.as_deref(), Some("Logged out"));

    let page = routes::help(None);
    assert_eq!(page.context.flash_name, None);
    assert_eq!(page.context.flash_msg, None);

    let page = routes::index();
    assert_eq!(page.name, "index");
    assert_eq!(page.context.title, None);

    let page = routes::change_password(None);
    assert_eq!(page.name, "password/change_password");
    assert_eq!(page.context.back.as_deref(), Some("/network"));
    let page = routes::reset_password(None);
    assert_eq!(page.name, "password/reset_password");
    let page = routes::send_password_reset_page(None);
    assert_eq!(page.name, "password/send_password_reset");
    assert_eq!(page.context.title.as_deref(), Some("Send Password Reset"));
    let page = routes::configure_admin(None);
    assert_eq!(page.name, "admin/configure_admin");
    let page = routes::add_admin(None);
    assert_eq!(page.name, "admin/add_admin");
    assert_eq!(page.context.back.as_deref(), Some("/settings/configure_admin"));
}

#[test]
fn network_pages_show_placeholders_where_the_service_is_silent() {
    let page = routes::network_home(no_network_readings(), None);
    assert_eq!(page.name, "network_card");
    assert_eq!(page.context.title.as_deref(), Some("Network Configuration"));
    assert_eq!(page.context.ap_ip, "x.x.x.x");
    assert_eq!(page.context.ap_ssid, "Not currently activated");
    assert_eq!(page.context.ap_state, "Interface unavailable");
    assert_eq!(page.context.ap_traffic, None);
    assert_eq!(page.context.wlan_ip, "x.x.x.x");
    assert_eq!(page.context.wlan_rssi, None);
    assert_eq!(page.context.wlan_scan, None);
    assert_eq!(page.context.wlan_ssid, "Not connected");
    assert_eq!(page.context.wlan_state, "Interface unavailable");
    assert_eq!(page.context.wlan_status, "Interface unavailable");
    assert_eq!(page.context.wlan_traffic, None);

    let page = routes::network_add_wifi(no_network_readings(), None);
    assert_eq!(page.name, "network_add");
    assert_eq!(page.context.back.as_deref(), Some("/network"));
    assert_eq!(page.context.title.as_deref(), Some("Add WiFi Network"));

    let readings = NetworkListReadings { wlan_list: None, wlan_scan: None, wlan_ssid: None, ap_state: None };
    let page = routes::wifi_list(readings, None);
    assert_eq!(page.name, "network_list");
    assert_eq!(page.context.title.as_deref(), Some("WiFi Networks"));
    assert_eq!(page.context.ap_state, "Interface unavailable");
    assert_eq!(page.context.wlan_ssid, "Not connected");
    assert!(page.context.wlan_networks.entries().is_empty());
}

#[test]
fn network_page_scales_the_traffic() {
    let mut readings = no_network_readings();
    readings.ap_ip = Some("11.11.11.10".to_string());
    readings.ap_traffic =
        Some(Traffic { received: 5_368_709_120, transmitted: 0, rx_unit: None, tx_unit: None });
    readings.wlan_traffic = Some(Traffic {
        received: 1_047_527_424,
        transmitted: 1_047_527_425,
        rx_unit: None,
        tx_unit: None,
    });
    let page = routes::network_home(readings, None);
    assert_eq!(page.context.ap_ip, "11.11.11.10");
    assert_eq!(
        page.context.ap_traffic,
        Some(Traffic {
            received: 5,
            transmitted: 0,
            rx_unit: Some("GB".to_string()),
            tx_unit: Some("MB".to_string()),
        })
    );
    assert_eq!(
        page.context.wlan_traffic,
        Some(Traffic {
            received: 999,
            transmitted: 0,
            rx_unit: Some("MB".to_string()),
            tx_unit: Some("GB".to_string()),
        })
    );
}

fn scan(ssid: &str, signal_level: &str) -> Scan {
    Scan {
        protocol: "[WPA2-PSK-CCMP][ESS]".to_string(),
        frequency: "2412".to_string(),
        signal_level: signal_level.to_string(),
        ssid: ssid.to_string(),
    }
}

#[test]
fn network_detail_lists_networks_in_range_and_saved() {
    let mut readings = no_detail_readings();
    readings.wlan_scan = Some(vec![scan("Home", "-70"), scan("Cafe", "-50"), scan("Home", "-60")]);
    readings.wlan_list =
        Some(vec![Networks { ssid: "Cafe".to_string() }, Networks { ssid: "Office".to_string() }]);
    readings.saved_aps = Some(vec![Networks { ssid: "Cafe".to_string() }]);
    assert!(is_measurable(readings.wlan_scan.as_ref().unwrap()));
    let page = routes::network_detail(readings, "Caf%C3%A9%20du%20coin", None);
    assert_eq!(page.context.selected.as_deref(), Some("Café du coin"));
    assert_eq!(page.context.saved_aps, vec![Networks { ssid: "Cafe".to_string() }]);
    let networks = &page.context.wlan_networks;
    let names: Vec<&str> = networks.entries().iter().map(|entry| entry.0.as_str()).collect();
    assert_eq!(names, vec!["Home", "Cafe", "Office"]);
    let home = networks.get("Home").unwrap();
    assert_eq!(home.detail, Some(scan("Home", "-60")));
    assert_eq!(home.signal, Some(80));
    assert_eq!(home.state, "Available");
    let cafe = networks.get("Cafe").unwrap();
    assert_eq!(cafe.signal, Some(100));
    assert_eq!(cafe.state, "Available");
    let office = networks.get("Office").unwrap();
    assert_eq!(office.detail, None);
    assert_eq!(office.signal, None);
    assert_eq!(office.state, "Not in range");
    assert!(networks.contains_key("Office"));
    assert!(!networks.contains_key("Elsewhere"));
    assert!(networks.get("Elsewhere").is_none());
}

#[test]
fn wifi_list_shows_the_state_of_each_network() {
    let readings = NetworkListReadings {
        wlan_list: Some(vec![Networks { ssid: "Cafe".to_string() }, Networks { ssid: "Office".to_string() }]),
        wlan_scan: Some(vec![Networks { ssid: "Home".to_string() }, Networks { ssid: "Cafe".to_string() }]),
        wlan_ssid: Some("Home".to_string()),
        ap_state: Some("down".to_string()),
    };
    let page = routes::wifi_list(readings, None);
    assert_eq!(page.context.wlan_ssid, "Home");
    assert_eq!(page.context.ap_state, "down");
    assert_eq!(
        page.context.wlan_networks.entries(),
        &vec![
            ("Home".to_string(), "Available".to_string()),
            ("Cafe".to_string(), "Available".to_string()),
            ("Office".to_string(), "Not in range".to_string()),
        ]
    );
}

#[test]
fn signal_quality_is_twice_the_level_plus_100() {
    assert_eq!(quality_percent("-50"), Some(100));
    assert_eq!(quality_percent("-100"), Some(0));
    assert_eq!(quality_percent("-72"), Some(56));
    assert_eq!(quality_percent("+3"), Some(206));
    assert_eq!(quality_percent("1073741723"), Some(i32::MAX - 1));
    assert_eq!(quality_percent("1073741724"), None);
    assert_eq!(quality_percent("-1073741924"), Some(i32::MIN));
    assert_eq!(quality_percent("-1073741925"), None);
    assert_eq!(quality_percent("strong"), None);
    assert_eq!(quality_percent(""), None);
    assert!(!is_measurable(&vec![scan("Home", "-60"), scan("Cafe", "n/a")]));
}

#[test]
fn totals_that_do_not_fit_are_told() {
    let traffic = |received, transmitted| Traffic { received, transmitted, rx_unit: None, tx_unit: None };
    assert_eq!(traffic(1, 2).checked_session(), Some(3));
    assert_eq!(traffic(u64::MAX, 0).checked_session(), Some(u64::MAX));
    assert_eq!(traffic(u64::MAX, 1).checked_session(), None);
    assert!(NetworkAlertContext::fits(&Data { total: u64::MAX }, &None));
    assert!(NetworkAlertContext::fits(&Data { total: u64::MAX - 3 }, &Some(traffic(1, 2))));
    assert!(!NetworkAlertContext::fits(&Data { total: u64::MAX - 2 }, &Some(traffic(1, 2))));
    assert!(!NetworkAlertContext::fits(&Data { total: 0 }, &Some(traffic(u64::MAX, 1))));
}

#[test]
fn usage_page_adds_the_session_to_the_stored_total() {
    let alert = Alert { warn: true, cut: false };
    let threshold = Threshold { warn: 5, cut: 10, warn_flag: true, cut_flag: true };
    let traffic = Traffic { received: 300, transmitted: 45, rx_unit: None, tx_unit: None };
    let page =
        routes::wifi_usage(alert, Data { total: 1_000 }, threshold, Some(traffic.clone()), None);
    assert_eq!(page.name, "network_usage");
    assert_eq!(page.context.back.as_deref(), Some("/network"));
    assert_eq!(page.context.title.as_deref(), Some("Network Data Usage"));
    assert_eq!(page.context.alert, alert);
    assert_eq!(page.context.threshold, threshold);
    assert_eq!(page.context.data_total, Data { total: 1_345 });
    assert_eq!(page.context.traffic, traffic);

    let page = routes::wifi_usage(alert, Data { total: 1_000 }, threshold, None, None);
    assert_eq!(page.context.data_total, Data { total: 1_000 });
    assert_eq!(
        page.context.traffic,
        Traffic { received: 0, transmitted: 0, rx_unit: None, tx_unit: None }
    );
}

fn config(dyn_domain: &str) -> PeachConfig {
    PeachConfig {
        external_domain: "peach.example.org".to_string(),
        dyn_domain: dyn_domain.to_string(),
        dyn_enabled: true,
    }
}

#[test]
fn dns_page_shows_the_subdomain() {
    let page = routes::configure_dns(config("blue.dyn.peachcloud.org"), true, None);
    assert_eq!(page.name, "configure_dns");
    assert_eq!(page.context.external_domain, "peach.example.org");
    assert_eq!(page.context.dyndns_subdomain, "blue");
    assert!(page.context.enable_dyndns);
    assert!(page.context.is_dyndns_online);
    assert_eq!(page.context.back.as_deref(), Some("/network"));
    assert_eq!(page.context.title.as_deref(), Some("Configure DNS"));

    let page = routes::configure_dns(config("elsewhere.example.org"), false, None);
    assert_eq!(page.context.dyndns_subdomain, "elsewhere.example.org");
    assert!(!page.context.is_dyndns_online);
}

#[test]
fn dns_form_submission_reports_what_came_of_saving() {
    let page = routes::configure_dns_post(Ok(()), config("blue.dyn.peachcloud.org"), true);
    assert_eq!(page.context.flash_name.as_deref(), Some("success"));
    assert_eq!(
        page.context.flash_msg.as_deref(),
        Some("New dynamic dns configuration is now enabled")
    );
    let error = PeachWebError::FailedToRegisterDynDomain {
        msg: "Error registering domain: blue.dyn.peachcloud.org was previously registered".to_string(),
    };
    let page = routes::configure_dns_post(Err(error), config("blue.dyn.peachcloud.org"), true);
    assert_eq!(page.name, "configure_dns");
    assert_eq!(page.context.flash_name.as_deref(), Some("error"));
    assert_eq!(
        page.context.flash_msg.as_deref(),
        Some("Failed to save dns configurations: Error registering domain: blue.dyn.peachcloud.org was previously registered")
    );
    assert_eq!(page.context.dyndns_subdomain, "blue");
}

#[test]
fn password_pages_report_what_came_of_saving() {
    let failed = || Err(PeachWebError::from_peach_lib("Passwords do not match".to_string()));
    let page = routes::change_password_post(Ok(()));
    assert_eq!(page.name, "password/change_password");
    assert_eq!(page.context.title.as_deref(), Some("Change Password"));
    assert_eq!(page.context.flash_name.as_deref(), Some("success"));
    assert_eq!(page.context.flash_msg.as_deref(), Some("New password is now saved"));
    let page = routes::change_password_post(failed());
    assert_eq!(page.context.title.as_deref(), Some("Configure DNS"));
    assert_eq!(page.context.flash_name.as_deref(), Some("error"));
    assert_eq!(
        page.context.flash_msg.as_deref(),
        Some("Failed to save new password: Passwords do not match: ")
    );

    let page = routes::reset_password_post(Ok(()));
    assert_eq!(page.name, "password/reset_password");
    assert_eq!(page.context.back.as_deref(), Some("/"));
    assert_eq!(
        page.context.flash_msg.as_deref(),
        Some("New password is now saved. Return home to login")
    );
    let page = routes::reset_password_post(failed());
    assert_eq!(
        page.context.flash_msg.as_deref(),
        Some("Failed to reset password: Passwords do not match: ")
    );

    let page = routes::send_password_reset_post(Ok(()));
    assert_eq!(page.name, "password/send_password_reset");
    assert_eq!(
        page.context.flash_msg.as_deref(),
        Some("A password reset link has been sent to the admin of this device")
    );
    let failure = Failure { display: "sbot is not running".to_string(), kind: FailureKind::Other };
    let page = routes::send_password_reset_post(Err(failure));
    assert_eq!(page.context.flash_name.as_deref(), Some("error"));
    assert_eq!(
        page.context.flash_msg.as_deref(),
        Some("Failed to send password reset link: sbot is not running")
    );
}

#[test]
fn forms_with_an_ssid_decode_it() {
    let page = routes::network_add_ssid("Home", None);
    assert_eq!(page.name, "network_add");
    assert_eq!(page.context.back.as_deref(), Some("/network/wifi"));
    assert_eq!(page.context.title.as_deref(), Some("Add WiFi Network"));
    assert_eq!(page.context.selected.as_deref(), Some("Home"));

    let page = routes::wifi_password("My%20Net%21", flash("error", "Failed to update WiFi password"));
    assert_eq!(page.name, "network_modify");
    assert_eq!(page.context.title.as_deref(), Some("Update WiFi Password"));
    assert_eq!(page.context.selected.as_deref(), Some("My Net!"));
    assert_eq!(page.context.flash_name.as_deref(), Some("error"));
}

#[test]
fn error_pages() {
    let page = routes::not_found();
    assert_eq!(page.name, "not_found");
    assert_eq!(page.context.title.as_deref(), Some("404: Page Not Found"));
    let page = routes::internal_error();
    assert_eq!(page.name, "internal_error");
    assert_eq!(page.context.back.as_deref(), Some("/"));
    assert_eq!(page.context.title.as_deref(), Some("500: Internal Server Error"));
    assert_eq!(page.context.flash_name.as_deref(), Some("error"));
    assert_eq!(page.context.flash_msg.as_deref(), Some("Internal server error"));
}

fn disk(mountpoint: &str, used_percentage: u32) -> DiskUsage {
    DiskUsage {
        filesystem: Some("/dev/mmcblk0p2".to_string()),
        one_k_blocks: 30_000_000,
        one_k_blocks_used: 10_000_000,
        one_k_blocks_free: 20_000_000,
        used_percentage,
        mountpoint: mountpoint.to_string(),
    }
}

#[test]
fn device_page_states_the_readings() {
    let readings = DeviceReadings {
        cpu_stat_percent: Some((12.5f32, 3.0f32)),
        load_average: None::<f32>,
        mem_stats: Some(MemStat { total: 1_000, free: 400, used: 600 }),
        network_ping: Some("pong".to_string()),
        oled_ping: None,
        stats_ping: Some("pong".to_string()),
        uptime: Some("187".to_string()),
        disk_usage: Some(vec![disk("/boot", 20), disk("/", 34), disk("/home", 50), disk("/", 35)]),
        peach_config: Some(config("blue.dyn.peachcloud.org")),
        dns_updater_online: Some(true),
        sbot_online: Some(true),
    };
    let page = routes::device_stats(readings, None);
    assert_eq!(page.name, "device");
    assert_eq!(page.context.back.as_deref(), Some("/"));
    assert_eq!(page.context.title.as_deref(), Some("Device Status"));
    assert_eq!(page.context.cpu_stat_percent, Some((12.5f32, 3.0f32)));
    assert_eq!(page.context.load_average, None);
    assert_eq!(page.context.mem_stats, Some(MemStat { total: 1_000, free: 400, used: 600 }));
    assert_eq!(page.context.network_ping, "ONLINE");
    assert_eq!(page.context.oled_ping, "OFFLINE");
    assert_eq!(page.context.stats_ping, "ONLINE");
    assert_eq!(page.context.uptime, Some(187));
    assert_eq!(page.context.disk_stats, vec![disk("/", 34), disk("/", 35)]);
    assert!(page.context.config_is_valid);
    assert!(page.context.dyndns_enabled);
    assert!(page.context.dyndns_is_online);
    assert!(page.context.sbot_is_online);
}

#[test]
fn device_page_of_a_silent_device() {
    let readings: DeviceReadings<(), ()> = DeviceReadings {
        cpu_stat_percent: None,
        load_average: None,
        mem_stats: None,
        network_ping: None,
        oled_ping: None,
        stats_ping: None,
        uptime: None,
        disk_usage: None,
        peach_config: None,
        dns_updater_online: Some(true),
        sbot_online: None,
    };
    let page = routes::device_stats(readings, None);
    assert_eq!(page.context.network_ping, "OFFLINE");
    assert_eq!(page.context.oled_ping, "OFFLINE");
    assert_eq!(page.context.stats_ping, "OFFLINE");
    assert_eq!(page.context.uptime, None);
    assert!(page.context.disk_stats.is_empty());
    assert!(!page.context.config_is_valid);
    assert!(!page.context.dyndns_enabled);
    assert!(!page.context.dyndns_is_online);
    assert!(!page.context.sbot_is_online);
}

#[test]
fn dns_updater_counts_only_where_dynamic_dns_is_enabled() {
    let mut disabled = config("blue.dyn.peachcloud.org");
    disabled.dyn_enabled = false;
    let readings: DeviceReadings<(), ()> = DeviceReadings {
        cpu_stat_percent: None,
        load_average: None,
        mem_stats: None,
        network_ping: None,
        oled_ping: Some(()),
        stats_ping: None,
        uptime: Some("Unavailable".to_string()),
        disk_usage: None,
        peach_config: Some(disabled),
        dns_updater_online: Some(true),
        sbot_online: Some(false),
    };
    let page = routes::device_stats(readings, None);
    assert_eq!(page.context.oled_ping, "ONLINE");
    assert_eq!(page.context.uptime, None);
    assert!(page.context.config_is_valid);
    assert!(!page.context.dyndns_enabled);
    assert!(!page.context.dyndns_is_online);
    assert!(!page.context.sbot_is_online);
}
