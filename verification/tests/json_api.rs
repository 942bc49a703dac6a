use peach_web::forms::{Ssid, WiFi};
use peach_web::json_api::{
    self, build_json_response, connect_ap, disconnect_ap, forget_ap, ping_network, ping_oled,
    ping_stats, reboot_device, reset_data_total, shutdown_device, update_wifi_alerts,
    AddWifiCall, AddWifiProgress, JsonResponse, JsonValue, ResetCall, ResetProgress,
};
use peach_web::network_client::{ConnectCall, ConnectProgress};
use peach_web::response::{Answer, ContentType, Status, Step};
use peach_web::router::{route, Method, Route};
use peach_web::stats_client::Traffic;

// what the body of a response shows as text: status, message, and data
fn body_string(response: &JsonResponse) -> String {
    let mut body = format!("status: {}", response.status);
    match &response.data {
        Some(JsonValue::Text(text)) => body.push_str(&format!(" data: {}", text)),
        Some(JsonValue::Number(number)) => body.push_str(&format!(" data: {}", number)),
        Some(JsonValue::Object(members)) => {
            for (key, value) in members {
                body.push_str(&format!(" {}: {}", key, value));
            }
        }
        None => {}
    }
    if let Some(msg) = &response.msg {
        body.push_str(&format!(" msg: {}", msg));
    }
    body
}

// every call to a microservice fails in these tests, as it does where
// none is running
fn unavailable() -> Result<String, ()> {
    Err(())
}

fn wifi() -> WiFi {
    WiFi { ssid: "Home".to_string(), pass: "Password".to_string() }
}

#[test]
fn activate_ap() {
    assert_eq!(route(Method::Post, "/api/v1/network/activate_ap").route, Route::ActivateAp);
    let response = json_api::activate_ap(unavailable());
    assert_eq!(response.status(), Status::OK);
    assert_eq!(response.content_type(), Some(ContentType::JSON));
}

#[test]
fn activate_client() {
    assert_eq!(route(Method::Post, "/api/v1/network/activate_client").route, Route::ActivateClient);
    let response = json_api::activate_client(unavailable());
    assert_eq!(response.status(), Status::OK);
    assert_eq!(response.content_type(), Some(ContentType::JSON));
}

#[test]
fn return_ip() {
    assert_eq!(route(Method::Get, "/api/v1/network/ip").route, Route::ReturnIp);
    let response = json_api::return_ip(unavailable().ok(), unavailable().ok());
    assert_eq!(response.status(), Status::OK);
    assert_eq!(response.content_type(), Some(ContentType::JSON));
    let body = body_string(&response);
    assert!(body.contains("wlan0"));
    assert!(body.contains("ap0"));
}

#[test]
fn return_rssi() {
    assert_eq!(route(Method::Get, "/api/v1/network/rssi").route, Route::ReturnRssi);
    let response = json_api::return_rssi(unavailable().ok());
    assert_eq!(response.status(), Status::OK);
    assert_eq!(response.content_type(), Some(ContentType::JSON));
    let body = body_string(&response);
    assert!(body.contains("Not currently connected to an access point."));
}

#[test]
fn return_ssid() {
    assert_eq!(route(Method::Get, "/api/v1/network/ssid").route, Route::ReturnSsid);
    let response = json_api::return_ssid(unavailable().ok());
    assert_eq!(response.status(), Status::OK);
    assert_eq!(response.content_type(), Some(ContentType::JSON));
    let body = body_string(&response);
    assert!(body.contains("Not currently connected to an access point."));
}

#[test]
fn return_state() {
    assert_eq!(route(Method::Get, "/api/v1/network/state").route, Route::ReturnState);
    let response = json_api::return_state(unavailable().ok(), unavailable().ok());
    assert_eq!(response.status(), Status::OK);
    assert_eq!(response.content_type(), Some(ContentType::JSON));
    let body = body_string(&response);
    assert!(body.contains("ap0"));
    assert!(body.contains("wlan0"));
    assert!(body.contains("unavailable"));
}

#[test]
fn return_status() {
    assert_eq!(route(Method::Get, "/api/v1/network/status").route, Route::ReturnStatus);
    let response = json_api::return_status(unavailable().ok());
    assert_eq!(response.status(), Status::OK);
    assert_eq!(response.content_type(), Some(ContentType::JSON));
    let body = body_string(&response);
    assert!(body.contains("Not currently connected to an access point."));
}

#[test]
fn scan_networks() {
    assert_eq!(route(Method::Get, "/api/v1/network/wifi").route, Route::ScanNetworks);
    let response = json_api::scan_networks(unavailable().ok());
    assert_eq!(response.status(), Status::OK);
    assert_eq!(response.content_type(), Some(ContentType::JSON));
    let body = body_string(&response);
    assert!(body.contains("Unable to scan for networks. Interface may be deactivated."));
}

// runs the steps of adding credentials, with the outcome of each call given
fn run_add_wifi(added: Answer<String>, reconfigured: Answer<String>) -> (Vec<AddWifiCall>, JsonResponse) {
    let mut progress = AddWifiProgress { added: Answer::Pending, reconfigured: Answer::Pending };
    let mut calls = Vec::new();
    loop {
        match json_api::add_wifi(&wifi(), &progress) {
            Step::Call(call) => {
                match &call {
                    AddWifiCall::Add { .. } => progress.added = added.clone(),
                    AddWifiCall::Reconfigure => progress.reconfigured = reconfigured.clone(),
                }
                calls.push(call);
            }
            Step::Done(response) => return (calls, response),
        }
    }
}

#[test]
fn add_wifi() {
    assert_eq!(route(Method::Post, "/api/v1/network/wifi").route, Route::AddWifi);
    let (calls, response) = run_add_wifi(Answer::Failed, Answer::Failed);
    assert_eq!(
        calls,
        vec![AddWifiCall::Add { ssid: "Home".to_string(), pass: "Password".to_string() }]
    );
    assert_eq!(response.status(), Status::OK);
    assert_eq!(response.content_type(), Some(ContentType::JSON));
    let body = body_string(&response);
    assert!(body.contains("Failed to add WiFi credentials."));
}

#[test]
fn add_wifi_reconfigures_after_adding() {
    for reconfigured in [Answer::Failed, Answer::Given("".to_string())] {
        let (calls, response) = run_add_wifi(Answer::Given("".to_string()), reconfigured);
        assert_eq!(
            calls,
            vec![
                AddWifiCall::Add { ssid: "Home".to_string(), pass: "Password".to_string() },
                AddWifiCall::Reconfigure,
            ]
        );
        assert_eq!(response.status, "success");
        assert_eq!(response.data, None);
        assert_eq!(response.msg.as_deref(), Some("WiFi credentials added."));
    }
}

#[test]
fn remove_wifi() {
    assert_eq!(route(Method::Post, "/api/v1/network/wifi/forget").route, Route::ForgetAp);
    let response = forget_ap(&Ssid { ssid: "Home".to_string() }, unavailable());
    assert_eq!(response.status(), Status::OK);
    assert_eq!(response.content_type(), Some(ContentType::JSON));
    let body = body_string(&response);
    assert!(body.contains("Failed to remove WiFi network credentials."));
}

#[test]
fn new_password() {
    assert_eq!(route(Method::Post, "/api/v1/network/wifi/modify").route, Route::ModifyPassword);
    let response = json_api::modify_password(&wifi(), unavailable());
    assert_eq!(response.status(), Status::OK);
    assert_eq!(response.content_type(), Some(ContentType::JSON));
    let body = body_string(&response);
    assert!(body.contains("Failed to update WiFi password."));
}

#[test]
fn ping_pong() {
    assert_eq!(route(Method::Get, "/api/v1/ping").route, Route::PingPong);
    let response = json_api::ping_pong();
    assert_eq!(response.status(), Status::OK);
    assert_eq!(response.content_type(), Some(ContentType::JSON));
    let body = body_string(&response);
    assert!(body.contains("pong!"));
}

#[test]
fn test_build_json_response() {
    let status = "success".to_string();
    let data = JsonValue::Text("WiFi credentials added.".to_string());
    let json = build_json_response(status, Some(data), None);
    assert_eq!(json.status, "success");
    assert_eq!(json.data, Some(JsonValue::Text("WiFi credentials added.".to_string())));
    assert_eq!(json.msg, None);
}

fn expect(response: JsonResponse, status: &str, msg: Option<&str>) {
    assert_eq!(response.status, status);
    assert_eq!(response.data, None);
    assert_eq!(response.msg.as_deref(), msg);
}

#[test]
fn actions_report_success_and_failure() {
    let done: Result<String, ()> = Ok("".to_string());
    let ssid = Ssid { ssid: "Home".to_string() };
    expect(reboot_device(done.clone()), "success", Some("Going down for reboot."));
    expect(reboot_device(unavailable()), "error", Some("Failed to reboot the device."));
    expect(shutdown_device(done.clone()), "success", Some("Going down for shutdown."));
    expect(shutdown_device(unavailable()), "error", Some("Failed to shutdown the device."));
    expect(json_api::activate_ap(done.clone()), "success", None);
    expect(json_api::activate_ap(unavailable()), "error", Some("Failed to activate WiFi access point."));
    expect(json_api::activate_client(done.clone()), "success", None);
    expect(json_api::activate_client(unavailable()), "error", Some("Failed to activate WiFi client mode."));
    expect(disconnect_ap(&ssid, done.clone()), "success", Some("Disconnected from WiFi network."));
    expect(disconnect_ap(&ssid, unavailable()), "error", Some("Failed to disconnect from WiFi network."));
    expect(forget_ap(&ssid, done.clone()), "success", Some("WiFi network credentials removed."));
    expect(json_api::modify_password(&wifi(), done.clone()), "success", Some("WiFi password updated."));
    expect(update_wifi_alerts(done.clone()), "success", Some("Updated alert threshold and flags."));
    expect(update_wifi_alerts(unavailable()), "error", Some("Failed to update WiFi data usage thresholds."));
    expect(ping_network(done.clone()), "success", Some("peach-network is available."));
    expect(ping_network(unavailable()), "error", Some("peach-network is unavailable."));
    expect(ping_oled(done.clone()), "success", Some("peach-oled is available."));
    expect(ping_oled(unavailable()), "error", Some("peach-oled is unavailable."));
    expect(ping_stats(done), "success", Some("peach-stats is available."));
    expect(ping_stats(unavailable()), "error", Some("peach-stats is unavailable."));
}

#[test]
fn questions_answer_with_data() {
    let response = json_api::return_rssi(Some("-42".to_string()));
    assert_eq!(response.status, "success");
    assert_eq!(response.data, Some(JsonValue::Text("-42".to_string())));
    assert_eq!(response.msg, None);
    let response = json_api::return_ip(Some("192.168.0.7".to_string()), None);
    assert_eq!(
        response.data,
        Some(JsonValue::Object(vec![
            ("wlan0".to_string(), "192.168.0.7".to_string()),
            ("ap0".to_string(), "x.x.x.x".to_string()),
        ]))
    );
    assert_eq!(response.msg, None);
    let response = json_api::return_state(None, Some("up".to_string()));
    assert_eq!(
        response.data,
        Some(JsonValue::Object(vec![
            ("wlan0".to_string(), "unavailable".to_string()),
            ("ap0".to_string(), "up".to_string()),
        ]))
    );
}

fn run_connect(id: Answer<String>, connected: Answer<String>) -> (Vec<ConnectCall>, JsonResponse) {
    let ssid = Ssid { ssid: "Home".to_string() };
    let mut progress = ConnectProgress { id: Answer::Pending, connected: Answer::Pending };
    let mut calls = Vec::new();
    loop {
        match connect_ap(&ssid, &progress) {
            Step::Call(call) => {
                match &call {
                    ConnectCall::Id { .. } => progress.id = id.clone(),
                    ConnectCall::Connect { .. } => progress.connected = connected.clone(),
                }
                calls.push(call);
            }
            Step::Done(response) => return (calls, response),
        }
    }
}

#[test]
fn connecting_asks_for_the_id_first() {
    let ask = ConnectCall::Id { iface: "wlan0".to_string(), ssid: "Home".to_string() };
    let connect = ConnectCall::Connect { id: "3".to_string(), iface: "wlan0".to_string() };

    let (calls, response) = run_connect(Answer::Failed, Answer::Failed);
    assert_eq!(calls, vec![ask.clone()]);
    expect(response, "error", Some("Failed to retrieve the network ID."));

    let (calls, response) = run_connect(Answer::Given("3".to_string()), Answer::Failed);
    assert_eq!(calls, vec![ask.clone(), connect.clone()]);
    expect(response, "error", Some("Failed to connect to chosen network."));

    let (calls, response) = run_connect(Answer::Given("3".to_string()), Answer::Given("".to_string()));
    assert_eq!(calls, vec![ask, connect]);
    expect(response, "success", Some("Connected to chosen network."));
}

#[test]
fn reset_reports_the_traffic_of_the_session() {
    let pending = ResetProgress { reset: Answer::Pending, traffic: Answer::Pending };
    assert!(matches!(reset_data_total(&pending), Step::Call(ResetCall::ResetData)));

    let failed = ResetProgress { reset: Answer::Failed, traffic: Answer::Pending };
    match reset_data_total(&failed) {
        Step::Done(response) => expect(response, "error", Some("Failed to reset network data usage total.")),
        Step::Call(call) => panic!("{:?}", call),
    }

    let reset = ResetProgress { reset: Answer::Given(()), traffic: Answer::Pending };
    match reset_data_total(&reset) {
        Step::Call(call) => assert_eq!(call, ResetCall::Traffic { iface: "wlan0".to_string() }),
        Step::Done(response) => panic!("{:?}", response),
    }

    let traffic = Traffic { received: 1_500, transmitted: 700, rx_unit: None, tx_unit: None };
    let measured = ResetProgress { reset: Answer::Given(()), traffic: Answer::Given(traffic) };
    match reset_data_total(&measured) {
        Step::Done(response) => {
            assert_eq!(response.status, "success");
            assert_eq!(response.data, Some(JsonValue::Number(2_200)));
            assert_eq!(response.msg.as_deref(), Some("Reset network data usage total."));
        }
        Step::Call(call) => panic!("{:?}", call),
    }

    let unmeasured = ResetProgress { reset: Answer::Given(()), traffic: Answer::Failed };
    match reset_data_total(&unmeasured) {
        Step::Done(response) => assert_eq!(response.data, Some(JsonValue::Number(0))),
        Step::Call(call) => panic!("{:?}", call),
    }
}
