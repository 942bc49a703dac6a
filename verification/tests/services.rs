use peach_web::device;
use peach_web::network_client::{
    network_activate_ap, network_activate_client, network_add, network_available_networks,
    network_connect, network_id, network_ip, network_ping, network_reconfigure, network_rssi,
    network_rssi_percent, network_saved_networks, network_ssid, network_state, network_status,
    network_traffic,
};
use peach_web::oled_client::oled_ping;
use peach_web::rpc::{RpcRequest, Service};
use peach_web::stats_client::{
    cpu_stats_percent, disk_usage, load_average, mem_stats, stats_ping, uptime, uptime_minutes,
    Uptime,
};
use peach_web::ws::{accepts, greeting, listen_address, reply, Message};

fn request(service: Service, method: &str, params: &[&str]) -> RpcRequest {
    RpcRequest {
        service,
        method: method.to_string(),
        params: params.iter().map(|param| param.to_string()).collect(),
    }
}

#[test]
fn network_calls_name_their_method_and_parameters() {
    let network = Service::Network;
    assert_eq!(network_activate_ap(), request(network, "activate_ap", &[]));
    assert_eq!(network_activate_client(), request(network, "activate_client", &[]));
    assert_eq!(network_add("Home", "Password"), request(network, "add", &["Home", "Password"]));
    assert_eq!(
        network_available_networks("wlan0"),
        request(network, "available_networks", &["wlan0"])
    );
    assert_eq!(network_connect("3", "wlan0"), request(network, "connect", &["3", "wlan0"]));
    assert_eq!(network_id("wlan0", "Home"), request(network, "id", &["wlan0", "Home"]));
    assert_eq!(network_ip("ap0"), request(network, "ip", &["ap0"]));
    assert_eq!(network_ping(), request(network, "ping", &[]));
    assert_eq!(network_reconfigure(), request(network, "reconfigure", &[]));
    assert_eq!(network_rssi("wlan0"), request(network, "rssi", &["wlan0"]));
    assert_eq!(network_rssi_percent("wlan0"), request(network, "rssi_percent", &["wlan0"]));
    assert_eq!(network_saved_networks(), request(network, "saved_networks", &[]));
    assert_eq!(network_ssid("wlan0"), request(network, "ssid", &["wlan0"]));
    assert_eq!(network_state("ap0"), request(network, "state", &["ap0"]));
    assert_eq!(network_status("wlan0"), request(network, "status", &["wlan0"]));
    assert_eq!(network_traffic("wlan0"), request(network, "traffic", &["wlan0"]));
}

#[test]
fn stats_and_oled_calls_name_their_method() {
    assert_eq!(cpu_stats_percent(), request(Service::Stats, "cpu_stats_percent", &[]));
    assert_eq!(disk_usage(), request(Service::Stats, "disk_usage", &[]));
    assert_eq!(load_average(), request(Service::Stats, "load_average", &[]));
    assert_eq!(mem_stats(), request(Service::Stats, "mem_stats", &[]));
    assert_eq!(stats_ping(), request(Service::Stats, "ping", &[]));
    assert_eq!(uptime(), request(Service::Stats, "uptime", &[]));
    assert_eq!(oled_ping(), request(Service::Oled, "ping", &[]));
}

#[test]
fn services_have_an_address_by_default() {
    assert_eq!(Service::Network.variable(), "PEACH_NETWORK_SERVER");
    assert_eq!(Service::Oled.variable(), "PEACH_OLED_SERVER");
    assert_eq!(Service::Stats.variable(), "PEACH_STATS_SERVER");
    assert_eq!(Service::Network.http_server(None), "http://127.0.0.1:5110");
    assert_eq!(Service::Oled.http_server(None), "http://127.0.0.1:5112");
    assert_eq!(Service::Stats.http_server(None), "http://127.0.0.1:5113");
    assert_eq!(
        Service::Stats.http_server(Some("10.0.0.2:9000".to_string())),
        "http://10.0.0.2:9000"
    );
    assert_eq!(listen_address(None), "0.0.0.0:5115");
    assert_eq!(listen_address(Some("127.0.0.1:7000".to_string())), "127.0.0.1:7000");
}

#[test]
fn uptime_is_given_in_whole_minutes() {
    assert_eq!(uptime_minutes(Uptime { secs: 0, nanos: 0 }), 0);
    assert_eq!(uptime_minutes(Uptime { secs: 59, nanos: 999_999_999 }), 0);
    assert_eq!(uptime_minutes(Uptime { secs: 60, nanos: 0 }), 1);
    assert_eq!(uptime_minutes(Uptime { secs: 11_220, nanos: 5 }), 187);
    assert_eq!(uptime_minutes(Uptime { secs: u64::MAX, nanos: 0 }), u64::MAX / 60);
}

#[test]
fn device_commands() {
    let reboot = device::reboot();
    assert_eq!(reboot.program, "sudo");
    assert_eq!(reboot.args, vec!["shutdown", "-r", "now"]);
    let shutdown = device::shutdown();
    assert_eq!(shutdown.program, "sudo");
    assert_eq!(shutdown.args, vec!["shutdown", "now"]);
}

#[test]
fn websocket_server_echoes() {
    assert!(accepts(&vec!["chat".to_string(), "rust-websocket".to_string()]));
    assert!(!accepts(&vec!["chat".to_string()]));
    assert!(!accepts(&Vec::new()));
    assert_eq!(greeting(), Message::Text("Websocket successfully connected.".to_string()));
    assert_eq!(reply(Message::Close), (Message::Close, false));
    assert_eq!(reply(Message::Ping(vec![1, 2, 3])), (Message::Pong(vec![1, 2, 3]), true));
    assert_eq!(reply(Message::Pong(vec![4])), (Message::Pong(vec![4]), true));
    assert_eq!(
        reply(Message::Text("hello".to_string())),
        (Message::Text("hello".to_string()), true)
    );
    assert_eq!(reply(Message::Binary(vec![9])), (Message::Binary(vec![9]), true));
}
