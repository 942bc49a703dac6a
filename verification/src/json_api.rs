//! The JSON API: what each endpoint answers, given what came of the calls
//! that it needs.
//!
//! | Method | URL                              | Description                   |
//! | ------ | -------------------------------- | ----------------------------- |
//! | POST   | /api/v1/device/reboot            | Reboot device                 |
//! | POST   | /api/v1/device/shutdown          | Shutdown device               |
//! | POST   | /api/v1/network/activate_ap      | Activate access point mode    |
//! | POST   | /api/v1/network/activate_client  | Activate client mode          |
//! | GET    | /api/v1/network/ip               | IP addresses                  |
//! | GET    | /api/v1/network/rssi             | Signal strength               |
//! | GET    | /api/v1/network/ssid             | Name of the connected network |
//! | GET    | /api/v1/network/state            | State of the interfaces       |
//! | GET    | /api/v1/network/status           | Status of the connection      |
//! | GET    | /api/v1/network/wifi             | Retrieve available networks   |
//! | POST   | /api/v1/network/wifi             | Add WiFi AP credentials       |
//! | POST   | /api/v1/network/wifi/connect     | Connect to WiFi access point  |
//! | POST   | /api/v1/network/wifi/disconnect  | Disconnect WiFi access point  |
//! | POST   | /api/v1/network/wifi/forget      | Forget / remove network       |
//! | POST   | /api/v1/network/wifi/modify      | Modify network password       |
//! | POST   | /api/v1/network/wifi/usage       | Update alert thresholds       |
//! | POST   | /api/v1/network/wifi/usage/reset | Reset stored data usage total |
//! | GET    | /api/v1/ping                     | Ping the web interface        |
//! | GET    | /api/v1/ping/network             | Ping `peach-network`          |
//! | GET    | /api/v1/ping/oled                | Ping `peach-oled`             |
//! | GET    | /api/v1/ping/stats               | Ping `peach-stats`            |

use crate::forms::{Ssid, WiFi};
use crate::network_client::{connecting, next_connect_call, ConnectCall, ConnectProgress};
use crate::response::{Answer, ContentType, Status, Step};
use crate::stats_client::Traffic;
use crate::text::{opt_text, or_text};
use vstd::prelude::*;

verus! {

/// The data of an answer: a text, a number, or an object whose members
/// are texts.
#[derive(Clone, Debug, PartialEq, Eq)]
pub enum JsonValue {
    Text(String),
    Number(u64),
    Object(Vec<(String, String)>),
}

/// What a `JsonValue` stands for.
pub enum JsonValueView {
    Text(Seq<char>),
    Number(u64),
    Object(Seq<(Seq<char>, Seq<char>)>),
}

impl View for JsonValue {
    type V = JsonValueView;

    open spec fn view(&self) -> JsonValueView {
        match *self {
            JsonValue::Text(text) => JsonValueView::Text(text@),
            JsonValue::Number(number) => JsonValueView::Number(number),
            JsonValue::Object(members) => JsonValueView::Object(
                members@.map_values(|member: (String, String)| (member.0@, member.1@)),
            ),
        }
    }
}

/// The body of every answer of the API. `data` and `msg` are left out of
/// the body where they are `None`.
#[derive(Clone, Debug, PartialEq, Eq)]
pub struct JsonResponse {
    pub status: String,
    pub data: Option<JsonValue>,
    pub msg: Option<String>,
}

/// What a `JsonResponse` stands for.
pub struct JsonResponseView {
    pub status: Seq<char>,
    pub data: Option<JsonValueView>,
    pub msg: Option<Seq<char>>,
}

impl View for JsonResponse {
    type V = JsonResponseView;

    open spec fn view(&self) -> JsonResponseView {
        JsonResponseView {
            status: self.status@,
            data: match self.data {
                Some(data) => Some(data@),
                None => None,
            },
            msg: opt_text(self.msg),
        }
    }
}

impl JsonResponseView {
    /// Success, with a message.
    pub open spec fn success(msg: Seq<char>) -> JsonResponseView {
        JsonResponseView { status: "success"@, data: None, msg: Some(msg) }
    }

    /// Failure, with a message.
    pub open spec fn error(msg: Seq<char>) -> JsonResponseView {
        JsonResponseView { status: "error"@, data: None, msg: Some(msg) }
    }

    /// The answer to an action: `done` where it succeeded, `failed` where it
    /// did not.
    pub open spec fn acted(succeeded: bool, done: Seq<char>, failed: Seq<char>)
        -> JsonResponseView {
        if succeeded {
            JsonResponseView::success(done)
        } else {
            JsonResponseView::error(failed)
        }
    }

    /// The answer to a question: the text that was found out, or else
    /// `missing`. The status is "success" either way.
    pub open spec fn found(answer: Option<Seq<char>>, missing: Seq<char>) -> JsonResponseView {
        match answer {
            Some(text) => JsonResponseView {
                status: "success"@,
                data: Some(JsonValueView::Text(text)),
                msg: None,
            },
            None => JsonResponseView::success(missing),
        }
    }

    /// The answer to a question about both interfaces: what was found out of
    /// each, with `missing` for each of which nothing was.
    pub open spec fn interfaces(
        wlan0: Option<Seq<char>>,
        ap0: Option<Seq<char>>,
        missing: Seq<char>,
    ) -> JsonResponseView {
        JsonResponseView {
            status: "success"@,
            data: Some(
                JsonValueView::Object(
                    seq![
                        (
                            "wlan0"@,
                            match wlan0 {
                                Some(text) => text,
                                None => missing,
                            },
                        ),
                        (
                            "ap0"@,
                            match ap0 {
                                Some(text) => text,
                                None => missing,
                            },
                        ),
                    ],
                ),
            ),
            msg: None,
        }
    }
}

/// A failed action is answered with the status "error" and a message that
/// says that the action failed, whatever the action.
pub proof fn lemma_failed_action_reports_error(done: Seq<char>, failed: Seq<char>)
    ensures
        JsonResponseView::acted(false, done, failed).status == "error"@,
        JsonResponseView::acted(false, done, failed).msg == Some(failed),
{
}

/// A question that finds nothing out is answered with a message that says
/// so.
pub proof fn lemma_unanswered_question_reports(missing: Seq<char>)
    ensures
        JsonResponseView::found(None, missing).msg == Some(missing),
        JsonResponseView::found(None, missing).data is None,
{
}

impl JsonResponse {
    /// The body of a JSON answer is sent with "200 OK".
    pub fn status(&self) -> (status: Status)
        ensures
            status == Status::OK,
    {
        Status::OK
    }

    /// The body is JSON.
    pub fn content_type(&self) -> (content_type: Option<ContentType>)
        ensures
            content_type == Some(ContentType::JSON),
    {
        Some(ContentType::JSON)
    }
}

pub fn build_json_response(status: String, data: Option<JsonValue>, msg: Option<String>) -> (json:
    JsonResponse)
    ensures
        json.status == status,
        json.data == data,
        json.msg == msg,
{
    JsonResponse { status, data, msg }
}

fn success(msg: &str) -> (response: JsonResponse)
    ensures
        response@ == JsonResponseView::success(msg@),
{
    build_json_response("success".to_string(), None, Some(msg.to_string()))
}

fn error(msg: &str) -> (response: JsonResponse)
    ensures
        response@ == JsonResponseView::error(msg@),
{
    build_json_response("error".to_string(), None, Some(msg.to_string()))
}

fn acted(succeeded: bool, done: &str, failed: &str) -> (response: JsonResponse)
    ensures
        response@ == JsonResponseView::acted(succeeded, done@, failed@),
{
    if succeeded {
        success(done)
    } else {
        error(failed)
    }
}

fn found(answer: Option<String>, missing: &str) -> (response: JsonResponse)
    ensures
        response@ == JsonResponseView::found(opt_text(answer), missing@),
{
    match answer {
        Some(text) => {
            let data = JsonValue::Text(text);
            build_json_response("success".to_string(), Some(data), None)
        },
        None => build_json_response("success".to_string(), None, Some(missing.to_string())),
    }
}

fn interfaces(wlan0: Option<String>, ap0: Option<String>, missing: &str) -> (response:
    JsonResponse)
    ensures
        response@ == JsonResponseView::interfaces(opt_text(wlan0), opt_text(ap0), missing@),
{
    let wlan = or_text(wlan0, missing);
    let ap = or_text(ap0, missing);
    let mut members: Vec<(String, String)> = Vec::new();
    members.push(("wlan0".to_string(), wlan));
    members.push(("ap0".to_string(), ap));
    let data = JsonValue::Object(members);
    let response = build_json_response("success".to_string(), Some(data), None);
    assert(response@.data->0->Object_0 =~= JsonResponseView::interfaces(
        opt_text(wlan0),
        opt_text(ap0),
        missing@,
    ).data->0->Object_0);
    response
}

/// Reboot the device: answers what came of the command.
pub fn reboot_device<T, E>(rebooted: Result<T, E>) -> (response: JsonResponse)
    ensures
        response@ == JsonResponseView::acted(
            rebooted is Ok,
            "Going down for reboot."@,
            "Failed to reboot the device."@,
        ),
{
    acted(rebooted.is_ok(), "Going down for reboot.", "Failed to reboot the device.")
}

/// Shutdown the device: answers what came of the command.
pub fn shutdown_device<T, E>(shut_down: Result<T, E>) -> (response: JsonResponse)
    ensures
        response@ == JsonResponseView::acted(
            shut_down is Ok,
            "Going down for shutdown."@,
            "Failed to shutdown the device."@,
        ),
{
    acted(shut_down.is_ok(), "Going down for shutdown.", "Failed to shutdown the device.")
}

/// The answer to an activation: on success the status alone.
pub open spec fn activation(succeeded: bool, failed: Seq<char>) -> JsonResponseView {
    if succeeded {
        JsonResponseView { status: "success"@, data: None, msg: None }
    } else {
        JsonResponseView::error(failed)
    }
}

/// Activate the wireless access point: answers what came of it.
pub fn activate_ap<T, E>(activated: Result<T, E>) -> (response: JsonResponse)
    ensures
        response@ == activation(activated is Ok, "Failed to activate WiFi access point."@),
{
    match activated {
        Ok(_) => build_json_response("success".to_string(), None, None),
        Err(_) => {
            let msg = "Failed to activate WiFi access point.".to_string();
            build_json_response("error".to_string(), None, Some(msg))
        },
    }
}

/// Activate the wireless client: answers what came of it.
pub fn activate_client<T, E>(activated: Result<T, E>) -> (response: JsonResponse)
    ensures
        response@ == activation(activated is Ok, "Failed to activate WiFi client mode."@),
{
    match activated {
        Ok(_) => build_json_response("success".to_string(), None, None),
        Err(_) => {
            let msg = "Failed to activate WiFi client mode.".to_string();
            build_json_response("error".to_string(), None, Some(msg))
        },
    }
}

/// The IP address of each interface, `x.x.x.x` for one that has none.
pub fn return_ip(wlan_ip: Option<String>, ap_ip: Option<String>) -> (response: JsonResponse)
    ensures
        response@ == JsonResponseView::interfaces(opt_text(wlan_ip), opt_text(ap_ip), "x.x.x.x"@),
{
    interfaces(wlan_ip, ap_ip, "x.x.x.x")
}

/// The signal strength of the connected network.
pub fn return_rssi(rssi: Option<String>) -> (response: JsonResponse)
    ensures
        response@ == JsonResponseView::found(
            opt_text(rssi),
            "Not currently connected to an access point."@,
        ),
{
    found(rssi, "Not currently connected to an access point.")
}

/// The name of the connected network.
pub fn return_ssid(ssid: Option<String>) -> (response: JsonResponse)
    ensures
        response@ == JsonResponseView::found(
            opt_text(ssid),
            "Not currently connected to an access point."@,
        ),
{
    found(ssid, "Not currently connected to an access point.")
}

/// The state of each interface, `unavailable` for one that has none.
pub fn return_state(wlan_state: Option<String>, ap_state: Option<String>) -> (response:
    JsonResponse)
    ensures
        response@ == JsonResponseView::interfaces(
            opt_text(wlan_state),
            opt_text(ap_state),
            "unavailable"@,
        ),
{
    interfaces(wlan_state, ap_state, "unavailable")
}

/// The status of the wireless interface.
pub fn return_status(status: Option<String>) -> (response: JsonResponse)
    ensures
        response@ == JsonResponseView::found(
            opt_text(status),
            "Not currently connected to an access point."@,
        ),
{
    found(status, "Not currently connected to an access point.")
}

/// The access points in range of the wireless interface.
pub fn scan_networks(networks: Option<String>) -> (response: JsonResponse)
    ensures
        response@ == JsonResponseView::found(
            opt_text(networks),
            "Unable to scan for networks. Interface may be deactivated."@,
        ),
{
    found(networks, "Unable to scan for networks. Interface may be deactivated.")
}

/// What adding credentials has come to.
#[derive(Clone, Debug, PartialEq, Eq)]
pub struct AddWifiProgress {
    pub added: Answer<String>,
    pub reconfigured: Answer<String>,
}

/// An outside call that adding credentials needs.
#[derive(Clone, Debug, PartialEq, Eq)]
pub enum AddWifiCall {
    /// Write the credentials to the configuration of the wireless client.
    Add { ssid: String, pass: String },
    /// Have the configuration read again.
    Reconfigure,
}

/// Add WiFi credentials: the credentials are added; where that succeeded,
/// the configuration is read again, and whatever comes of that the answer is
/// success.
pub fn add_wifi(wifi: &WiFi, progress: &AddWifiProgress) -> (step: Step<AddWifiCall, JsonResponse>)
    ensures
        match progress.added {
            Answer::Pending => step matches Step::Call(AddWifiCall::Add { ssid, pass })
                && ssid@ == wifi.ssid@ && pass@ == wifi.pass@,
            Answer::Failed => step matches Step::Done(response) && response@
                == JsonResponseView::error("Failed to add WiFi credentials."@),
            Answer::Given(_) => if progress.reconfigured is Pending {
                step == Step::<AddWifiCall, JsonResponse>::Call(AddWifiCall::Reconfigure)
            } else {
                step matches Step::Done(response) && response@ == JsonResponseView::success(
                    "WiFi credentials added."@,
                )
            },
        },
{
    match &progress.added {
        Answer::Pending => Step::Call(
            AddWifiCall::Add { ssid: wifi.ssid.clone(), pass: wifi.pass.clone() },
        ),
        Answer::Failed => Step::Done(error("Failed to add WiFi credentials.")),
        Answer::Given(_) => match &progress.reconfigured {
            Answer::Pending => Step::Call(AddWifiCall::Reconfigure),
            _ => Step::Done(success("WiFi credentials added.")),
        },
    }
}

/// Connect to a WiFi access point: the ID of the network is asked for, then
/// the connection is made with that ID.
pub fn connect_ap(ssid: &Ssid, progress: &ConnectProgress) -> (step: Step<ConnectCall, JsonResponse>)
    ensures
        match step {
            Step::Call(call) => connecting(ssid.ssid@, *progress, Some(call)),
            Step::Done(response) => connecting(ssid.ssid@, *progress, None) && response@
                == if progress.id is Failed {
                JsonResponseView::error("Failed to retrieve the network ID."@)
            } else {
                JsonResponseView::acted(
                    progress.connected is Given,
                    "Connected to chosen network."@,
                    "Failed to connect to chosen network."@,
                )
            },
        },
{
    match next_connect_call(&ssid.ssid, progress) {
        Some(call) => Step::Call(call),
        None => match &progress.id {
            Answer::Failed => Step::Done(error("Failed to retrieve the network ID.")),
            _ => {
                let connected = match &progress.connected {
                    Answer::Given(_) => true,
                    _ => false,
                };
                Step::Done(
                    acted(
                        connected,
                        "Connected to chosen network.",
                        "Failed to connect to chosen network.",
                    ),
                )
            },
        },
    }
}

/// Disconnect the wireless interface from a network: answers what came of
/// it.
pub fn disconnect_ap<T, E>(ssid: &Ssid, disabled: Result<T, E>) -> (response: JsonResponse)
    ensures
        response@ == JsonResponseView::acted(
            disabled is Ok,
            "Disconnected from WiFi network."@,
            "Failed to disconnect from WiFi network."@,
        ),
{
    acted(
        disabled.is_ok(),
        "Disconnected from WiFi network.",
        "Failed to disconnect from WiFi network.",
    )
}

/// Forget a network: answers what came of it.
pub fn forget_ap<T, E>(network: &Ssid, forgotten: Result<T, E>) -> (response: JsonResponse)
    ensures
        response@ == JsonResponseView::acted(
            forgotten is Ok,
            "WiFi network credentials removed."@,
            "Failed to remove WiFi network credentials."@,
        ),
{
    acted(
        forgotten.is_ok(),
        "WiFi network credentials removed.",
        "Failed to remove WiFi network credentials.",
    )
}

/// Change the password of a network: answers what came of it.
pub fn modify_password<T, E>(wifi: &WiFi, updated: Result<T, E>) -> (response: JsonResponse)
    ensures
        response@ == JsonResponseView::acted(
            updated is Ok,
            "WiFi password updated."@,
            "Failed to update WiFi password."@,
        ),
{
    acted(updated.is_ok(), "WiFi password updated.", "Failed to update WiFi password.")
}

/// Update the alert thresholds: answers what came of storing them.
pub fn update_wifi_alerts<T, E>(updated: Result<T, E>) -> (response: JsonResponse)
    ensures
        response@ == JsonResponseView::acted(
            updated is Ok,
            "Updated alert threshold and flags."@,
            "Failed to update WiFi data usage thresholds."@,
        ),
{
    acted(
        updated.is_ok(),
        "Updated alert threshold and flags.",
        "Failed to update WiFi data usage thresholds.",
    )
}

/// What resetting the stored traffic total has come to.
#[derive(Clone, Debug, PartialEq, Eq)]
pub struct ResetProgress {
    /// Whether the total was set back in the store.
    pub reset: Answer<()>,
    /// The traffic of the wireless interface since boot.
    pub traffic: Answer<Traffic>,
}

/// An outside call that resetting the stored traffic total needs.
#[derive(Clone, Debug, PartialEq, Eq)]
pub enum ResetCall {
    /// Set the stored total back.
    ResetData,
    /// Ask for the traffic of the interface.
    Traffic { iface: String },
}

/// The answer to a reset that succeeded: the traffic of the live session,
/// in bytes, which is the total from now on.
pub open spec fn reset_done(session: u64) -> JsonResponseView {
    JsonResponseView {
        status: "success"@,
        data: Some(JsonValueView::Number(session)),
        msg: Some("Reset network data usage total."@),
    }
}

/// Reset the stored traffic total: the total is set back in the store;
/// where that succeeded, the traffic of the wireless interface is asked for,
/// and the answer gives what it has received and transmitted, or 0 where it
/// does not say. That sum has to fit in 64 bits.
pub fn reset_data_total(progress: &ResetProgress) -> (step: Step<ResetCall, JsonResponse>)
    requires
        progress.traffic matches Answer::Given(traffic) ==> traffic.session() <= u64::MAX,
    ensures
        match progress.reset {
            Answer::Pending => step == Step::<ResetCall, JsonResponse>::Call(ResetCall::ResetData),
            Answer::Failed => step matches Step::Done(response) && response@
                == JsonResponseView::error("Failed to reset network data usage total."@),
            Answer::Given(_) => match progress.traffic {
                Answer::Pending => step matches Step::Call(ResetCall::Traffic { iface })
                    && iface@ == "wlan0"@,
                Answer::Failed => step matches Step::Done(response) && response@ == reset_done(0),
                Answer::Given(traffic) => step matches Step::Done(response) && response@
                    == reset_done(traffic.session() as u64),
            },
        },
{
    match &progress.reset {
        Answer::Pending => Step::Call(ResetCall::ResetData),
        Answer::Failed => Step::Done(
            error("Failed to reset network data usage total."),
        ),
        Answer::Given(_) => {
            let current_traffic = match &progress.traffic {
                Answer::Pending => {
                    return Step::Call(ResetCall::Traffic { iface: "wlan0".to_string() });
                },
                Answer::Failed => 0,
                // current wifi traffic values as bytes
                Answer::Given(traffic) => traffic.received + traffic.transmitted,
            };
            let data = JsonValue::Number(current_traffic);
            let msg = "Reset network data usage total.".to_string();
            Step::Done(build_json_response("success".to_string(), Some(data), Some(msg)))
        },
    }
}

/// Status route: useful for checking connectivity from a web client.
pub fn ping_pong() -> (response: JsonResponse)
    ensures
        response@ == JsonResponseView::success("pong!"@),
{
    success("pong!")
}

/// Status route: whether the `peach-network` microservice answered.
pub fn ping_network<T, E>(pinged: Result<T, E>) -> (response: JsonResponse)
    ensures
        response@ == JsonResponseView::acted(
            pinged is Ok,
            "peach-network is available."@,
            "peach-network is unavailable."@,
        ),
{
    acted(pinged.is_ok(), "peach-network is available.", "peach-network is unavailable.")
}

/// Status route: whether the `peach-oled` microservice answered.
pub fn ping_oled<T, E>(pinged: Result<T, E>) -> (response: JsonResponse)
    ensures
        response@ == JsonResponseView::acted(
            pinged is Ok,
            "peach-oled is available."@,
            "peach-oled is unavailable."@,
        ),
{
    acted(pinged.is_ok(), "peach-oled is available.", "peach-oled is unavailable.")
}

/// Status route: whether the `peach-stats` microservice answered.
pub fn ping_stats<T, E>(pinged: Result<T, E>) -> (response: JsonResponse)
    ensures
        response@ == JsonResponseView::acted(
            pinged is Ok,
            "peach-stats is available."@,
            "peach-stats is unavailable."@,
        ),
{
    acted(pinged.is_ok(), "peach-stats is available.", "peach-stats is unavailable.")
}

} // verus!
