//! The calls to the `peach-network` microservice, and what it reports about
//! access points, as plain data.

use crate::response::Answer;
use crate::rpc::{RpcRequest, RpcRequestView, Service};
use vstd::prelude::*;

verus! {

/// One access point in range, as a scan reports it.
#[derive(Clone, Debug, PartialEq, Eq)]
pub struct Scan {
    pub protocol: String,
    pub frequency: String,
    pub signal_level: String,
    pub ssid: String,
}

/// One network whose credentials are saved.
#[derive(Clone, Debug, PartialEq, Eq)]
pub struct Networks {
    pub ssid: String,
}

/// One network of the list that is shown: what a scan said of it, if it is
/// in range, its signal quality in percent, and its state in words.
#[derive(Clone, Debug, PartialEq, Eq)]
pub struct AccessPoint {
    pub detail: Option<Scan>,
    pub signal: Option<i32>,
    pub state: String,
}

/// What an `AccessPoint` stands for.
pub struct AccessPointView {
    pub detail: Option<Scan>,
    pub signal: Option<i32>,
    pub state: Seq<char>,
}

impl View for AccessPoint {
    type V = AccessPointView;

    open spec fn view(&self) -> AccessPointView {
        AccessPointView { detail: self.detail, signal: self.signal, state: self.state@ }
    }
}

/// What connecting to a network has come to.
#[derive(Clone, Debug, PartialEq, Eq)]
pub struct ConnectProgress {
    /// The ID of the network.
    pub id: Answer<String>,
    pub connected: Answer<String>,
}

/// An outside call that connecting to a network needs.
#[derive(Clone, Debug, PartialEq, Eq)]
pub enum ConnectCall {
    /// Ask for the ID of the network `ssid` on the interface.
    Id { iface: String, ssid: String },
    /// Connect the interface to the network with this ID.
    Connect { id: String, iface: String },
}

/// What connecting has to do next, or `None` with the outcome: whether the
/// ID was found, and if so whether the connection was made.
pub open spec fn connecting(ssid: Seq<char>, progress: ConnectProgress, step: Option<ConnectCall>)
    -> bool {
    match progress.id {
        Answer::Pending => step matches Some(ConnectCall::Id { iface, ssid: asked })
            && iface@ == "wlan0"@ && asked@ == ssid,
        Answer::Failed => step is None,
        Answer::Given(id) => if progress.connected is Pending {
            step matches Some(ConnectCall::Connect { id: given, iface }) && given@ == id@
                && iface@ == "wlan0"@
        } else {
            step is None
        },
    }
}

/// The next call that connecting to the network `ssid` needs, if it needs
/// one.
pub fn next_connect_call(ssid: &String, progress: &ConnectProgress) -> (call: Option<ConnectCall>)
    ensures
        connecting(ssid@, *progress, call),
{
    match &progress.id {
        Answer::Pending => Some(
            ConnectCall::Id { iface: "wlan0".to_string(), ssid: ssid.clone() },
        ),
        Answer::Failed => None,
        Answer::Given(id) => match &progress.connected {
            Answer::Pending => Some(
                ConnectCall::Connect { id: id.clone(), iface: "wlan0".to_string() },
            ),
            _ => None,
        },
    }
}

/// The call that activates the access point.
pub fn network_activate_ap() -> (request: RpcRequest)
    ensures
        request@ == (RpcRequestView {
            service: Service::Network,
            method: "activate_ap"@,
            params: Seq::empty(),
        }),
{
    RpcRequest::new(Service::Network, "activate_ap")
}

/// The call that activates the wireless client.
pub fn network_activate_client() -> (request: RpcRequest)
    ensures
        request@ == (RpcRequestView {
            service: Service::Network,
            method: "activate_client"@,
            params: Seq::empty(),
        }),
{
    RpcRequest::new(Service::Network, "activate_client")
}

/// The call that adds the credentials of an access point.
pub fn network_add(ssid: &str, pass: &str) -> (request: RpcRequest)
    ensures
        request@ == (RpcRequestView {
            service: Service::Network,
            method: "add"@,
            params: seq![ssid@, pass@],
        }),
{
    let request = RpcRequest::new(Service::Network, "add").param(ssid).param(pass);
    assert(request@.params =~= seq![ssid@, pass@]);
    request
}

/// The call that lists all networks in range of the interface.
pub fn network_available_networks(iface: &str) -> (request: RpcRequest)
    ensures
        request@ == (RpcRequestView {
            service: Service::Network,
            method: "available_networks"@,
            params: seq![iface@],
        }),
{
    let request = RpcRequest::new(Service::Network, "available_networks").param(iface);
    assert(request@.params =~= seq![iface@]);
    request
}

/// The call that connects the interface to the network with this ID, and disables its other connections.
pub fn network_connect(id: &str, iface: &str) -> (request: RpcRequest)
    ensures
        request@ == (RpcRequestView {
            service: Service::Network,
            method: "connect"@,
            params: seq![id@, iface@],
        }),
{
    let request = RpcRequest::new(Service::Network, "connect").param(id).param(iface);
    assert(request@.params =~= seq![id@, iface@]);
    request
}

/// The call that asks for the ID of a network on the interface.
pub fn network_id(iface: &str, ssid: &str) -> (request: RpcRequest)
    ensures
        request@ == (RpcRequestView {
            service: Service::Network,
            method: "id"@,
            params: seq![iface@, ssid@],
        }),
{
    let request = RpcRequest::new(Service::Network, "id").param(iface).param(ssid);
    assert(request@.params =~= seq![iface@, ssid@]);
    request
}

/// The call that asks for the IP address of the interface.
pub fn network_ip(iface: &str) -> (request: RpcRequest)
    ensures
        request@ == (RpcRequestView {
            service: Service::Network,
            method: "ip"@,
            params: seq![iface@],
        }),
{
    let request = RpcRequest::new(Service::Network, "ip").param(iface);
    assert(request@.params =~= seq![iface@]);
    request
}

/// The call that checks whether `peach-network` is available.
pub fn network_ping() -> (request: RpcRequest)
    ensures
        request@ == (RpcRequestView {
            service: Service::Network,
            method: "ping"@,
            params: Seq::empty(),
        }),
{
    RpcRequest::new(Service::Network, "ping")
}

/// The call that has the configuration of the wireless client read again.
pub fn network_reconfigure() -> (request: RpcRequest)
    ensures
        request@ == (RpcRequestView {
            service: Service::Network,
            method: "reconfigure"@,
            params: Seq::empty(),
        }),
{
    RpcRequest::new(Service::Network, "reconfigure")
}

/// The call that asks for the average signal strength (dBm) of the interface.
pub fn network_rssi(iface: &str) -> (request: RpcRequest)
    ensures
        request@ == (RpcRequestView {
            service: Service::Network,
            method: "rssi"@,
            params: seq![iface@],
        }),
{
    let request = RpcRequest::new(Service::Network, "rssi").param(iface);
    assert(request@.params =~= seq![iface@]);
    request
}

/// The call that asks for the average signal quality (%) of the interface.
pub fn network_rssi_percent(iface: &str) -> (request: RpcRequest)
    ensures
        request@ == (RpcRequestView {
            service: Service::Network,
            method: "rssi_percent"@,
            params: seq![iface@],
        }),
{
    let request = RpcRequest::new(Service::Network, "rssi_percent").param(iface);
    assert(request@.params =~= seq![iface@]);
    request
}

/// The call that lists all networks whose credentials are saved.
pub fn network_saved_networks() -> (request: RpcRequest)
    ensures
        request@ == (RpcRequestView {
            service: Service::Network,
            method: "saved_networks"@,
            params: Seq::empty(),
        }),
{
    RpcRequest::new(Service::Network, "saved_networks")
}

/// The call that asks for the SSID of the network to which the interface is connected.
pub fn network_ssid(iface: &str) -> (request: RpcRequest)
    ensures
        request@ == (RpcRequestView {
            service: Service::Network,
            method: "ssid"@,
            params: seq![iface@],
        }),
{
    let request = RpcRequest::new(Service::Network, "ssid").param(iface);
    assert(request@.params =~= seq![iface@]);
    request
}

/// The call that asks for the state of the interface.
pub fn network_state(iface: &str) -> (request: RpcRequest)
    ensures
        request@ == (RpcRequestView {
            service: Service::Network,
            method: "state"@,
            params: seq![iface@],
        }),
{
    let request = RpcRequest::new(Service::Network, "state").param(iface);
    assert(request@.params =~= seq![iface@]);
    request
}

/// The call that asks for the status of the interface.
pub fn network_status(iface: &str) -> (request: RpcRequest)
    ensures
        request@ == (RpcRequestView {
            service: Service::Network,
            method: "status"@,
            params: seq![iface@],
        }),
{
    let request = RpcRequest::new(Service::Network, "status").param(iface);
    assert(request@.params =~= seq![iface@]);
    request
}

/// The call that asks for the network traffic of the interface.
pub fn network_traffic(iface: &str) -> (request: RpcRequest)
    ensures
        request@ == (RpcRequestView {
            service: Service::Network,
            method: "traffic"@,
            params: seq![iface@],
        }),
{
    let request = RpcRequest::new(Service::Network, "traffic").param(iface);
    assert(request@.params =~= seq![iface@]);
    request
}

} // verus!
