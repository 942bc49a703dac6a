//! The remote calls: which service is asked, by which method, with which
//! parameters. Sending a request is the caller's.

use crate::text::{or_text, text_or};
use vstd::prelude::*;

verus! {

/// The microservices behind the web interface.
#[derive(Clone, Copy, Debug, PartialEq, Eq, Structural)]
pub enum Service {
    /// `peach-network`
    Network,
    /// `peach-oled`
    Oled,
    /// `peach-stats`
    Stats,
}

impl Service {
    /// The environment variable that configures the address of the service.
    pub fn variable(&self) -> (name: &'static str)
        ensures
            name@ == match *self {
                Service::Network => "PEACH_NETWORK_SERVER"@,
                Service::Oled => "PEACH_OLED_SERVER"@,
                Service::Stats => "PEACH_STATS_SERVER"@,
            },
    {
        match self {
            Service::Network => "PEACH_NETWORK_SERVER",
            Service::Oled => "PEACH_OLED_SERVER",
            Service::Stats => "PEACH_STATS_SERVER",
        }
    }

    /// The address of the service where none is configured.
    pub open spec fn default_text(self) -> Seq<char> {
        match self {
            Service::Network => "127.0.0.1:5110"@,
            Service::Oled => "127.0.0.1:5112"@,
            Service::Stats => "127.0.0.1:5113"@,
        }
    }

    /// The address of the service where none is configured.
    pub fn default_address(&self) -> (address: &'static str)
        ensures
            address@ == self.default_text(),
    {
        match self {
            Service::Network => "127.0.0.1:5110",
            Service::Oled => "127.0.0.1:5112",
            Service::Stats => "127.0.0.1:5113",
        }
    }

    /// The URL of the service: the address that is configured, or else the
    /// default address, behind `http://`.
    pub fn http_server(&self, configured: Option<String>) -> (url: String)
        ensures
            url@ == "http://"@ + text_or(configured, self.default_text()),
    {
        let address = or_text(configured, self.default_address());
        let mut url = "http://".to_string();
        url.append(address.as_str());
        url
    }
}

/// One remote call: the service, the name of the method and its
/// parameters in order.
#[derive(Clone, Debug, PartialEq, Eq)]
pub struct RpcRequest {
    pub service: Service,
    pub method: String,
    pub params: Vec<String>,
}

/// What an `RpcRequest` stands for.
pub struct RpcRequestView {
    pub service: Service,
    pub method: Seq<char>,
    pub params: Seq<Seq<char>>,
}

impl View for RpcRequest {
    type V = RpcRequestView;

    open spec fn view(&self) -> RpcRequestView {
        RpcRequestView {
            service: self.service,
            method: self.method@,
            params: self.params@.map_values(|param: String| param@),
        }
    }
}

impl RpcRequest {
    /// A call without parameters.
    pub fn new(service: Service, method: &str) -> (request: RpcRequest)
        ensures
            request@ == (RpcRequestView { service, method: method@, params: Seq::empty() }),
    {
        let request = RpcRequest { service, method: method.to_string(), params: Vec::new() };
        assert(request@.params =~= Seq::empty());
        request
    }

    /// The same call with one more parameter behind the others.
    pub fn param(self, value: &str) -> (request: RpcRequest)
        ensures
            request@ == (RpcRequestView { params: self@.params.push(value@), ..self@ }),
    {
        let mut params = self.params;
        params.push(value.to_string());
        let request = RpcRequest { service: self.service, method: self.method, params };
        assert(request@.params =~= self@.params.push(value@));
        request
    }
}

} // verus!
