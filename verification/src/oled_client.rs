//! The calls to the `peach-oled` microservice.

use crate::rpc::{RpcRequest, RpcRequestView, Service};
use vstd::prelude::*;

verus! {

/// The call that checks whether `peach-oled` is available.
pub fn oled_ping() -> (request: RpcRequest)
    ensures
        request@ == (RpcRequestView {
            service: Service::Oled,
            method: "ping"@,
            params: Seq::empty(),
        }),
{
    RpcRequest::new(Service::Oled, "ping")
}

} // verus!
