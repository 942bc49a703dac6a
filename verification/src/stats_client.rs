//! The calls to the `peach-stats` microservice, and what it and the network
//! service report, as plain data.

use crate::rpc::{RpcRequest, RpcRequestView, Service};
use vstd::prelude::*;

verus! {

/// Time the processor has spent in each state.
#[derive(Clone, Copy, Debug, PartialEq, Eq, Structural)]
pub struct CpuStat {
    pub user: u64,
    pub system: u64,
    pub idle: u64,
    pub nice: u64,
}

/// Usage of one mounted partition.
#[derive(Clone, Debug, PartialEq, Eq)]
pub struct DiskUsage {
    pub filesystem: Option<String>,
    pub one_k_blocks: u64,
    pub one_k_blocks_used: u64,
    pub one_k_blocks_free: u64,
    pub used_percentage: u32,
    pub mountpoint: String,
}

/// Memory figures.
#[derive(Clone, Copy, Debug, PartialEq, Eq, Structural)]
pub struct MemStat {
    pub total: u64,
    pub free: u64,
    pub used: u64,
}

/// Traffic of one network interface. As reported, both amounts are in bytes
/// and no unit is set.
#[derive(Clone, Debug, PartialEq, Eq)]
pub struct Traffic {
    pub received: u64,
    pub transmitted: u64,
    pub rx_unit: Option<String>,
    pub tx_unit: Option<String>,
}

/// Time since the device started.
#[derive(Clone, Copy, Debug, PartialEq, Eq, Structural)]
pub struct Uptime {
    pub secs: u64,
    pub nanos: u32,
}

/// The uptime in whole minutes.
pub fn uptime_minutes(reported: Uptime) -> (minutes: u64)
    ensures
        minutes == reported.secs / 60,
{
    reported.secs / 60
}

impl Traffic {
    /// The traffic shown where the service gave none: nothing received,
    /// nothing sent, no unit.
    pub fn none() -> (traffic: Traffic)
        ensures
            traffic.received == 0,
            traffic.transmitted == 0,
            traffic.rx_unit is None,
            traffic.tx_unit is None,
    {
        Traffic { received: 0, transmitted: 0, rx_unit: None, tx_unit: None }
    }

    /// The bytes of the live session: received plus transmitted.
    pub open spec fn session(self) -> int {
        self.received + self.transmitted
    }

    /// The bytes of the live session, or `None` where they do not fit in 64
    /// bits.
    pub fn checked_session(&self) -> (bytes: Option<u64>)
        ensures
            bytes == if self.session() <= u64::MAX {
                Some(self.session() as u64)
            } else {
                None
            },
    {
        self.received.checked_add(self.transmitted)
    }
}

/// The call that asks for the current CPU statistics, in percent.
pub fn cpu_stats_percent() -> (request: RpcRequest)
    ensures
        request@ == (RpcRequestView {
            service: Service::Stats,
            method: "cpu_stats_percent"@,
            params: Seq::empty(),
        }),
{
    RpcRequest::new(Service::Stats, "cpu_stats_percent")
}

/// The call that asks for the current disk usage.
pub fn disk_usage() -> (request: RpcRequest)
    ensures
        request@ == (RpcRequestView {
            service: Service::Stats,
            method: "disk_usage"@,
            params: Seq::empty(),
        }),
{
    RpcRequest::new(Service::Stats, "disk_usage")
}

/// The call that asks for the current load average.
pub fn load_average() -> (request: RpcRequest)
    ensures
        request@ == (RpcRequestView {
            service: Service::Stats,
            method: "load_average"@,
            params: Seq::empty(),
        }),
{
    RpcRequest::new(Service::Stats, "load_average")
}

/// The call that asks for the current memory statistics.
pub fn mem_stats() -> (request: RpcRequest)
    ensures
        request@ == (RpcRequestView {
            service: Service::Stats,
            method: "mem_stats"@,
            params: Seq::empty(),
        }),
{
    RpcRequest::new(Service::Stats, "mem_stats")
}

/// The call that checks whether `peach-stats` is available.
pub fn stats_ping() -> (request: RpcRequest)
    ensures
        request@ == (RpcRequestView {
            service: Service::Stats,
            method: "ping"@,
            params: Seq::empty(),
        }),
{
    RpcRequest::new(Service::Stats, "ping")
}

/// The call that asks for the system uptime.
pub fn uptime() -> (request: RpcRequest)
    ensures
        request@ == (RpcRequestView {
            service: Service::Stats,
            method: "uptime"@,
            params: Seq::empty(),
        }),
{
    RpcRequest::new(Service::Stats, "uptime")
}

} // verus!
