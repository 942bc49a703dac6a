//! Web administration logic for a PeachCloud device: the decisions behind each
//! page and JSON endpoint, the contexts handed to the templates, and the
//! network data usage monitor. Every outside effect (remote calls, the data
//! store on disk, the system commands) is performed by the caller, which hands
//! the outcome to the functions here.

pub mod common;
pub mod context;
pub mod device;
pub mod error;
pub mod forms;
pub mod json_api;
pub mod monitor;
pub mod network_client;
pub mod oled_client;
pub mod response;
pub mod router;
pub mod routes;
pub mod rpc;
pub mod ssid_map;
pub mod stats_client;
pub mod text;
pub mod uri;
pub mod utils;
pub mod ws;
