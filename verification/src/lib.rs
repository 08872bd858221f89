//! Link quality measurement for Zenoh unicast transports (OAM: operations,
//! administration and maintenance), together with the modem driver control-plane
//! and data-plane message types, all with machine-checked contracts.
#![allow(unused_imports)]

pub mod clock;
pub mod oam_flag;
pub mod oam_id;
pub mod oam_message;
pub mod wire;
pub mod responder;
pub mod metrics;
pub mod protocol_core;
pub mod link_control;
pub mod link_selection;
pub mod oam_config;
pub mod prober;
pub mod rx_oam;
pub mod data_plane;
pub mod modem_types;
pub mod modem_sdk;
pub mod transport_decisions;
