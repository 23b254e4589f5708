use vstd::prelude::*;

pub mod blinky;
pub mod coexistence;
pub mod config;
pub mod decimal;
pub mod dhcp;
pub mod echo_path;
pub mod events;
pub mod evidence;
pub mod fnv;
pub mod hex;
pub mod netdiag;
pub mod progress;
pub mod radio_report;
pub mod rtos_report;
pub mod scan;
pub mod services;
pub mod softap;
pub mod station;
pub mod text;
pub mod timeline;
pub mod timing;
pub mod udp;

verus! {
}
