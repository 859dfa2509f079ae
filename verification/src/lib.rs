//! Connection-resilience core for an unattended sensor node.
//!
//! The node keeps a wireless link, a TCP connection and an MQTT session alive
//! for long stretches without an operator. Every soft failure feeds a
//! failure-counting watchdog that escalates to a full device reset after a
//! bounded number of retries; the modules here hold that watchdog and the
//! decision logic of each boot phase and of the steady-state telemetry loop.

pub mod link;
pub mod netconfig;
pub mod packet_check;
pub mod reset_on_failure_count;
pub mod session;
pub mod telemetry;
