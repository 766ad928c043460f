//! Network-stack logic: the resident smoltcp stack runner's notification
//! generation, lifecycle, telemetry and per-poll decisions; socket
//! readiness, connect and receive decisions; socket epochs and the registry
//! of handles.

pub mod epoch;
pub mod readiness;
pub mod registry;
pub mod stack_runner;
