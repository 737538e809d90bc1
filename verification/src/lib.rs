//! Verified core of the IoT Edge tooling: the Kubernetes object models, the
//! Docker log stream decoder, the Unix-socket connector state machine, the
//! dashboard's configuration and response decisions, and the Windows service
//! control decisions.

pub mod dashboard;
pub mod docker;
pub mod models;
pub mod service;
pub mod uds;
