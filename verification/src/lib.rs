//! Supervisor for a long-lived local backend process ("sidecar"): port
//! allocation, launch planning, bounded-retry health probing, output
//! draining with crash detection, and a controlled restart operation.

pub mod drain;
pub mod health;
pub mod launch;
pub mod paths;
pub mod ports;
pub mod supervisor;
pub mod text;
