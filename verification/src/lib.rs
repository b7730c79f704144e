//! Device routing and control engine of a software KVM switch.

pub mod config;
pub mod dispatch;
pub mod events;
pub mod filter;
pub mod input;
pub mod inputs;
pub mod process;
pub mod route;
pub mod supervisor;
