//! A real-time-safe bridge between a bank of automatable controls and a remote
//! listener: changes are recorded in a coalescing tracker, drained once per
//! processing block into dispatch tasks, and each task is later turned into at
//! most one outbound message.

pub mod controls;
pub mod decimal;
pub mod dispatch;
pub mod driver;
pub mod endpoint;
pub mod laws;
pub mod radio;
pub mod tracker;
