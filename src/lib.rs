//! Screen capture routed to a loopback video device: the decisions of a run,
//! verified, with the device, portal and pipeline work left to the caller.

pub mod text;
pub mod device;
pub mod pipeline;
pub mod screencast;
pub mod wait;
pub mod run;
