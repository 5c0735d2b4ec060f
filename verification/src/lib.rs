//! Request routing for the device-status service.
//!
//! One unsigned 32-bit request code travels with every transaction. It packs
//! an action, the intention the action is aimed at, and a parameter id. The
//! modules below define that code, the server-side router that turns a code
//! into one handler call, and the client-side proxy that builds the code and
//! brings the reply payload back to the caller.

pub mod buffer;
pub mod error;
pub mod identity;
pub mod proxy;
pub mod service;

pub use crate::buffer::Buffer;
pub use crate::error::{DecodeError, FusionResult};
pub use crate::identity::{
    compose_param_id, split_action, split_intention, split_param, CommonAction, Intention,
};
pub use crate::proxy::{complete_request, transfer_data, FusionIpcProxy};
pub use crate::service::{decode_request, on_remote_request, IDeviceStatus, Request};
