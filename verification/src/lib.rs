//! Mapping lifecycle of a GPU buffer.
//!
//! A buffer asks the device for access to a range of its memory, receives a
//! snapshot of that range, hands out windows into the snapshot, and gives the
//! range back when it is unmapped or destroyed. Every operation is a step of a
//! state machine: it changes the buffer and returns what has to be sent to
//! the device and which promise has to be settled.
#![allow(non_snake_case)]

pub mod block;
pub mod buffer;
pub mod error;
pub mod identity;
pub mod lifecycle;
pub mod limits;
pub mod message;
pub mod shared_memory;
pub mod state;

pub use crate::block::{DataBlock, DataView};
pub use crate::buffer::{ActiveBufferMapping, GPUBuffer};
pub use crate::error::{Error, ValidationError};
pub use crate::identity::{Promise, WebGPUBuffer, WebGPUDevice};
pub use crate::message::{
    DestroyOutcome, GPUBufferDescriptor, HostMap, MapAsyncOutcome, Mapping, Settlement,
    UnmapOutcome, WebGPURequest,
};
pub use crate::state::GPUBufferMapState;
