//! Names that stand for objects the buffer does not own.
use vstd::prelude::*;

verus! {

/// The handle of a buffer on the device. It stays the same for the life of
/// the buffer.
#[derive(Clone, Copy, Debug, PartialEq, Eq, Hash, Structural)]
pub struct WebGPUBuffer(pub u64);

/// The handle of the device that owns a buffer.
#[derive(Clone, Copy, Debug, PartialEq, Eq, Hash, Structural)]
pub struct WebGPUDevice(pub u64);

/// The handle by which a map request is completed. Two promises are the same
/// promise exactly if their numbers are equal.
#[derive(Clone, Copy, Debug, PartialEq, Eq, Hash, Structural)]
pub struct Promise(pub u64);

} // verus!
