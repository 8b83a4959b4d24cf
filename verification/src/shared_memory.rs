//! Shared memory of the channel to the device, as far as the buffer touches
//! it: a region is made from bytes and read back as bytes.
use vstd::prelude::*;

verus! {

/// `ipc_channel::ipc::IpcSharedMemory`, a region of memory that can be sent to
/// another process. Nothing inside it is visible here; what it holds is
/// spoken of through [`shared_bytes`].
#[verifier::external_type_specification]
#[verifier::external_body]
pub struct ExIpcSharedMemory(ipc_channel::ipc::IpcSharedMemory);

/// The bytes that a region of shared memory holds: what dereferencing the
/// region gives. It is not defined here; the two specifications below are
/// all that is assumed of it.
pub uninterp spec fn shared_bytes(memory: ipc_channel::ipc::IpcSharedMemory) -> Seq<u8>;

/// `IpcSharedMemory::from_bytes` creates a region and copies `bytes` into it
/// (an empty slice gives the empty region). Assumed, not proved: the region
/// holds exactly the bytes it was made from. The call asks the operating
/// system for the memory and does not return if that is refused.
pub assume_specification[ ipc_channel::ipc::IpcSharedMemory::from_bytes ](
    bytes: &[u8],
) -> (memory: ipc_channel::ipc::IpcSharedMemory)
    ensures
        shared_bytes(memory) == bytes@,
;

/// `IpcSharedMemory::deref` lends the region as a slice (the empty slice for
/// the empty region). Assumed, not proved: the slice is what the region
/// holds.
pub assume_specification<'a>[ <ipc_channel::ipc::IpcSharedMemory as core::ops::Deref>::deref ](
    memory: &'a ipc_channel::ipc::IpcSharedMemory,
) -> (bytes: &'a [u8])
    ensures
        bytes@ == shared_bytes(*memory),
;

} // verus!
