//! The buffer as a state machine over plain values: what each operation
//! makes of a buffer, and what it asks the caller to send and to settle.
//!
//! The functions of [`crate::buffer::GPUBuffer`] are proved to compute
//! exactly these steps.
use crate::block::{BlockState, DataView};
use crate::error::{invalid_map_mode_flags, ErrorView};
use crate::identity::{Promise, WebGPUBuffer, WebGPUDevice};
use crate::limits::{
    copy_alignment_unit, length_error, map_alignment_unit, MAX_SAFE_INTEGER, READ, WRITE,
};
use crate::message::{
    DescriptorView, DestroyOutcomeView, HostMap, MapAsyncOutcomeView, MappingView, RequestView,
    SettlementView, UnmapOutcomeView,
};
use std::ops::Range;
use vstd::prelude::*;

verus! {

/// The map state that script sees.
#[derive(Clone, Copy, Debug, PartialEq, Eq, Structural)]
pub enum GPUBufferMapState {
    Unmapped,
    Pending,
    Mapped,
}

/// The map mode flag that stands for an access.
pub open spec fn mode_flag(mode: HostMap) -> u32 {
    match mode {
        HostMap::Read => READ,
        HostMap::Write => WRITE,
    }
}

/// The access that a map mode asks for, if it is exactly one of the two
/// flags.
pub open spec fn host_map_of(mode: u32) -> Option<HostMap> {
    if mode == READ {
        Some(HostMap::Read)
    } else if mode == WRITE {
        Some(HostMap::Write)
    } else {
        None
    }
}

/// The error that ends a request which the device did not fulfil.
pub open spec fn failure(device_lost: bool) -> ErrorView {
    if device_lost {
        ErrorView::Abort
    } else {
        ErrorView::Operation
    }
}

/// Device memory that is visible to script: the bytes with their live
/// windows, the map mode, and the range of the buffer that the bytes stand
/// for. Byte 0 of the block is byte `range.start` of the buffer.
pub struct MappingState {
    pub block: BlockState,
    pub mode: u32,
    pub range: Range<u64>,
}

impl MappingState {
    /// The block is exactly as long as the range, and no longer than
    /// [`MAX_SAFE_INTEGER`].
    pub open spec fn wf(self) -> bool {
        &&& self.block.wf()
        &&& self.range.start <= self.range.end
        &&& self.block.data.len() == self.range.end - self.range.start
        &&& self.block.data.len() <= MAX_SAFE_INTEGER
    }

    /// A mapping of zero bytes over `range`, without windows.
    pub open spec fn fresh(mode: u32, range: Range<u64>) -> MappingState {
        MappingState {
            block: BlockState::zeroed((range.end - range.start) as nat),
            mode,
            range,
        }
    }

    /// The mapping that a completed request installs.
    pub open spec fn installed(mapping: MappingView) -> MappingState {
        MappingState {
            block: BlockState { data: mapping.data, views: Seq::empty() },
            mode: mode_flag(mapping.mode),
            range: mapping.range,
        }
    }

    /// Whether the mode includes write access.
    pub open spec fn writable(self) -> bool {
        self.mode >= WRITE
    }

    /// What goes back to the device when the mapping ends: the bytes with
    /// their range if the mapping is writable, nothing otherwise.
    pub open spec fn write_back(self) -> Option<MappingView> {
        if self.writable() {
            Some(MappingView { data: self.block.data, mode: HostMap::Write, range: self.range })
        } else {
            None
        }
    }

    /// Whether `size` bytes from `offset` of the buffer can be handed out:
    /// the offset and the size are aligned and the bytes lie inside the
    /// mapped range.
    pub open spec fn admits(self, offset: u64, size: u64) -> bool {
        &&& offset % map_alignment_unit() == 0
        &&& size % copy_alignment_unit() == 0
        &&& offset >= self.range.start
        &&& offset + size <= self.range.end
    }

    /// The window over `size` bytes from `offset` of the buffer, counted
    /// from the start of the block.
    pub open spec fn window(self, offset: u64, size: u64) -> DataView {
        DataView {
            start: (offset - self.range.start) as usize,
            end: (offset - self.range.start + size) as usize,
        }
    }
}

/// A buffer: what it was created with, the promise of the pending map
/// request, and the active mapping.
pub struct BufferState {
    pub label: Seq<char>,
    pub buffer: WebGPUBuffer,
    pub device: WebGPUDevice,
    pub size: u64,
    pub usage: u32,
    pub pending_map: Option<Promise>,
    pub mapping: Option<MappingState>,
}

impl BufferState {
    /// The active mapping, if there is one, is well formed.
    pub open spec fn wf(self) -> bool {
        self.mapping matches Some(mapping) ==> mapping.wf()
    }

    /// The buffer that `descriptor` asks for.
    pub open spec fn created(
        device: WebGPUDevice,
        buffer: WebGPUBuffer,
        descriptor: DescriptorView,
    ) -> BufferState {
        BufferState {
            label: descriptor.label,
            buffer,
            device,
            size: descriptor.size,
            usage: descriptor.usage,
            pending_map: None,
            mapping: if descriptor.mapped_at_creation {
                Some(MappingState::fresh(WRITE, 0..descriptor.size))
            } else {
                None
            },
        }
    }

    /// Why `descriptor` cannot be fulfilled, if it cannot.
    pub open spec fn creation_error(descriptor: DescriptorView) -> Option<ErrorView> {
        if descriptor.mapped_at_creation {
            length_error(descriptor.size as int)
        } else {
            None
        }
    }

    /// The map state that script sees.
    pub open spec fn map_state(self) -> GPUBufferMapState {
        if self.mapping.is_some() {
            GPUBufferMapState::Mapped
        } else if self.pending_map.is_some() {
            GPUBufferMapState::Pending
        } else {
            GPUBufferMapState::Unmapped
        }
    }

    /// Whether `view` is a live window into the active mapping.
    pub open spec fn is_live(self, view: DataView) -> bool {
        self.mapping matches Some(mapping) && mapping.block.is_live(view)
    }

    /// The request that asks the device to map.
    pub open spec fn map_request(
        self,
        promise: Promise,
        host_map: HostMap,
        offset: u64,
        size: Option<u64>,
    ) -> RequestView {
        RequestView::BufferMapAsync {
            promise,
            buffer_id: self.buffer,
            device_id: self.device,
            host_map,
            offset,
            size,
        }
    }

    /// A map request for `promise`.
    ///
    /// While a request is pending the new one is rejected and nothing
    /// changes. Otherwise a mode that is exactly read or write makes
    /// `promise` the pending request and asks the device; any other mode is
    /// reported to the device as a validation error and ends `promise` at
    /// once, as a failed request ends.
    pub open spec fn map_async(
        self,
        promise: Promise,
        mode: u32,
        offset: u64,
        size: Option<u64>,
        device_lost: bool,
    ) -> (BufferState, MapAsyncOutcomeView) {
        if self.pending_map.is_some() {
            (
                self,
                MapAsyncOutcomeView {
                    settled: Some(SettlementView::rejected(promise, ErrorView::Operation)),
                    device_error: None,
                    request: None,
                },
            )
        } else {
            match host_map_of(mode) {
                Some(host_map) => (
                    BufferState { pending_map: Some(promise), ..self },
                    MapAsyncOutcomeView {
                        settled: None,
                        device_error: None,
                        request: Some(self.map_request(promise, host_map, offset, size)),
                    },
                ),
                None => (
                    self,
                    MapAsyncOutcomeView {
                        settled: Some(SettlementView::rejected(promise, failure(device_lost))),
                        device_error: Some(invalid_map_mode_flags()),
                        request: None,
                    },
                ),
            }
        }
    }

    /// The request of `promise` failed. Unless `promise` is the pending
    /// request nothing happens; if it is, it is rejected and no request is
    /// pending any more.
    pub open spec fn map_failure(self, promise: Promise, device_lost: bool) -> (
        BufferState,
        Option<SettlementView>,
    ) {
        if self.pending_map == Some(promise) {
            (
                BufferState { pending_map: None, ..self },
                Some(SettlementView::rejected(promise, failure(device_lost))),
            )
        } else {
            (self, None)
        }
    }

    /// The device mapped what `promise` asked for. Unless `promise` is the
    /// pending request nothing happens; if it is, the mapping is installed
    /// and `promise` resolves, or, if the mapping is too long, `promise` is
    /// rejected and nothing is installed. No request is pending afterwards.
    pub open spec fn map_success(self, promise: Promise, mapping: MappingView) -> (
        BufferState,
        Option<SettlementView>,
    ) {
        if self.pending_map == Some(promise) {
            match length_error(mapping.range.end - mapping.range.start) {
                Some(error) => (
                    BufferState { pending_map: None, ..self },
                    Some(SettlementView::rejected(promise, error)),
                ),
                None => (
                    BufferState {
                        pending_map: None,
                        mapping: Some(MappingState::installed(mapping)),
                        ..self
                    },
                    Some(SettlementView::resolved(promise)),
                ),
            }
        } else {
            (self, None)
        }
    }

    /// The device answered the request of `promise`, with a mapping or with
    /// a failure.
    pub open spec fn handle_response(
        self,
        response: Option<MappingView>,
        promise: Promise,
        device_lost: bool,
    ) -> (BufferState, Option<SettlementView>) {
        match response {
            Some(mapping) => self.map_success(promise, mapping),
            None => self.map_failure(promise, device_lost),
        }
    }

    /// The number of bytes that a range from `offset` covers: `size`, or,
    /// without one, what is left of the buffer after `offset`.
    pub open spec fn range_size(self, offset: u64, size: Option<u64>) -> u64 {
        match size {
            Some(size) => size,
            None => if self.size >= offset {
                (self.size - offset) as u64
            } else {
                0
            },
        }
    }

    /// Whether a window over the range from `offset` can be handed out: the
    /// buffer is mapped and the mapping admits the range.
    pub open spec fn admits_range(self, offset: u64, size: Option<u64>) -> bool {
        self.mapping matches Some(mapping) && mapping.admits(offset, self.range_size(offset, size))
    }

    /// Asks for a window over the range from `offset`. The window is
    /// registered with the mapping, or the request fails and nothing
    /// changes.
    pub open spec fn get_mapped_range(self, offset: u64, size: Option<u64>) -> (
        BufferState,
        Result<DataView, ErrorView>,
    ) {
        if self.admits_range(offset, size) {
            let mapping = self.mapping.unwrap();
            let view = mapping.window(offset, self.range_size(offset, size));
            (
                BufferState {
                    mapping: Some(MappingState { block: mapping.block.with_view(view), ..mapping }),
                    ..self
                },
                Ok(view),
            )
        } else {
            (self, Err(ErrorView::Operation))
        }
    }

    /// Writes `bytes` through `view`, `offset` bytes after its start, if the
    /// window is live and the bytes fit.
    pub open spec fn write_view(self, view: DataView, offset: usize, bytes: Seq<u8>) -> (
        BufferState,
        bool,
    ) {
        if self.is_live(view) && self.mapping.unwrap().block.accepts_write(
            view,
            offset,
            bytes.len(),
        ) {
            let mapping = self.mapping.unwrap();
            (
                BufferState {
                    mapping: Some(
                        MappingState { block: mapping.block.written(view, offset, bytes), ..mapping },
                    ),
                    ..self
                },
                true,
            )
        } else {
            (self, false)
        }
    }

    /// The bytes under `view`, if the window is live.
    pub open spec fn read_view(self, view: DataView) -> Option<Seq<u8>> {
        if self.is_live(view) {
            Some(self.mapping.unwrap().block.bytes_of(view))
        } else {
            None
        }
    }

    /// Unmaps. A pending request is cut short; a mapping ends, and the
    /// device is told, with the bytes if the mapping was writable.
    pub open spec fn unmap(self) -> (BufferState, UnmapOutcomeView) {
        (
            BufferState { pending_map: None, mapping: None, ..self },
            UnmapOutcomeView {
                settled: match self.pending_map {
                    Some(promise) => Some(SettlementView::rejected(promise, ErrorView::Abort)),
                    None => None,
                },
                request: match self.mapping {
                    Some(mapping) => Some(
                        RequestView::UnmapBuffer {
                            buffer_id: self.buffer,
                            mapping: mapping.write_back(),
                        },
                    ),
                    None => None,
                },
            },
        )
    }

    /// Destroys: unmaps, then tells the device that the buffer is gone.
    pub open spec fn destroy(self) -> (BufferState, DestroyOutcomeView) {
        (
            self.unmap().0,
            DestroyOutcomeView {
                unmap: self.unmap().1,
                request: RequestView::DestroyBuffer(self.buffer),
            },
        )
    }
}

} // verus!
