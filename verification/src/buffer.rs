//! The buffer and its active mapping.
use crate::block::{DataBlock, DataView};
use crate::error::{Error, ValidationError};
use crate::identity::{Promise, WebGPUBuffer, WebGPUDevice};
use crate::limits::{
    copy_buffer_alignment, length_error, map_alignment, MAX_SAFE_INTEGER, READ, WRITE,
};
use crate::message::{
    DestroyOutcome, GPUBufferDescriptor, HostMap, MapAsyncOutcome, Mapping, Settlement,
    UnmapOutcome, WebGPURequest, settled_view,
};
use crate::state::{BufferState, GPUBufferMapState, MappingState};
use ipc_channel::ipc::IpcSharedMemory;
use std::ops::Range;
use vstd::prelude::*;
use wgpu_core::resource::BufferAccessError;

verus! {

/// Device memory that is visible to script.
#[derive(Debug)]
pub struct ActiveBufferMapping {
    data: DataBlock,
    mode: u32,
    range: Range<u64>,
}

impl View for ActiveBufferMapping {
    type V = MappingState;

    closed spec fn view(&self) -> MappingState {
        MappingState { block: self.data.state(), mode: self.mode, range: self.range }
    }
}

/// The view of a mapping that may be absent.
pub open spec fn mapping_view(mapping: Option<ActiveBufferMapping>) -> Option<MappingState> {
    match mapping {
        Some(mapping) => Some(mapping@),
        None => None,
    }
}

impl ActiveBufferMapping {
    #[verifier::type_invariant]
    spec fn inv(self) -> bool {
        self@.wf()
    }

    /// A mapping of zero bytes over `range`, or a range error if the range
    /// is longer than [`MAX_SAFE_INTEGER`] bytes or than `usize` can hold.
    pub fn new(mode: u32, range: Range<u64>) -> (r: Result<Self, Error>)
        requires
            range.start <= range.end,
        ensures
            match r {
                Ok(mapping) => length_error(range.end - range.start).is_none() && mapping@
                    == MappingState::fresh(mode, range) && mapping@.wf(),
                Err(error) => length_error(range.end - range.start) == Some(error@),
            },
    {
        let size: u64 = range.end - range.start;
        if size > MAX_SAFE_INTEGER {
            return Err(Error::range_over_max_safe_integer());
        }
        if size > usize::MAX as u64 {
            return Err(Error::range_over_usize());
        }
        let data = DataBlock::new_zeroed(size as usize);
        Ok(ActiveBufferMapping { data, mode, range })
    }
}

/// A buffer of device memory, as script holds it.
#[derive(Debug)]
pub struct GPUBuffer {
    label: String,
    buffer: WebGPUBuffer,
    device: WebGPUDevice,
    size: u64,
    usage: u32,
    pending_map: Option<Promise>,
    mapping: Option<ActiveBufferMapping>,
}

impl View for GPUBuffer {
    type V = BufferState;

    closed spec fn view(&self) -> BufferState {
        BufferState {
            label: self.label@,
            buffer: self.buffer,
            device: self.device,
            size: self.size,
            usage: self.usage,
            pending_map: self.pending_map,
            mapping: mapping_view(self.mapping),
        }
    }
}

impl GPUBuffer {
    fn new_inherited(
        buffer: WebGPUBuffer,
        device: WebGPUDevice,
        size: u64,
        usage: u32,
        mapping: Option<ActiveBufferMapping>,
        label: String,
    ) -> (created: Self)
        ensures
            created@ == (BufferState {
                label: label@,
                buffer,
                device,
                size,
                usage,
                pending_map: None,
                mapping: mapping_view(mapping),
            }),
    {
        GPUBuffer { label, buffer, device, size, usage, pending_map: None, mapping }
    }

    /// A buffer without a pending request.
    pub fn new(
        buffer: WebGPUBuffer,
        device: WebGPUDevice,
        size: u64,
        usage: u32,
        mapping: Option<ActiveBufferMapping>,
        label: String,
    ) -> (created: Self)
        ensures
            created@ == (BufferState {
                label: label@,
                buffer,
                device,
                size,
                usage,
                pending_map: None,
                mapping: mapping_view(mapping),
            }),
            created@.wf(),
    {
        let created = GPUBuffer::new_inherited(buffer, device, size, usage, mapping, label);
        created.well_formed();
        created
    }

    /// Brings the invariant of the active mapping into view.
    fn well_formed(&self)
        ensures
            self@.wf(),
    {
        match &self.mapping {
            Some(mapping) => {
                proof {
                    use_type_invariant(mapping);
                }
            },
            None => {},
        }
    }

    /// Whether `promise` is the promise of the pending request.
    fn is_pending(&self, promise: Promise) -> (pending: bool)
        ensures
            pending == (self@.pending_map == Some(promise)),
    {
        match self.pending_map {
            Some(pending) => pending.0 == promise.0,
            None => false,
        }
    }

    /// The handle of the buffer on the device.
    pub fn id(&self) -> (id: WebGPUBuffer)
        ensures
            id == self@.buffer,
    {
        self.buffer
    }

    /// Creates the buffer that `descriptor` asks for, under the handle
    /// `buffer_id` on `device`, together with the request that makes the
    /// device create it.
    ///
    /// A buffer that is mapped at creation starts with a writable mapping
    /// of zero bytes over all of it. If that mapping would be too long, no
    /// buffer is created and nothing is to be sent.
    pub fn create(device: WebGPUDevice, buffer_id: WebGPUBuffer, descriptor: &GPUBufferDescriptor) -> (r:
        Result<(GPUBuffer, WebGPURequest), Error>)
        ensures
            match r {
                Ok((created, request)) => {
                    &&& BufferState::creation_error(descriptor@).is_none()
                    &&& created@ == BufferState::created(device, buffer_id, descriptor@)
                    &&& created@.wf()
                    &&& request@ == (crate::message::RequestView::CreateBuffer {
                        device_id: device,
                        buffer_id,
                        descriptor: descriptor@,
                    })
                },
                Err(error) => BufferState::creation_error(descriptor@) == Some(error@),
            },
    {
        let mapping = if descriptor.mapped_at_creation {
            match ActiveBufferMapping::new(WRITE, 0..descriptor.size) {
                Ok(mapping) => Some(mapping),
                Err(error) => {
                    return Err(error);
                },
            }
        } else {
            None
        };
        let request = WebGPURequest::CreateBuffer {
            device_id: device,
            buffer_id,
            descriptor: GPUBufferDescriptor {
                label: descriptor.label.clone(),
                size: descriptor.size,
                usage: descriptor.usage,
                mapped_at_creation: descriptor.mapped_at_creation,
            },
        };
        let created = GPUBuffer::new(
            buffer_id,
            device,
            descriptor.size,
            descriptor.usage,
            mapping,
            descriptor.label.clone(),
        );
        Ok((created, request))
    }

    /// Asks the device to map the range from `offset`, for `promise`.
    ///
    /// While a request is pending the new one is rejected at once. Only a
    /// pending request stands in the way: a buffer that is mapped takes the
    /// request as an unmapped one does, and the device decides. The range is
    /// not looked at here either; a mapping that is too long is turned down
    /// when it arrives.
    ///
    /// The outcome holds the request to send. If sending it fails, the
    /// caller reports that with [`GPUBuffer::map_failure`].
    pub fn MapAsync(
        &mut self,
        promise: Promise,
        mode: u32,
        offset: u64,
        size: Option<u64>,
        device_lost: bool,
    ) -> (out: MapAsyncOutcome)
        ensures
            final(self)@ == old(self)@.map_async(promise, mode, offset, size, device_lost).0,
            out@ == old(self)@.map_async(promise, mode, offset, size, device_lost).1,
            final(self)@.wf(),
    {
        self.well_formed();
        if self.pending_map.is_some() {
            return MapAsyncOutcome {
                settled: Some(Settlement { promise, result: Err(Error::Operation) }),
                device_error: None,
                request: None,
            };
        }
        self.pending_map = Some(promise);
        let host_map = if mode == READ {
            HostMap::Read
        } else if mode == WRITE {
            HostMap::Write
        } else {
            let error = ValidationError { message: "Invalid MapModeFlags".to_string() };
            let settled = self.map_failure(promise, device_lost);
            return MapAsyncOutcome { settled, device_error: Some(error), request: None };
        };
        MapAsyncOutcome {
            settled: None,
            device_error: None,
            request: Some(
                WebGPURequest::BufferMapAsync {
                    promise,
                    buffer_id: self.buffer,
                    device_id: self.device,
                    host_map,
                    offset,
                    size,
                },
            ),
        }
    }

    /// The request of `promise` failed: the device refused it, or it could
    /// not be sent. A promise that is not the pending one is ignored.
    pub fn map_failure(&mut self, promise: Promise, device_lost: bool) -> (settled: Option<
        Settlement,
    >)
        ensures
            final(self)@ == old(self)@.map_failure(promise, device_lost).0,
            settled_view(settled) == old(self)@.map_failure(promise, device_lost).1,
            final(self)@.wf(),
    {
        self.well_formed();
        if !self.is_pending(promise) {
            return None;
        }
        self.pending_map = None;
        if device_lost {
            Some(Settlement { promise, result: Err(Error::Abort) })
        } else {
            Some(Settlement { promise, result: Err(Error::Operation) })
        }
    }

    /// The device mapped what `promise` asked for. A promise that is not the
    /// pending one is ignored.
    pub fn map_success(&mut self, promise: Promise, wgpu_mapping: Mapping) -> (settled: Option<
        Settlement,
    >)
        ensures
            final(self)@ == old(self)@.map_success(promise, wgpu_mapping@).0,
            settled_view(settled) == old(self)@.map_success(promise, wgpu_mapping@).1,
            final(self)@.wf(),
    {
        self.well_formed();
        if !self.is_pending(promise) {
            return None;
        }
        let mode = match wgpu_mapping.mode() {
            HostMap::Read => READ,
            HostMap::Write => WRITE,
        };
        let bytes = wgpu_mapping.data();
        match ActiveBufferMapping::new(mode, wgpu_mapping.range()) {
            Err(error) => {
                self.pending_map = None;
                Some(Settlement { promise, result: Err(error) })
            },
            Ok(mapping) => {
                let ActiveBufferMapping { data, mode, range } = mapping;
                let mut data = data;
                data.load(bytes);
                self.mapping = Some(ActiveBufferMapping { data, mode, range });
                self.pending_map = None;
                Some(Settlement { promise, result: Ok(()) })
            },
        }
    }

    /// The device answered the request of `promise`: with a mapping, or with
    /// a failure, whose reason plays no part.
    pub fn handle_response(
        &mut self,
        response: Result<Mapping, BufferAccessError>,
        promise: Promise,
        device_lost: bool,
    ) -> (settled: Option<Settlement>)
        ensures
            final(self)@ == old(self)@.handle_response(
                response_view(response),
                promise,
                device_lost,
            ).0,
            settled_view(settled) == old(self)@.handle_response(
                response_view(response),
                promise,
                device_lost,
            ).1,
            final(self)@.wf(),
    {
        match response {
            Ok(mapping) => self.map_success(promise, mapping),
            Err(_) => self.map_failure(promise, device_lost),
        }
    }

    /// Hands out a window over `size` bytes from `offset` of the buffer, or
    /// over the rest of the buffer where no size is given.
    ///
    /// This succeeds exactly if the buffer is mapped, `offset` is a multiple
    /// of the map alignment, the size is a multiple of the copy alignment,
    /// and the bytes lie inside the mapped range.
    pub fn GetMappedRange(&mut self, offset: u64, size: Option<u64>) -> (r: Result<
        DataView,
        Error,
    >)
        ensures
            r.is_ok() <==> old(self)@.admits_range(offset, size),
            final(self)@ == old(self)@.get_mapped_range(offset, size).0,
            match r {
                Ok(view) => old(self)@.get_mapped_range(offset, size).1 == Ok::<
                    DataView,
                    crate::error::ErrorView,
                >(view),
                Err(error) => old(self)@.get_mapped_range(offset, size).1 == Err::<
                    DataView,
                    crate::error::ErrorView,
                >(error@),
            },
            r matches Ok(view) ==> final(self)@.is_live(view) && view.size() == old(
                self,
            )@.range_size(offset, size),
            final(self)@.wf(),
    {
        self.well_formed();
        let range_size: u64 = match size {
            Some(size) => size,
            None => if self.size >= offset {
                self.size - offset
            } else {
                0
            },
        };
        let mapping = match self.mapping.take() {
            Some(mapping) => mapping,
            None => {
                return Err(Error::Operation);
            },
        };
        proof {
            use_type_invariant(&mapping);
        }
        let valid = offset % map_alignment() == 0 && range_size % copy_buffer_alignment() == 0
            && offset >= mapping.range.start && offset <= mapping.range.end && range_size
            <= mapping.range.end - offset;
        if !valid {
            self.mapping = Some(mapping);
            return Err(Error::Operation);
        }
        let extent: usize = mapping.data.len();
        assert(extent == mapping.range.end - mapping.range.start);
        let rebased_offset: usize = (offset - mapping.range.start) as usize;
        let ActiveBufferMapping { data, mode, range } = mapping;
        let mut data = data;
        let carved = data.view(rebased_offset..rebased_offset + range_size as usize);
        self.mapping = Some(ActiveBufferMapping { data, mode, range });
        match carved {
            Ok(view) => Ok(view),
            Err(_) => Err(Error::Operation),
        }
    }

    /// Writes `bytes` through `view`, `offset` bytes after its start.
    /// Nothing is written, and `false` returned, if the window is not a
    /// live window of the active mapping or the bytes do not fit into it.
    pub fn write_view(&mut self, view: &DataView, offset: usize, bytes: &[u8]) -> (done: bool)
        ensures
            final(self)@ == old(self)@.write_view(*view, offset, bytes@).0,
            done == old(self)@.write_view(*view, offset, bytes@).1,
            final(self)@.wf(),
    {
        self.well_formed();
        match self.mapping.take() {
            Some(mapping) => {
                proof {
                    use_type_invariant(&mapping);
                }
                let ActiveBufferMapping { data, mode, range } = mapping;
                let mut data = data;
                let done = data.write(view, offset, bytes);
                self.mapping = Some(ActiveBufferMapping { data, mode, range });
                done
            },
            None => false,
        }
    }

    /// The bytes under `view`, or `None` if it is not a live window of the
    /// active mapping.
    pub fn read_view(&self, view: &DataView) -> (r: Option<Vec<u8>>)
        ensures
            match r {
                Some(bytes) => self@.read_view(*view) == Some(bytes@),
                None => self@.read_view(*view).is_none(),
            },
    {
        match &self.mapping {
            Some(mapping) => mapping.data.read(view),
            None => None,
        }
    }

    /// Ends the mapping and cuts a pending request short.
    ///
    /// Afterwards the buffer is unmapped and no window is live. The outcome
    /// holds the promise to reject and, if there was a mapping, the request
    /// that tells the device, with the bytes if the mapping was writable.
    pub fn Unmap(&mut self) -> (out: UnmapOutcome)
        ensures
            final(self)@ == old(self)@.unmap().0,
            out@ == old(self)@.unmap().1,
            final(self)@.map_state() == GPUBufferMapState::Unmapped,
            forall|view: DataView| !final(self)@.is_live(view),
            final(self)@.wf(),
    {
        let settled = match self.pending_map.take() {
            Some(promise) => Some(Settlement { promise, result: Err(Error::Abort) }),
            None => None,
        };
        let mapping = match self.mapping.take() {
            Some(mapping) => mapping,
            None => {
                return UnmapOutcome { settled, request: None };
            },
        };
        proof {
            use_type_invariant(&mapping);
        }
        let ActiveBufferMapping { data, mode, range } = mapping;
        let mut data = data;
        data.clear_views();
        let written = if mode >= WRITE {
            Mapping::new(IpcSharedMemory::from_bytes(data.data()), HostMap::Write, range)
        } else {
            None
        };
        UnmapOutcome {
            settled,
            request: Some(WebGPURequest::UnmapBuffer { buffer_id: self.buffer, mapping: written }),
        }
    }

    /// Unmaps, then tells the device that the buffer is gone.
    pub fn Destroy(&mut self) -> (out: DestroyOutcome)
        ensures
            final(self)@ == old(self)@.destroy().0,
            out@ == old(self)@.destroy().1,
            final(self)@.wf(),
    {
        let unmap = self.Unmap();
        DestroyOutcome { unmap, request: WebGPURequest::DestroyBuffer(self.buffer) }
    }

    /// The label.
    pub fn Label(&self) -> (label: String)
        ensures
            label@ == self@.label,
    {
        self.label.clone()
    }

    /// Replaces the label. Nothing else changes.
    pub fn SetLabel(&mut self, value: String)
        ensures
            final(self)@ == (BufferState { label: value@, ..old(self)@ }),
    {
        self.label = value;
    }

    /// The size in bytes that the buffer was created with.
    pub fn Size(&self) -> (size: u64)
        ensures
            size == self@.size,
    {
        self.size
    }

    /// The usage flags that the buffer was created with.
    pub fn Usage(&self) -> (usage: u32)
        ensures
            usage == self@.usage,
    {
        self.usage
    }

    /// The map state that script sees.
    pub fn MapState(&self) -> (state: GPUBufferMapState)
        ensures
            state == self@.map_state(),
    {
        if self.mapping.is_some() {
            GPUBufferMapState::Mapped
        } else if self.pending_map.is_some() {
            GPUBufferMapState::Pending
        } else {
            GPUBufferMapState::Unmapped
        }
    }

    /// The promise of the pending map request, if one is pending.
    pub fn pending_map(&self) -> (pending: Option<Promise>)
        ensures
            pending == self@.pending_map,
    {
        self.pending_map
    }
}

/// The view of an answer of the device: the mapping, or nothing for a
/// failure.
pub open spec fn response_view(response: Result<Mapping, BufferAccessError>) -> Option<
    crate::message::MappingView,
> {
    match response {
        Ok(mapping) => Some(mapping@),
        Err(_) => None,
    }
}

} // verus!
