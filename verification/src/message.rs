//! What a buffer exchanges with the device and with the holders of
//! promises: requests, completed mappings, settlements.
use crate::error::{Error, ErrorView, ValidationError};
use crate::identity::{Promise, WebGPUBuffer, WebGPUDevice};
use crate::limits::{length_error, MAX_SAFE_INTEGER};
use crate::shared_memory::shared_bytes;
use core::ops::Deref;
use ipc_channel::ipc::IpcSharedMemory;
use std::ops::Range;
use vstd::prelude::*;

verus! {

/// `wgpu_core::resource::BufferAccessError`, the reason the device gives when
/// it does not map a buffer. The buffer passes it through unread.
#[verifier::external_type_specification]
#[verifier::external_body]
pub struct ExBufferAccessError(wgpu_core::resource::BufferAccessError);

/// The access that the host has to mapped memory.
#[derive(Clone, Copy, Debug, PartialEq, Eq, Structural)]
pub enum HostMap {
    Read,
    Write,
}

/// A stretch of buffer memory in transit between the buffer and the device:
/// the bytes, the range of the buffer that they belong to, and the access
/// that they were mapped for.
///
/// The bytes are exactly as long as the range. Only a range that is too
/// long to be mapped at all says nothing about its bytes.
#[derive(Debug, PartialEq)]
pub struct Mapping {
    data: IpcSharedMemory,
    mode: HostMap,
    range: Range<u64>,
}

/// A [`Mapping`] with its bytes as a sequence.
pub struct MappingView {
    pub data: Seq<u8>,
    pub mode: HostMap,
    pub range: Range<u64>,
}

impl MappingView {
    /// The range is not inverted, and unless it is too long to be mapped
    /// the bytes are exactly as long as it.
    pub open spec fn wf(self) -> bool {
        &&& self.range.start <= self.range.end
        &&& length_error(self.range.end - self.range.start).is_none() ==> self.data.len()
            == self.range.end - self.range.start
    }
}

impl View for Mapping {
    type V = MappingView;

    closed spec fn view(&self) -> MappingView {
        MappingView { data: shared_bytes(self.data), mode: self.mode, range: self.range }
    }
}

impl Mapping {
    #[verifier::type_invariant]
    spec fn inv(self) -> bool {
        self@.wf()
    }

    /// Puts a mapping together, unless the range is inverted or the bytes
    /// are not as long as a range that can be mapped.
    pub fn new(data: IpcSharedMemory, mode: HostMap, range: Range<u64>) -> (r: Option<Mapping>)
        ensures
            r.is_some() <==> (MappingView { data: shared_bytes(data), mode, range }).wf(),
            r matches Some(mapping) ==> mapping@ == (MappingView {
                data: shared_bytes(data),
                mode,
                range,
            }),
    {
        if range.start > range.end {
            return None;
        }
        let span: u64 = range.end - range.start;
        if span <= MAX_SAFE_INTEGER && span <= usize::MAX as u64 {
            let len: usize = data.deref().len();
            if len as u64 != span {
                return None;
            }
        }
        Some(Mapping { data, mode, range })
    }

    /// The bytes.
    pub fn data(&self) -> (bytes: &[u8])
        ensures
            bytes@ == self@.data,
            self@.wf(),
    {
        proof {
            use_type_invariant(self);
        }
        self.data.deref()
    }

    /// The access that the bytes were mapped for.
    pub fn mode(&self) -> (mode: HostMap)
        ensures
            mode == self@.mode,
    {
        self.mode
    }

    /// Takes the mapping apart: the shared memory, the access, the range.
    pub fn into_parts(self) -> (parts: (IpcSharedMemory, HostMap, Range<u64>))
        ensures
            self@ == (MappingView { data: shared_bytes(parts.0), mode: parts.1, range: parts.2 }),
            self@.wf(),
    {
        proof {
            use_type_invariant(&self);
        }
        (self.data, self.mode, self.range)
    }

    /// The range of the buffer that the bytes belong to.
    pub fn range(&self) -> (range: Range<u64>)
        ensures
            range == self@.range,
    {
        self.range.start..self.range.end
    }
}

/// What a buffer is created from.
#[derive(Clone, Debug, PartialEq, Eq)]
pub struct GPUBufferDescriptor {
    pub label: String,
    pub size: u64,
    pub usage: u32,
    pub mapped_at_creation: bool,
}

/// A [`GPUBufferDescriptor`] with its label as a sequence of characters.
pub struct DescriptorView {
    pub label: Seq<char>,
    pub size: u64,
    pub usage: u32,
    pub mapped_at_creation: bool,
}

impl View for GPUBufferDescriptor {
    type V = DescriptorView;

    open spec fn view(&self) -> DescriptorView {
        DescriptorView {
            label: self.label@,
            size: self.size,
            usage: self.usage,
            mapped_at_creation: self.mapped_at_creation,
        }
    }
}

/// A request to the device.
#[derive(Debug, PartialEq)]
pub enum WebGPURequest {
    /// Create the buffer `buffer_id` on `device_id`.
    CreateBuffer { device_id: WebGPUDevice, buffer_id: WebGPUBuffer, descriptor: GPUBufferDescriptor },
    /// Map a range of the buffer; the answer completes `promise`.
    BufferMapAsync {
        promise: Promise,
        buffer_id: WebGPUBuffer,
        device_id: WebGPUDevice,
        host_map: HostMap,
        offset: u64,
        size: Option<u64>,
    },
    /// The buffer was unmapped; `mapping` carries what was written, if the
    /// mapping allowed writing.
    UnmapBuffer { buffer_id: WebGPUBuffer, mapping: Option<Mapping> },
    /// The buffer was destroyed.
    DestroyBuffer(WebGPUBuffer),
}

/// A [`WebGPURequest`] over views.
pub enum RequestView {
    CreateBuffer { device_id: WebGPUDevice, buffer_id: WebGPUBuffer, descriptor: DescriptorView },
    BufferMapAsync {
        promise: Promise,
        buffer_id: WebGPUBuffer,
        device_id: WebGPUDevice,
        host_map: HostMap,
        offset: u64,
        size: Option<u64>,
    },
    UnmapBuffer { buffer_id: WebGPUBuffer, mapping: Option<MappingView> },
    DestroyBuffer(WebGPUBuffer),
}

impl View for WebGPURequest {
    type V = RequestView;

    open spec fn view(&self) -> RequestView {
        match self {
            WebGPURequest::CreateBuffer { device_id, buffer_id, descriptor } => {
                RequestView::CreateBuffer {
                    device_id: *device_id,
                    buffer_id: *buffer_id,
                    descriptor: descriptor@,
                }
            },
            WebGPURequest::BufferMapAsync {
                promise,
                buffer_id,
                device_id,
                host_map,
                offset,
                size,
            } => RequestView::BufferMapAsync {
                promise: *promise,
                buffer_id: *buffer_id,
                device_id: *device_id,
                host_map: *host_map,
                offset: *offset,
                size: *size,
            },
            WebGPURequest::UnmapBuffer { buffer_id, mapping } => RequestView::UnmapBuffer {
                buffer_id: *buffer_id,
                mapping: match mapping {
                    Some(mapping) => Some(mapping@),
                    None => None,
                },
            },
            WebGPURequest::DestroyBuffer(buffer_id) => RequestView::DestroyBuffer(*buffer_id),
        }
    }
}

/// The view of a request that may be absent.
pub open spec fn request_view(request: Option<WebGPURequest>) -> Option<RequestView> {
    match request {
        Some(request) => Some(request@),
        None => None,
    }
}

/// The end of a promise: resolved, or rejected with an error.
#[derive(Debug, PartialEq, Eq)]
pub struct Settlement {
    pub promise: Promise,
    pub result: Result<(), Error>,
}

/// A [`Settlement`] over views.
pub struct SettlementView {
    pub promise: Promise,
    pub result: Result<(), ErrorView>,
}

impl SettlementView {
    /// `promise` resolves.
    pub open spec fn resolved(promise: Promise) -> SettlementView {
        SettlementView { promise, result: Ok(()) }
    }

    /// `promise` is rejected with `error`.
    pub open spec fn rejected(promise: Promise, error: ErrorView) -> SettlementView {
        SettlementView { promise, result: Err(error) }
    }
}

impl View for Settlement {
    type V = SettlementView;

    open spec fn view(&self) -> SettlementView {
        SettlementView {
            promise: self.promise,
            result: match self.result {
                Ok(_) => Ok(()),
                Err(error) => Err(error@),
            },
        }
    }
}

/// The view of a settlement that may be absent.
pub open spec fn settled_view(settled: Option<Settlement>) -> Option<SettlementView> {
    match settled {
        Some(settled) => Some(settled@),
        None => None,
    }
}

/// What a map request led to.
#[derive(Debug, PartialEq)]
pub struct MapAsyncOutcome {
    /// The promise of the request, if the request ended at once.
    pub settled: Option<Settlement>,
    /// What the device is to be told of the request itself.
    pub device_error: Option<ValidationError>,
    /// What is to be sent to the device.
    pub request: Option<WebGPURequest>,
}

/// A [`MapAsyncOutcome`] over views.
pub struct MapAsyncOutcomeView {
    pub settled: Option<SettlementView>,
    pub device_error: Option<Seq<char>>,
    pub request: Option<RequestView>,
}

impl View for MapAsyncOutcome {
    type V = MapAsyncOutcomeView;

    open spec fn view(&self) -> MapAsyncOutcomeView {
        MapAsyncOutcomeView {
            settled: settled_view(self.settled),
            device_error: match self.device_error {
                Some(error) => Some(error.message@),
                None => None,
            },
            request: request_view(self.request),
        }
    }
}

/// What unmapping led to.
#[derive(Debug, PartialEq)]
pub struct UnmapOutcome {
    /// The pending promise that was cut short, if there was one.
    pub settled: Option<Settlement>,
    /// What is to be sent to the device, if there was a mapping.
    pub request: Option<WebGPURequest>,
}

/// An [`UnmapOutcome`] over views.
pub struct UnmapOutcomeView {
    pub settled: Option<SettlementView>,
    pub request: Option<RequestView>,
}

impl View for UnmapOutcome {
    type V = UnmapOutcomeView;

    open spec fn view(&self) -> UnmapOutcomeView {
        UnmapOutcomeView {
            settled: settled_view(self.settled),
            request: request_view(self.request),
        }
    }
}

impl UnmapOutcomeView {
    /// The bytes that go back to the device, if any do.
    pub open spec fn write_back(self) -> Option<MappingView> {
        match self.request {
            Some(RequestView::UnmapBuffer { buffer_id, mapping }) => mapping,
            _ => None,
        }
    }
}

/// What destroying led to.
#[derive(Debug, PartialEq)]
pub struct DestroyOutcome {
    /// What the unmapping that comes first led to.
    pub unmap: UnmapOutcome,
    /// What is to be sent to the device after that.
    pub request: WebGPURequest,
}

/// A [`DestroyOutcome`] over views.
pub struct DestroyOutcomeView {
    pub unmap: UnmapOutcomeView,
    pub request: RequestView,
}

impl View for DestroyOutcome {
    type V = DestroyOutcomeView;

    open spec fn view(&self) -> DestroyOutcomeView {
        DestroyOutcomeView { unmap: self.unmap@, request: self.request@ }
    }
}

} // verus!
