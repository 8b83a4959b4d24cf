use buffer_mapping::block::DataView;
use buffer_mapping::buffer::{ActiveBufferMapping, GPUBuffer};
use buffer_mapping::error::{Error, ValidationError};
use buffer_mapping::identity::{Promise, WebGPUBuffer, WebGPUDevice};
use buffer_mapping::limits::{READ, WRITE};
use buffer_mapping::message::{
    DestroyOutcome, GPUBufferDescriptor, HostMap, MapAsyncOutcome, Mapping, Settlement,
    UnmapOutcome, WebGPURequest,
};
use buffer_mapping::state::GPUBufferMapState;
use ipc_channel::ipc::IpcSharedMemory;
use wgpu_core::resource::BufferAccessError;

const DEVICE: WebGPUDevice = WebGPUDevice(3);
const BUFFER: WebGPUBuffer = WebGPUBuffer(11);

fn descriptor(size: u64, mapped_at_creation: bool) -> GPUBufferDescriptor {
    GPUBufferDescriptor { label: String::from("vertices"), size, usage: 0x0002 | 0x0008, mapped_at_creation }
}

fn buffer(size: u64) -> GPUBuffer {
    GPUBuffer::create(DEVICE, BUFFER, &descriptor(size, false)).unwrap().0
}

fn mapping(bytes: &[u8], mode: HostMap, range: std::ops::Range<u64>) -> Mapping {
    Mapping::new(IpcSharedMemory::from_bytes(bytes), mode, range).unwrap()
}

fn rejected(promise: Promise, error: Error) -> Option<Settlement> {
    Some(Settlement { promise, result: Err(error) })
}

fn mapped(size: u64, mode: HostMap, range: std::ops::Range<u64>, bytes: &[u8]) -> GPUBuffer {
    let mut buffer = buffer(size);
    let flag = match mode {
        HostMap::Read => READ,
        HostMap::Write => WRITE,
    };
    let out = buffer.MapAsync(Promise(1), flag, range.start, Some(range.end - range.start), false);
    assert!(out.request.is_some());
    let settled = buffer.handle_response(Ok(mapping(bytes, mode, range)), Promise(1), false);
    assert_eq!(settled, Some(Settlement { promise: Promise(1), result: Ok(()) }));
    buffer
}

#[test]
fn create_gives_an_unmapped_buffer_and_the_request() {
    let (buffer, request) = GPUBuffer::create(DEVICE, BUFFER, &descriptor(256, false)).unwrap();
    assert_eq!(buffer.MapState(), GPUBufferMapState::Unmapped);
    assert_eq!(buffer.id(), BUFFER);
    assert_eq!(buffer.Size(), 256);
    assert_eq!(buffer.Usage(), 0x000a);
    assert_eq!(buffer.Label(), "vertices");
    assert_eq!(buffer.pending_map(), None);
    assert_eq!(
        request,
        WebGPURequest::CreateBuffer {
            device_id: DEVICE,
            buffer_id: BUFFER,
            descriptor: descriptor(256, false),
        }
    );
}

#[test]
fn create_mapped_at_creation_starts_mapped_for_writing() {
    let (mut buffer, request) = GPUBuffer::create(DEVICE, BUFFER, &descriptor(16, true)).unwrap();
    assert_eq!(buffer.MapState(), GPUBufferMapState::Mapped);
    assert_eq!(
        request,
        WebGPURequest::CreateBuffer {
            device_id: DEVICE,
            buffer_id: BUFFER,
            descriptor: descriptor(16, true),
        }
    );
    let view = buffer.GetMappedRange(0, None).unwrap();
    assert_eq!(view, DataView { start: 0, end: 16 });
    assert_eq!(buffer.read_view(&view), Some(vec![0u8; 16]));
    assert!(buffer.write_view(&view, 4, &[1, 2, 3]));
    let out = buffer.Unmap();
    let mut expected = vec![0u8; 16];
    expected[4] = 1;
    expected[5] = 2;
    expected[6] = 3;
    assert_eq!(
        out,
        UnmapOutcome {
            settled: None,
            request: Some(WebGPURequest::UnmapBuffer {
                buffer_id: BUFFER,
                mapping: Some(mapping(&expected, HostMap::Write, 0..16)),
            }),
        }
    );
}

#[test]
fn create_mapped_at_creation_over_the_limit_is_a_range_error() {
    let r = GPUBuffer::create(DEVICE, BUFFER, &descriptor(1 << 53, true));
    assert_eq!(r.err(), Some(Error::Range(String::from("Over MAX_SAFE_INTEGER"))));
    let r = GPUBuffer::create(DEVICE, BUFFER, &descriptor(u64::MAX, true));
    assert_eq!(r.err(), Some(Error::Range(String::from("Over MAX_SAFE_INTEGER"))));
}

#[test]
fn create_unmapped_over_the_limit_is_accepted() {
    let (buffer, _) = GPUBuffer::create(DEVICE, BUFFER, &descriptor(1 << 53, false)).unwrap();
    assert_eq!(buffer.Size(), 1 << 53);
    assert_eq!(buffer.MapState(), GPUBufferMapState::Unmapped);
}

#[test]
fn new_keeps_what_it_is_given() {
    let active = ActiveBufferMapping::new(READ, 8..24).unwrap();
    let mut buffer = GPUBuffer::new(BUFFER, DEVICE, 64, 1, Some(active), String::from("staging"));
    assert_eq!(buffer.id(), BUFFER);
    assert_eq!(buffer.Size(), 64);
    assert_eq!(buffer.Usage(), 1);
    assert_eq!(buffer.Label(), "staging");
    assert_eq!(buffer.pending_map(), None);
    assert_eq!(buffer.MapState(), GPUBufferMapState::Mapped);
    let out = buffer.Unmap();
    assert_eq!(
        out.request,
        Some(WebGPURequest::UnmapBuffer { buffer_id: BUFFER, mapping: None })
    );
}

#[test]
fn set_label_changes_the_label_only() {
    let mut buffer = buffer(32);
    buffer.SetLabel(String::from("indices"));
    assert_eq!(buffer.Label(), "indices");
    assert_eq!(buffer.Size(), 32);
    assert_eq!(buffer.MapState(), GPUBufferMapState::Unmapped);
}

#[test]
fn map_async_sends_the_request_and_becomes_pending() {
    let mut buffer = buffer(256);
    let out = buffer.MapAsync(Promise(5), READ, 8, Some(64), false);
    assert_eq!(
        out,
        MapAsyncOutcome {
            settled: None,
            device_error: None,
            request: Some(WebGPURequest::BufferMapAsync {
                promise: Promise(5),
                buffer_id: BUFFER,
                device_id: DEVICE,
                host_map: HostMap::Read,
                offset: 8,
                size: Some(64),
            }),
        }
    );
    assert_eq!(buffer.MapState(), GPUBufferMapState::Pending);
    assert_eq!(buffer.pending_map(), Some(Promise(5)));
}

#[test]
fn map_async_for_writing_without_size() {
    let mut buffer = buffer(256);
    let out = buffer.MapAsync(Promise(6), WRITE, 0, None, true);
    assert_eq!(
        out.request,
        Some(WebGPURequest::BufferMapAsync {
            promise: Promise(6),
            buffer_id: BUFFER,
            device_id: DEVICE,
            host_map: HostMap::Write,
            offset: 0,
            size: None,
        })
    );
    assert_eq!(out.settled, None);
    assert_eq!(out.device_error, None);
}

#[test]
fn map_async_leaves_the_length_to_the_device() {
    let mut buffer = buffer(256);
    let out = buffer.MapAsync(Promise(6), WRITE, 0, Some(1 << 53), false);
    assert!(out.request.is_some());
    assert_eq!(buffer.MapState(), GPUBufferMapState::Pending);
}

#[test]
fn map_async_with_invalid_mode_reports_and_rejects() {
    for mode in [0u32, 3, 4, u32::MAX] {
        let mut buffer = buffer(256);
        let out = buffer.MapAsync(Promise(9), mode, 0, Some(8), false);
        assert_eq!(
            out,
            MapAsyncOutcome {
                settled: rejected(Promise(9), Error::Operation),
                device_error: Some(ValidationError { message: String::from("Invalid MapModeFlags") }),
                request: None,
            }
        );
        assert_eq!(buffer.MapState(), GPUBufferMapState::Unmapped);
        assert_eq!(buffer.pending_map(), None);
    }
}

#[test]
fn map_async_with_invalid_mode_on_a_lost_device_aborts() {
    let mut buffer = buffer(256);
    let out = buffer.MapAsync(Promise(9), 3, 0, Some(8), true);
    assert_eq!(out.settled, rejected(Promise(9), Error::Abort));
    assert_eq!(
        out.device_error,
        Some(ValidationError { message: String::from("Invalid MapModeFlags") })
    );
    assert_eq!(out.request, None);
    assert_eq!(buffer.pending_map(), None);
}

#[test]
fn second_map_request_is_rejected_and_the_first_still_resolves() {
    let mut buffer = buffer(256);
    let first = buffer.MapAsync(Promise(1), WRITE, 0, Some(256), false);
    assert!(first.request.is_some());
    let second = buffer.MapAsync(Promise(2), WRITE, 0, Some(256), false);
    assert_eq!(
        second,
        MapAsyncOutcome {
            settled: rejected(Promise(2), Error::Operation),
            device_error: None,
            request: None,
        }
    );
    assert_eq!(buffer.pending_map(), Some(Promise(1)));
    assert_eq!(buffer.MapState(), GPUBufferMapState::Pending);
    let settled =
        buffer.handle_response(Ok(mapping(&[7u8; 256], HostMap::Write, 0..256)), Promise(1), false);
    assert_eq!(settled, Some(Settlement { promise: Promise(1), result: Ok(()) }));
    assert_eq!(buffer.MapState(), GPUBufferMapState::Mapped);
}

#[test]
fn second_map_request_with_invalid_mode_is_rejected_without_report() {
    let mut buffer = buffer(256);
    buffer.MapAsync(Promise(1), READ, 0, None, false);
    let second = buffer.MapAsync(Promise(2), 77, 0, None, true);
    assert_eq!(second.settled, rejected(Promise(2), Error::Operation));
    assert_eq!(second.device_error, None);
    assert_eq!(second.request, None);
    assert_eq!(buffer.pending_map(), Some(Promise(1)));
}

#[test]
fn map_request_while_mapped_becomes_pending_beside_the_mapping() {
    let mut buffer = mapped(64, HostMap::Read, 0..64, &[1u8; 64]);
    let out = buffer.MapAsync(Promise(2), READ, 0, None, false);
    assert!(out.request.is_some());
    assert_eq!(out.settled, None);
    assert_eq!(buffer.pending_map(), Some(Promise(2)));
    assert_eq!(buffer.MapState(), GPUBufferMapState::Mapped);
    let out = buffer.Unmap();
    assert_eq!(out.settled, rejected(Promise(2), Error::Abort));
    assert_eq!(
        out.request,
        Some(WebGPURequest::UnmapBuffer { buffer_id: BUFFER, mapping: None })
    );
    assert_eq!(buffer.MapState(), GPUBufferMapState::Unmapped);
}

#[test]
fn write_round_trip_sends_the_written_bytes_back() {
    let mut buffer = buffer(256);
    let out = buffer.MapAsync(Promise(1), WRITE, 0, Some(256), false);
    assert!(out.request.is_some());
    let settled =
        buffer.handle_response(Ok(mapping(&[0u8; 256], HostMap::Write, 0..256)), Promise(1), false);
    assert_eq!(settled, Some(Settlement { promise: Promise(1), result: Ok(()) }));
    assert_eq!(buffer.MapState(), GPUBufferMapState::Mapped);
    assert_eq!(buffer.pending_map(), None);
    let view = buffer.GetMappedRange(0, Some(256)).unwrap();
    assert_eq!(view.len(), 256);
    assert!(buffer.write_view(&view, 0, &[0xAA; 256]));
    let out = buffer.Unmap();
    assert_eq!(out.settled, None);
    match out.request {
        Some(WebGPURequest::UnmapBuffer { buffer_id, mapping: Some(written) }) => {
            assert_eq!(buffer_id, BUFFER);
            assert_eq!(written.data(), &[0xAA; 256][..]);
            assert_eq!(written.range(), 0..256);
            assert_eq!(written.mode(), HostMap::Write);
        },
        other => panic!("unexpected request {:?}", other),
    }
    assert_eq!(buffer.MapState(), GPUBufferMapState::Unmapped);
}

#[test]
fn write_into_a_sub_range_sends_the_whole_mapped_range_back() {
    let snapshot: Vec<u8> = (0u8..32).collect();
    let mut buffer = mapped(256, HostMap::Write, 64..96, &snapshot);
    let view = buffer.GetMappedRange(72, Some(8)).unwrap();
    assert_eq!(view, DataView { start: 8, end: 16 });
    assert_eq!(buffer.read_view(&view), Some(vec![8, 9, 10, 11, 12, 13, 14, 15]));
    assert!(buffer.write_view(&view, 2, &[0xF0, 0xF1, 0xF2]));
    let mut expected = snapshot.clone();
    expected[10] = 0xF0;
    expected[11] = 0xF1;
    expected[12] = 0xF2;
    let out = buffer.Unmap();
    assert_eq!(
        out.request,
        Some(WebGPURequest::UnmapBuffer {
            buffer_id: BUFFER,
            mapping: Some(mapping(&expected, HostMap::Write, 64..96)),
        })
    );
}

#[test]
fn unwritten_write_mapping_sends_the_snapshot_back() {
    let snapshot = [9u8, 8, 7, 6, 5, 4, 3, 2];
    let mut buffer = mapped(8, HostMap::Write, 0..8, &snapshot);
    let out = buffer.Unmap();
    match out.request {
        Some(WebGPURequest::UnmapBuffer { mapping: Some(written), .. }) => {
            assert_eq!(written.data(), &snapshot[..]);
        },
        other => panic!("unexpected request {:?}", other),
    }
}

#[test]
fn read_mapping_sends_no_bytes_back() {
    let mut buffer = mapped(64, HostMap::Read, 0..64, &[5u8; 64]);
    let view = buffer.GetMappedRange(0, Some(64)).unwrap();
    assert_eq!(buffer.read_view(&view), Some(vec![5u8; 64]));
    let out = buffer.Unmap();
    assert_eq!(
        out,
        UnmapOutcome {
            settled: None,
            request: Some(WebGPURequest::UnmapBuffer { buffer_id: BUFFER, mapping: None }),
        }
    );
    assert_eq!(buffer.MapState(), GPUBufferMapState::Unmapped);
}

#[test]
fn empty_write_mapping_sends_an_empty_payload_back() {
    let mut buffer = mapped(64, HostMap::Write, 16..16, &[]);
    let out = buffer.Unmap();
    assert_eq!(
        out.request,
        Some(WebGPURequest::UnmapBuffer {
            buffer_id: BUFFER,
            mapping: Some(mapping(&[], HostMap::Write, 16..16)),
        })
    );
}

#[test]
fn unmap_invalidates_the_views() {
    let mut buffer = mapped(64, HostMap::Write, 0..64, &[0u8; 64]);
    let first = buffer.GetMappedRange(0, Some(8)).unwrap();
    let second = buffer.GetMappedRange(8, Some(8)).unwrap();
    assert!(buffer.read_view(&first).is_some());
    assert!(buffer.read_view(&second).is_some());
    buffer.Unmap();
    assert_eq!(buffer.MapState(), GPUBufferMapState::Unmapped);
    assert_eq!(buffer.read_view(&first), None);
    assert_eq!(buffer.read_view(&second), None);
    assert!(!buffer.write_view(&first, 0, &[1]));
    assert!(!buffer.write_view(&second, 0, &[]));
}

#[test]
fn unmap_of_an_unmapped_buffer_does_nothing() {
    let mut buffer = buffer(64);
    let out = buffer.Unmap();
    assert_eq!(out, UnmapOutcome { settled: None, request: None });
    assert_eq!(buffer.MapState(), GPUBufferMapState::Unmapped);
    let out = buffer.Unmap();
    assert_eq!(out, UnmapOutcome { settled: None, request: None });
}

#[test]
fn unmap_aborts_the_pending_request() {
    let mut buffer = buffer(64);
    buffer.MapAsync(Promise(4), READ, 0, None, false);
    let out = buffer.Unmap();
    assert_eq!(out, UnmapOutcome { settled: rejected(Promise(4), Error::Abort), request: None });
    assert_eq!(buffer.MapState(), GPUBufferMapState::Unmapped);
    assert_eq!(buffer.pending_map(), None);
    let late = buffer.handle_response(Ok(mapping(&[0u8; 64], HostMap::Read, 0..64)), Promise(4), false);
    assert_eq!(late, None);
    assert_eq!(buffer.MapState(), GPUBufferMapState::Unmapped);
}

#[test]
fn device_loss_rejects_the_pending_request_with_abort() {
    let mut buffer = buffer(64);
    buffer.MapAsync(Promise(4), READ, 0, None, false);
    let settled = buffer.handle_response(Err(BufferAccessError::MapAborted), Promise(4), true);
    assert_eq!(settled, rejected(Promise(4), Error::Abort));
    assert_eq!(buffer.MapState(), GPUBufferMapState::Unmapped);
    assert_eq!(buffer.pending_map(), None);
}

#[test]
fn failure_on_a_live_device_rejects_with_operation() {
    let mut buffer = buffer(64);
    buffer.MapAsync(Promise(4), READ, 0, None, false);
    let settled = buffer.handle_response(Err(BufferAccessError::Failed), Promise(4), false);
    assert_eq!(settled, rejected(Promise(4), Error::Operation));
    assert_eq!(buffer.MapState(), GPUBufferMapState::Unmapped);
}

#[test]
fn map_failure_stands_for_a_request_that_could_not_be_sent() {
    let mut buffer = buffer(64);
    let out = buffer.MapAsync(Promise(4), WRITE, 0, None, false);
    assert!(out.request.is_some());
    assert_eq!(buffer.map_failure(Promise(4), false), rejected(Promise(4), Error::Operation));
    assert_eq!(buffer.pending_map(), None);
    let mut buffer = self::buffer(64);
    buffer.MapAsync(Promise(4), WRITE, 0, None, false);
    assert_eq!(buffer.map_failure(Promise(4), true), rejected(Promise(4), Error::Abort));
}

#[test]
fn stale_answers_are_ignored() {
    let mut buffer = buffer(64);
    assert_eq!(buffer.map_failure(Promise(1), false), None);
    assert_eq!(buffer.map_success(Promise(1), mapping(&[0u8; 8], HostMap::Read, 0..8)), None);
    assert_eq!(buffer.MapState(), GPUBufferMapState::Unmapped);
    buffer.MapAsync(Promise(2), READ, 0, None, false);
    assert_eq!(buffer.map_failure(Promise(1), true), None);
    assert_eq!(buffer.map_success(Promise(3), mapping(&[0u8; 8], HostMap::Read, 0..8)), None);
    assert_eq!(buffer.pending_map(), Some(Promise(2)));
    assert_eq!(buffer.MapState(), GPUBufferMapState::Pending);
}

#[test]
fn a_second_answer_to_the_same_promise_is_ignored() {
    let mut buffer = buffer(64);
    buffer.MapAsync(Promise(2), WRITE, 0, None, false);
    let first = buffer.handle_response(Ok(mapping(&[1u8; 64], HostMap::Write, 0..64)), Promise(2), false);
    assert_eq!(first, Some(Settlement { promise: Promise(2), result: Ok(()) }));
    let view = buffer.GetMappedRange(0, None).unwrap();
    let again = buffer.handle_response(Ok(mapping(&[2u8; 64], HostMap::Write, 0..64)), Promise(2), false);
    assert_eq!(again, None);
    let failed = buffer.handle_response(Err(BufferAccessError::AlreadyMapped), Promise(2), true);
    assert_eq!(failed, None);
    assert_eq!(buffer.MapState(), GPUBufferMapState::Mapped);
    assert_eq!(buffer.read_view(&view), Some(vec![1u8; 64]));
}

#[test]
fn oversized_mapping_is_rejected_and_not_installed() {
    let mut buffer = buffer(64);
    buffer.MapAsync(Promise(2), WRITE, 0, Some(1 << 53), false);
    let oversized = Mapping::new(IpcSharedMemory::from_bytes(&[]), HostMap::Write, 0..(1 << 53)).unwrap();
    let settled = buffer.map_success(Promise(2), oversized);
    assert_eq!(settled, rejected(Promise(2), Error::Range(String::from("Over MAX_SAFE_INTEGER"))));
    assert_eq!(buffer.MapState(), GPUBufferMapState::Unmapped);
    assert_eq!(buffer.pending_map(), None);
    assert_eq!(buffer.GetMappedRange(0, Some(8)), Err(Error::Operation));
    assert_eq!(buffer.Unmap(), UnmapOutcome { settled: None, request: None });
}

#[test]
fn oversized_mapping_leaves_an_active_mapping_alone() {
    let mut buffer = mapped(64, HostMap::Write, 0..64, &[3u8; 64]);
    let view = buffer.GetMappedRange(0, None).unwrap();
    buffer.MapAsync(Promise(2), WRITE, 0, None, false);
    let oversized =
        Mapping::new(IpcSharedMemory::from_bytes(&[1, 2]), HostMap::Read, 8..(8 + (1 << 53))).unwrap();
    let settled = buffer.handle_response(Ok(oversized), Promise(2), false);
    assert_eq!(settled, rejected(Promise(2), Error::Range(String::from("Over MAX_SAFE_INTEGER"))));
    assert_eq!(buffer.MapState(), GPUBufferMapState::Mapped);
    assert_eq!(buffer.read_view(&view), Some(vec![3u8; 64]));
}

#[test]
fn a_new_mapping_replaces_the_active_one() {
    let mut buffer = mapped(64, HostMap::Write, 0..64, &[3u8; 64]);
    let old_view = buffer.GetMappedRange(0, None).unwrap();
    buffer.MapAsync(Promise(2), READ, 0, Some(8), false);
    let settled = buffer.handle_response(Ok(mapping(&[4u8; 8], HostMap::Read, 0..8)), Promise(2), false);
    assert_eq!(settled, Some(Settlement { promise: Promise(2), result: Ok(()) }));
    assert_eq!(buffer.read_view(&old_view), None);
    let view = buffer.GetMappedRange(0, Some(8)).unwrap();
    assert_eq!(buffer.read_view(&view), Some(vec![4u8; 8]));
    assert_eq!(buffer.GetMappedRange(8, Some(8)), Err(Error::Operation));
}

#[test]
fn destroy_unmaps_and_tells_the_device() {
    let mut buffer = mapped(8, HostMap::Write, 0..8, &[1u8; 8]);
    buffer.MapAsync(Promise(2), READ, 0, None, false);
    let out = buffer.Destroy();
    assert_eq!(
        out,
        DestroyOutcome {
            unmap: UnmapOutcome {
                settled: rejected(Promise(2), Error::Abort),
                request: Some(WebGPURequest::UnmapBuffer {
                    buffer_id: BUFFER,
                    mapping: Some(mapping(&[1u8; 8], HostMap::Write, 0..8)),
                }),
            },
            request: WebGPURequest::DestroyBuffer(BUFFER),
        }
    );
    assert_eq!(buffer.MapState(), GPUBufferMapState::Unmapped);
    assert_eq!(buffer.pending_map(), None);
}

#[test]
fn destroy_twice_writes_back_once() {
    let mut buffer = mapped(8, HostMap::Write, 0..8, &[1u8; 8]);
    let first = buffer.Destroy();
    assert!(matches!(first.unmap.request, Some(WebGPURequest::UnmapBuffer { mapping: Some(_), .. })));
    let second = buffer.Destroy();
    assert_eq!(
        second,
        DestroyOutcome {
            unmap: UnmapOutcome { settled: None, request: None },
            request: WebGPURequest::DestroyBuffer(BUFFER),
        }
    );
    assert_eq!(buffer.MapState(), GPUBufferMapState::Unmapped);
}

#[test]
fn destroy_of_an_unmapped_buffer_only_tells_the_device() {
    let mut buffer = buffer(8);
    let out = buffer.Destroy();
    assert_eq!(
        out,
        DestroyOutcome {
            unmap: UnmapOutcome { settled: None, request: None },
            request: WebGPURequest::DestroyBuffer(BUFFER),
        }
    );
}
