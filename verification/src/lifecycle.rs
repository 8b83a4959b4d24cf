//! What holds of the buffer over several steps of its life.
use crate::block::{BlockState, DataView};
use crate::error::{over_max_safe_integer, ErrorView};
use crate::identity::Promise;
use crate::limits::{length_error, MAX_SAFE_INTEGER};
use crate::message::{
    HostMap, MapAsyncOutcomeView, MappingView, RequestView, SettlementView, UnmapOutcomeView,
};
use crate::state::{BufferState, GPUBufferMapState};
use vstd::prelude::*;

verus! {

/// One step in the life of a buffer.
pub enum Step {
    MapAsync { promise: Promise, mode: u32, offset: u64, size: Option<u64>, device_lost: bool },
    MapFailure { promise: Promise, device_lost: bool },
    MapSuccess { promise: Promise, mapping: MappingView },
    GetMappedRange { offset: u64, size: Option<u64> },
    WriteView { view: DataView, at: usize, bytes: Seq<u8> },
    SetLabel { label: Seq<char> },
    Unmap,
    Destroy,
}

impl Step {
    /// A mapping that arrives from the device is as long as its range.
    pub open spec fn wf(self) -> bool {
        self matches Step::MapSuccess { mapping, .. } ==> mapping.wf()
    }
}

impl BufferState {
    /// The buffer after `step`.
    pub open spec fn after(self, step: Step) -> BufferState {
        match step {
            Step::MapAsync { promise, mode, offset, size, device_lost } => self.map_async(
                promise,
                mode,
                offset,
                size,
                device_lost,
            ).0,
            Step::MapFailure { promise, device_lost } => self.map_failure(promise, device_lost).0,
            Step::MapSuccess { promise, mapping } => self.map_success(promise, mapping).0,
            Step::GetMappedRange { offset, size } => self.get_mapped_range(offset, size).0,
            Step::WriteView { view, at, bytes } => self.write_view(view, at, bytes).0,
            Step::SetLabel { label } => BufferState { label, ..self },
            Step::Unmap => self.unmap().0,
            Step::Destroy => self.destroy().0,
        }
    }
}

/// Every step keeps the buffer well formed: an active mapping is as long as
/// its range and no longer than [`MAX_SAFE_INTEGER`], and its live windows
/// lie inside it.
pub proof fn step_keeps_well_formed(buffer: BufferState, step: Step)
    requires
        buffer.wf(),
        step.wf(),
    ensures
        buffer.after(step).wf(),
{
    match step {
        Step::GetMappedRange { offset, size } => {
            if buffer.admits_range(offset, size) {
                let mapping = buffer.mapping.unwrap();
                let view = mapping.window(offset, buffer.range_size(offset, size));
                let block = mapping.block.with_view(view);
                assert forall|i: int| 0 <= i < block.views.len() implies {
                    let kept = #[trigger] block.views[i];
                    kept.start <= kept.end <= block.data.len()
                } by {
                    if i < mapping.block.views.len() {
                        assert(block.views[i] == mapping.block.views[i]);
                    }
                }
            }
        },
        Step::WriteView { view, at, bytes } => {
            if buffer.write_view(view, at, bytes).1 {
                let mapping = buffer.mapping.unwrap();
                let block = mapping.block.written(view, at, bytes);
                assert forall|i: int| 0 <= i < block.views.len() implies {
                    let kept = #[trigger] block.views[i];
                    kept.start <= kept.end <= block.data.len()
                } by {
                    assert(block.views[i] == mapping.block.views[i]);
                }
            }
        },
        _ => {},
    }
}

impl BufferState {
    /// The buffer after `steps`, taken one after the other.
    pub open spec fn after_all(self, steps: Seq<Step>) -> BufferState
        decreases steps.len(),
    {
        if steps.len() == 0 {
            self
        } else {
            self.after(steps.first()).after_all(steps.drop_first())
        }
    }
}

/// Whatever a well-formed buffer goes through, it stays well formed.
pub proof fn life_keeps_well_formed(buffer: BufferState, steps: Seq<Step>)
    requires
        buffer.wf(),
        forall|i: int| 0 <= i < steps.len() ==> (#[trigger] steps[i]).wf(),
    ensures
        buffer.after_all(steps).wf(),
    decreases steps.len(),
{
    if steps.len() > 0 {
        step_keeps_well_formed(buffer, steps.first());
        let rest = steps.drop_first();
        assert forall|i: int| 0 <= i < rest.len() implies (#[trigger] rest[i]).wf() by {
            assert(rest[i] == steps[i + 1]);
        }
        life_keeps_well_formed(buffer.after(steps.first()), rest);
    }
}

/// At most one map request is pending, and no step puts another request in
/// the place of a pending one: after any step the pending request is the
/// one that was pending before, or none.
pub proof fn pending_request_is_not_replaced(buffer: BufferState, step: Step)
    requires
        buffer.pending_map.is_some(),
    ensures
        buffer.after(step).pending_map == buffer.pending_map || buffer.after(
            step,
        ).pending_map.is_none(),
{
}

/// While a map request is pending, a second one is rejected with an
/// operation error, changes nothing and sends nothing. Whatever the device
/// then answers, to whichever promise, has the effect it would have had
/// without the second request.
pub proof fn second_request_is_rejected(
    buffer: BufferState,
    promise: Promise,
    mode: u32,
    offset: u64,
    size: Option<u64>,
    device_lost: bool,
    response: Option<MappingView>,
    answered: Promise,
    lost_later: bool,
)
    requires
        buffer.pending_map.is_some(),
    ensures
        buffer.map_async(promise, mode, offset, size, device_lost).0 == buffer,
        buffer.map_async(promise, mode, offset, size, device_lost).1 == (MapAsyncOutcomeView {
            settled: Some(SettlementView::rejected(promise, ErrorView::Operation)),
            device_error: None,
            request: None,
        }),
        buffer.map_async(promise, mode, offset, size, device_lost).0.handle_response(
            response,
            answered,
            lost_later,
        ) == buffer.handle_response(response, answered, lost_later),
{
}

/// An answer to a promise that is not the pending one changes nothing and
/// settles nothing.
pub proof fn stale_answer_is_ignored(
    buffer: BufferState,
    response: Option<MappingView>,
    promise: Promise,
    device_lost: bool,
)
    requires
        buffer.pending_map != Some(promise),
    ensures
        buffer.handle_response(response, promise, device_lost) == (buffer, None::<SettlementView>),
{
}

/// A request is answered at most once: the answer to the pending promise
/// settles it, and a second answer to the same promise is ignored.
pub proof fn second_answer_is_ignored(
    buffer: BufferState,
    first: Option<MappingView>,
    second: Option<MappingView>,
    promise: Promise,
    device_lost: bool,
    lost_later: bool,
)
    requires
        buffer.pending_map == Some(promise),
    ensures
        buffer.handle_response(first, promise, device_lost).1 matches Some(settled)
            && settled.promise == promise,
        ({
            let answered = buffer.handle_response(first, promise, device_lost).0;
            answered.handle_response(second, promise, lost_later) == (
                answered,
                None::<SettlementView>,
            )
        }),
{
}

/// A failed request is rejected with an abort error if the device is lost
/// and with an operation error if it is not, and leaves no request pending.
pub proof fn failure_tells_device_loss(buffer: BufferState, promise: Promise, device_lost: bool)
    requires
        buffer.pending_map == Some(promise),
    ensures
        buffer.map_failure(promise, device_lost).0 == (BufferState { pending_map: None, ..buffer }),
        buffer.map_failure(promise, device_lost).1 == Some(
            SettlementView::rejected(
                promise,
                if device_lost {
                    ErrorView::Abort
                } else {
                    ErrorView::Operation
                },
            ),
        ),
{
}

/// A mapping of more than [`MAX_SAFE_INTEGER`] bytes is never installed:
/// its promise is rejected with a range error and the active mapping stays
/// what it was. The step yields a settlement only, nothing for the device.
pub proof fn oversized_mapping_is_rejected(
    buffer: BufferState,
    promise: Promise,
    mapping: MappingView,
)
    requires
        buffer.pending_map == Some(promise),
        mapping.range.end - mapping.range.start > MAX_SAFE_INTEGER,
    ensures
        buffer.map_success(promise, mapping).0 == (BufferState { pending_map: None, ..buffer }),
        buffer.map_success(promise, mapping).1 == Some(
            SettlementView::rejected(promise, ErrorView::Range(over_max_safe_integer())),
        ),
{
}

/// After unmapping the buffer is unmapped and none of the windows handed
/// out before is live. Unmapping again changes nothing, settles nothing and
/// sends nothing.
pub proof fn unmap_ends_every_window(buffer: BufferState, view: DataView)
    ensures
        buffer.unmap().0.map_state() == GPUBufferMapState::Unmapped,
        !buffer.unmap().0.is_live(view),
        buffer.unmap().0.read_view(view).is_none(),
        buffer.unmap().0.unmap() == (
            buffer.unmap().0,
            UnmapOutcomeView { settled: None, request: None },
        ),
{
}

/// Destroying twice does what destroying once does: the second time no
/// promise is rejected, no unmap request is sent, so nothing is written back
/// again, and the buffer does not change. The device is told once more that
/// the buffer is gone.
pub proof fn destroy_twice(buffer: BufferState)
    ensures
        ({
            let destroyed = buffer.destroy().0;
            &&& destroyed.destroy().0 == destroyed
            &&& destroyed.destroy().1.unmap == (UnmapOutcomeView { settled: None, request: None })
            &&& destroyed.destroy().1.unmap.write_back().is_none()
            &&& destroyed.destroy().1.request == RequestView::DestroyBuffer(buffer.buffer)
        }),
{
}

/// A window is live in the block that it was added to.
pub proof fn window_is_live(block: BlockState, view: DataView)
    ensures
        block.with_view(view).is_live(view),
{
    if !block.is_live(view) {
        assert(block.views.push(view).last() == view);
    }
}

/// The bytes of `data` with `bytes` laid over them from position `at`.
pub open spec fn overlaid(data: Seq<u8>, at: int, bytes: Seq<u8>) -> Seq<u8> {
    Seq::new(
        data.len(),
        |i: int|
            if at <= i < at + bytes.len() {
                bytes[i - at]
            } else {
                data[i]
            },
    )
}

/// Bytes written through a window of a writable mapping go back to the
/// device when the buffer is unmapped.
///
/// Map for writing, take a window over a range that the mapping admits,
/// write `bytes` into the window, unmap: what is written back is the
/// snapshot that the device sent with `bytes` laid over it at the place of
/// the window, under the range that was mapped, and no more.
pub proof fn written_bytes_go_back(
    buffer: BufferState,
    promise: Promise,
    mapping: MappingView,
    offset: u64,
    size: Option<u64>,
    at: usize,
    bytes: Seq<u8>,
)
    requires
        buffer.pending_map == Some(promise),
        mapping.wf(),
        mapping.mode == HostMap::Write,
        length_error(mapping.range.end - mapping.range.start).is_none(),
        buffer.map_success(promise, mapping).0.admits_range(offset, size),
        at + bytes.len() <= buffer.range_size(offset, size),
    ensures
        ({
            let mapped = buffer.map_success(promise, mapping).0;
            let (handed, view) = mapped.get_mapped_range(offset, size);
            let (written, done) = handed.write_view(view->Ok_0, at, bytes);
            let (unmapped, out) = written.unmap();
            &&& buffer.map_success(promise, mapping).1 == Some(SettlementView::resolved(promise))
            &&& view.is_ok()
            &&& view->Ok_0.size() == buffer.range_size(offset, size)
            &&& done
            &&& out.write_back() == Some(
                MappingView {
                    data: overlaid(mapping.data, offset - mapping.range.start + at, bytes),
                    mode: HostMap::Write,
                    range: mapping.range,
                },
            )
            &&& out.write_back().unwrap().wf()
            &&& unmapped.map_state() == GPUBufferMapState::Unmapped
        }),
{
    let mapped = buffer.map_success(promise, mapping).0;
    let (handed, view) = mapped.get_mapped_range(offset, size);
    let window = view->Ok_0;
    window_is_live(mapped.mapping.unwrap().block, window);
    let (written, done) = handed.write_view(window, at, bytes);
    let out = written.unmap().1;
    assert(out.write_back().unwrap().data =~= overlaid(
        mapping.data,
        offset - mapping.range.start + at,
        bytes,
    ));
}

/// A mapping for reading writes nothing back: unmapping tells the device
/// that the mapping ended, without bytes, whatever windows were handed out
/// in between.
pub proof fn read_mapping_writes_nothing_back(
    buffer: BufferState,
    promise: Promise,
    mapping: MappingView,
    offset: u64,
    size: Option<u64>,
)
    requires
        buffer.pending_map == Some(promise),
        mapping.mode == HostMap::Read,
        length_error(mapping.range.end - mapping.range.start).is_none(),
    ensures
        ({
            let mapped = buffer.map_success(promise, mapping).0;
            let handed = mapped.get_mapped_range(offset, size).0;
            &&& mapped.unmap().1.write_back().is_none()
            &&& handed.unmap().1.write_back().is_none()
            &&& handed.unmap().1.request == Some(
                RequestView::UnmapBuffer { buffer_id: buffer.buffer, mapping: None },
            )
        }),
{
}

/// A write through a window changes no byte outside the window.
pub proof fn write_stays_inside_window(
    buffer: BufferState,
    view: DataView,
    offset: usize,
    bytes: Seq<u8>,
    i: int,
)
    requires
        buffer.wf(),
        buffer.write_view(view, offset, bytes).1,
        0 <= i < buffer.mapping.unwrap().block.data.len(),
        !(view.start <= i < view.end),
    ensures
        buffer.write_view(view, offset, bytes).0.mapping.unwrap().block.data[i]
            == buffer.mapping.unwrap().block.data[i],
{
}

} // verus!
