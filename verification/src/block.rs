//! A block of bytes that stands for mapped device memory, and the windows
//! that script holds into it.
use std::ops::Range;
use vstd::prelude::*;

verus! {

/// A window into a [`DataBlock`]: the bytes from `start` up to `end`,
/// counted from the start of the block.
#[derive(Clone, Copy, Debug, PartialEq, Eq, Structural)]
pub struct DataView {
    pub start: usize,
    pub end: usize,
}

impl DataView {
    /// The number of bytes that the window covers.
    pub open spec fn size(self) -> int {
        self.end - self.start
    }

    /// The number of bytes that the window covers.
    pub fn len(&self) -> (n: usize)
        ensures
            n == if self.start <= self.end { self.end - self.start } else { 0 },
    {
        if self.start <= self.end {
            self.end - self.start
        } else {
            0
        }
    }
}

/// What a [`DataBlock`] holds: its bytes, and the windows that are live.
pub struct BlockState {
    pub data: Seq<u8>,
    pub views: Seq<DataView>,
}

impl BlockState {
    /// The length of the block fits `usize`, and every live window lies
    /// inside the block.
    pub open spec fn wf(self) -> bool {
        &&& self.data.len() <= usize::MAX
        &&& forall|i: int|
            0 <= i < self.views.len() ==> (#[trigger] self.views[i]).start <= self.views[i].end
                <= self.data.len()
    }

    /// A block of `size` zero bytes without windows.
    pub open spec fn zeroed(size: nat) -> BlockState {
        BlockState { data: Seq::new(size, |i: int| 0u8), views: Seq::empty() }
    }

    /// Whether `view` is a live window of this block.
    pub open spec fn is_live(self, view: DataView) -> bool {
        self.views.contains(view)
    }

    /// Whether a window over `range` can be made.
    pub open spec fn admits(self, range: Range<usize>) -> bool {
        range.start <= range.end <= self.data.len()
    }

    /// The block with `view` among its live windows. A window that is live
    /// already is not kept twice.
    pub open spec fn with_view(self, view: DataView) -> BlockState {
        if self.is_live(view) {
            self
        } else {
            BlockState { views: self.views.push(view), ..self }
        }
    }

    /// The block after all its windows were invalidated.
    pub open spec fn without_views(self) -> BlockState {
        BlockState { views: Seq::empty(), ..self }
    }

    /// The block with its bytes replaced.
    pub open spec fn loaded(self, bytes: Seq<u8>) -> BlockState {
        BlockState { data: bytes, ..self }
    }

    /// The bytes under a window.
    pub open spec fn bytes_of(self, view: DataView) -> Seq<u8> {
        self.data.subrange(view.start as int, view.end as int)
    }

    /// Whether `len` bytes can be written through `view`, `offset` bytes
    /// after its start.
    pub open spec fn accepts_write(self, view: DataView, offset: usize, len: nat) -> bool {
        self.is_live(view) && offset + len <= view.size()
    }

    /// The block after `bytes` were written through `view`, `offset` bytes
    /// after its start. Bytes outside the written stretch keep their value.
    pub open spec fn written(self, view: DataView, offset: usize, bytes: Seq<u8>) -> BlockState {
        let at = view.start + offset;
        BlockState {
            data: Seq::new(
                self.data.len(),
                |i: int|
                    if at <= i < at + bytes.len() {
                        bytes[i - at]
                    } else {
                        self.data[i]
                    },
            ),
            ..self
        }
    }
}

/// An owned block of bytes with the windows that were handed out into it.
///
/// The windows do not keep the block alive: [`DataBlock::clear_views`]
/// invalidates all of them at once.
#[derive(Debug)]
pub struct DataBlock {
    data: Vec<u8>,
    data_views: Vec<DataView>,
}

impl DataBlock {
    /// What the block holds.
    pub closed spec fn state(&self) -> BlockState {
        BlockState { data: self.data@, views: self.data_views@ }
    }

    #[verifier::type_invariant]
    spec fn inv(self) -> bool {
        self.state().wf()
    }

    /// A block of `size` zero bytes without windows.
    pub fn new_zeroed(size: usize) -> (block: Self)
        ensures
            block.state() == BlockState::zeroed(size as nat),
            block.state().wf(),
    {
        let mut data: Vec<u8> = Vec::new();
        let mut i: usize = 0;
        while i < size
            invariant
                i <= size,
                data@ == Seq::new(i as nat, |k: int| 0u8),
            decreases size - i,
        {
            data.push(0u8);
            i += 1;
            assert(data@ =~= Seq::new(i as nat, |k: int| 0u8));
        }
        DataBlock { data, data_views: Vec::new() }
    }

    /// The number of bytes in the block.
    pub fn len(&self) -> (n: usize)
        ensures
            n == self.state().data.len(),
            self.state().wf(),
    {
        proof {
            use_type_invariant(self);
        }
        self.data.len()
    }

    /// Overwrites the whole block with `src`, which has the block's length.
    pub fn load(&mut self, src: &[u8])
        requires
            src@.len() == old(self).state().data.len(),
        ensures
            final(self).state() == old(self).state().loaded(src@),
            final(self).state().wf(),
    {
        proof {
            use_type_invariant(&*self);
        }
        let ghost before = self.state();
        assert(before.wf());
        let bytes = vstd::slice::slice_to_vec(src);
        assert forall|i: int| 0 <= i < self.data_views@.len() implies {
            let view = #[trigger] self.data_views@[i];
            view.start <= view.end <= bytes@.len()
        } by {
            assert(self.data_views@[i] == before.views[i]);
        }
        self.data = bytes;
    }

    /// The bytes of the block.
    pub fn data(&self) -> (bytes: &[u8])
        ensures
            bytes@ == self.state().data,
    {
        self.data.as_slice()
    }

    /// Invalidates every window into the block.
    pub fn clear_views(&mut self)
        ensures
            final(self).state() == old(self).state().without_views(),
            final(self).state().wf(),
    {
        proof {
            use_type_invariant(&*self);
        }
        self.data_views = Vec::new();
    }

    /// Hands out a window over `range`, or fails if `range` is not inside the
    /// block.
    pub fn view(&mut self, range: Range<usize>) -> (r: Result<DataView, ()>)
        ensures
            r.is_ok() <==> old(self).state().admits(range),
            r matches Ok(view) ==> view == (DataView { start: range.start, end: range.end })
                && final(self).state() == old(self).state().with_view(view)
                && final(self).state().is_live(view),
            r.is_err() ==> final(self).state() == old(self).state(),
            final(self).state().wf(),
    {
        proof {
            use_type_invariant(&*self);
        }
        if range.start > range.end || range.end > self.data.len() {
            return Err(());
        }
        let view = DataView { start: range.start, end: range.end };
        if self.is_live(&view) {
            return Ok(view);
        }
        let ghost before = self.state();
        assert(before.wf());
        let mut views: Vec<DataView> = Vec::new();
        core::mem::swap(&mut self.data_views, &mut views);
        views.push(view);
        assert forall|i: int| 0 <= i < views@.len() implies {
            let kept = #[trigger] views@[i];
            kept.start <= kept.end <= self.data@.len()
        } by {
            if i < before.views.len() {
                assert(views@[i] == before.views[i]);
            }
        }
        assert(views@.last() == view);
        self.data_views = views;
        Ok(view)
    }

    /// Whether `view` is a live window of this block.
    pub fn is_live(&self, view: &DataView) -> (live: bool)
        ensures
            live == self.state().is_live(*view),
    {
        let mut i: usize = 0;
        while i < self.data_views.len()
            invariant
                i <= self.data_views@.len(),
                forall|k: int| 0 <= k < i ==> self.data_views@[k] != *view,
            decreases self.data_views@.len() - i,
        {
            if self.data_views[i].start == view.start && self.data_views[i].end == view.end {
                return true;
            }
            i += 1;
        }
        false
    }

    /// The bytes under `view`, or `None` if the window is not live.
    pub fn read(&self, view: &DataView) -> (r: Option<Vec<u8>>)
        ensures
            r.is_some() <==> self.state().is_live(*view),
            r matches Some(bytes) ==> bytes@ == self.state().bytes_of(*view),
    {
        proof {
            use_type_invariant(self);
        }
        if !self.is_live(view) {
            return None;
        }
        let mut bytes: Vec<u8> = Vec::new();
        let mut i: usize = view.start;
        while i < view.end
            invariant
                view.start <= i <= view.end <= self.data@.len(),
                bytes@ == self.data@.subrange(view.start as int, i as int),
            decreases view.end - i,
        {
            bytes.push(self.data[i]);
            i += 1;
            assert(bytes@ =~= self.data@.subrange(view.start as int, i as int));
        }
        Some(bytes)
    }

    /// Writes `bytes` through `view`, `offset` bytes after its start. Nothing
    /// is written, and `false` returned, if the window is not live or the
    /// bytes do not fit into it.
    pub fn write(&mut self, view: &DataView, offset: usize, bytes: &[u8]) -> (done: bool)
        ensures
            done == old(self).state().accepts_write(*view, offset, bytes@.len()),
            done ==> final(self).state() == old(self).state().written(*view, offset, bytes@),
            !done ==> final(self).state() == old(self).state(),
            final(self).state().wf(),
    {
        proof {
            use_type_invariant(&*self);
        }
        if !self.is_live(view) {
            return false;
        }
        let room: usize = view.end - view.start;
        if offset > room || bytes.len() > room - offset {
            return false;
        }
        let at: usize = view.start + offset;
        assert(self.data@.len() == self.data.len());
        let ghost before = self.state();
        let mut i: usize = 0;
        while i < bytes.len()
            invariant
                i <= bytes@.len(),
                at + bytes@.len() <= self.data@.len() <= usize::MAX,
                self.data@.len() == before.data.len(),
                self.data_views@ == before.views,
                before.wf(),
                forall|k: int|
                    0 <= k < self.data@.len() ==> self.data@[k] == if at <= k < at + i {
                        bytes@[k - at]
                    } else {
                        before.data[k]
                    },
            decreases bytes@.len() - i,
        {
            self.data[at + i] = bytes[i];
            i += 1;
        }
        assert(self.state().data =~= before.written(*view, offset, bytes@).data);
        true
    }
}

} // verus!
