use vstd::prelude::*;

verus! {

use crate::errors::RenderError;
use crate::frame::{copy_frame, frame_bytes, frame_len, valid_dims, zero_frame};

/// One logical video-input slot: the document elements discovered for it,
/// and its pair of owned pixel buffers (the double buffer).
///
/// The element-handle set is fixed at construction; later updates only
/// rewrite pixel bytes and rebind elements, they never re-scan the document.
pub struct FrameSlot {
    /// Handles of the document elements bound to this slot.  Empty means the
    /// document does not use the slot; its input is accepted but ignored.
    pub nodes: Vec<usize>,
    /// Pixel buffer exposed to the document while the shared parity is 0.
    pub buf0: Vec<u8>,
    /// Pixel buffer exposed to the document while the shared parity is 1.
    pub buf1: Vec<u8>,
}

impl FrameSlot {
    /// The buffer the document sees under the given parity.
    pub open spec fn active(&self, parity: usize) -> Seq<u8> {
        if parity == 0 {
            self.buf0@
        } else {
            self.buf1@
        }
    }

    /// The buffer the document does not see under the given parity; paint
    /// may still be reading it, so an update never writes into it.
    pub open spec fn inactive(&self, parity: usize) -> Seq<u8> {
        if parity == 0 {
            self.buf1@
        } else {
            self.buf0@
        }
    }

    /// A used slot owns two whole frames; an unused slot owns no storage.
    pub open spec fn wf(&self, flen: int) -> bool {
        if self.nodes@.len() == 0 {
            self.buf0@.len() == 0 && self.buf1@.len() == 0
        } else {
            self.buf0@.len() == flen && self.buf1@.len() == flen
        }
    }
}

/// Whether an update stores this input into the slot: the slot has
/// discovered elements and the input was supplied (non-empty).
pub open spec fn takes_input(slot: FrameSlot, input: Seq<u8>) -> bool {
    slot.nodes@.len() > 0 && input.len() > 0
}

/// An input a slot would store must be exactly one frame long; any input to
/// an unused slot, and an absent input, is acceptable as-is.
pub open spec fn input_ok(slot: FrameSlot, input: Seq<u8>, flen: int) -> bool {
    takes_input(slot, input) ==> input.len() == flen
}

/// Index of the first slot at or after `i` whose stored input has the wrong
/// length, if any.
pub open spec fn first_bad_from(
    slots: Seq<FrameSlot>,
    inputs: Seq<Vec<u8>>,
    flen: int,
    i: int,
) -> Option<int>
    decreases slots.len() - i,
{
    if i < 0 || i >= slots.len() {
        None
    } else if !input_ok(slots[i], inputs[i]@, flen) {
        Some(i)
    } else {
        first_bad_from(slots, inputs, flen, i + 1)
    }
}

/// The opposite parity.
pub open spec fn flip(parity: usize) -> usize {
    if parity == 0 {
        1
    } else {
        0
    }
}

/// The frame multiplexer: keeps the document's video-input slots visually
/// synchronized with the live input frames, one double-buffered pixel store
/// per slot, under a single parity index shared by all slots.
pub struct FrameMux {
    pub width: u32,
    pub height: u32,
    /// Shared parity: selects, for every slot, which of its two buffers the
    /// document is currently bound to.  Alternates strictly 0,1,0,1… once
    /// per successful update.
    pub parity: usize,
    pub slots: Vec<FrameSlot>,
}

/// Everything one update changes, as a relation between the multiplexer
/// state before (`pre`) and after (`post`) and the call's result:
///
/// - if some stored input is mis-sized, the state is untouched and the call
///   fails with `SizeMismatch` naming the frame length and the length of the
///   first offending input;
/// - otherwise the parity flips, every slot keeps its element handles, every
///   slot that takes its input now exposes exactly those bytes while its
///   previously exposed buffer is untouched, and every other slot keeps both
///   buffers verbatim.
pub open spec fn update_post(
    pre: FrameMux,
    inputs: Seq<Vec<u8>>,
    post: FrameMux,
    r: Result<(), RenderError>,
) -> bool {
    match first_bad_from(pre.slots@, inputs, pre.flen(), 0) {
        Some(i) => {
            &&& post == pre
            &&& r matches Err(e)
            &&& e matches RenderError::SizeMismatch { expected, actual }
            &&& expected == pre.flen()
            &&& actual == inputs[i]@.len()
        },
        None => {
            &&& r is Ok
            &&& post.width == pre.width
            &&& post.height == pre.height
            &&& post.parity == flip(pre.parity)
            &&& post.slots@.len() == pre.slots@.len()
            &&& forall|i: int|
                0 <= i < pre.slots@.len() ==> #[trigger] slot_updated(
                    pre.slots@[i],
                    inputs[i]@,
                    post.slots@[i],
                    pre.parity,
                    post.parity,
                )
        },
    }
}

/// How one slot changes across a successful update.
pub open spec fn slot_updated(
    pre: FrameSlot,
    input: Seq<u8>,
    post: FrameSlot,
    pre_parity: usize,
    post_parity: usize,
) -> bool {
    &&& post.nodes@ == pre.nodes@
    &&& if takes_input(pre, input) {
        &&& post.active(post_parity) == input
        &&& post.inactive(post_parity) == pre.active(pre_parity)
    } else {
        &&& post.buf0@ == pre.buf0@
        &&& post.buf1@ == pre.buf1@
    }
}

impl FrameMux {
    /// Frame length, in bytes, of this multiplexer's viewport.
    pub open spec fn flen(&self) -> int {
        frame_bytes(self.width, self.height)
    }

    pub open spec fn wf(&self) -> bool {
        &&& valid_dims(self.width, self.height)
        &&& self.parity < 2
        &&& forall|i: int|
            0 <= i < self.slots@.len() ==> (#[trigger] self.slots@[i]).wf(self.flen())
    }

    /// Build a multiplexer from the element handles discovered for each
    /// slot, one entry per logical input slot.  Slots with elements start
    /// with two zero-filled frames; the parity starts at 0, matching the
    /// buffer the discovery step bound to the elements.
    pub fn new(width: u32, height: u32, node_sets: &Vec<Vec<usize>>) -> (m: FrameMux)
        requires
            valid_dims(width, height),
        ensures
            m.wf(),
            m.width == width,
            m.height == height,
            m.parity == 0,
            m.slots@.len() == node_sets@.len(),
            forall|i: int|
                0 <= i < node_sets@.len() ==> (#[trigger] m.slots@[i]).nodes@ == node_sets@[i]@,
            forall|i: int, j: int|
                0 <= i < node_sets@.len() && 0 <= j < m.slots@[i].buf0@.len()
                    ==> (#[trigger] m.slots@[i].buf0@[j]) == 0,
            forall|i: int, j: int|
                0 <= i < node_sets@.len() && 0 <= j < m.slots@[i].buf1@.len()
                    ==> (#[trigger] m.slots@[i].buf1@[j]) == 0,
    {
        let flen = frame_len(width, height);
        let mut slots: Vec<FrameSlot> = Vec::new();
        let mut i: usize = 0;
        while i < node_sets.len()
            invariant
                i <= node_sets@.len(),
                slots@.len() == i,
                valid_dims(width, height),
                flen == frame_bytes(width, height),
                forall|k: int|
                    0 <= k < i ==> (#[trigger] slots@[k]).wf(frame_bytes(width, height)),
                forall|k: int| 0 <= k < i ==> (#[trigger] slots@[k]).nodes@ == node_sets@[k]@,
                forall|k: int, j: int|
                    0 <= k < i && 0 <= j < slots@[k].buf0@.len()
                        ==> (#[trigger] slots@[k].buf0@[j]) == 0,
                forall|k: int, j: int|
                    0 <= k < i && 0 <= j < slots@[k].buf1@.len()
                        ==> (#[trigger] slots@[k].buf1@[j]) == 0,
            decreases node_sets@.len() - i,
        {
            let nodes = copy_nodes(&node_sets[i]);
            let slot = if nodes.is_empty() {
                FrameSlot { nodes, buf0: Vec::new(), buf1: Vec::new() }
            } else {
                FrameSlot { nodes, buf0: zero_frame(flen), buf1: zero_frame(flen) }
            };
            slots.push(slot);
            i = i + 1;
        }
        FrameMux { width, height, parity: 0, slots }
    }

    /// One update cycle of the multiplexer (the paint-independent half of a
    /// frame request): flip the shared parity, then store every supplied
    /// input of a used slot into that slot's now-exposed buffer.  Nothing is
    /// written unless every stored input is exactly one frame long.
    pub fn update(&mut self, inputs: &Vec<Vec<u8>>) -> (r: Result<(), RenderError>)
        requires
            old(self).wf(),
            inputs@.len() == old(self).slots@.len(),
        ensures
            final(self).wf(),
            update_post(*old(self), inputs@, *final(self), r),
    {
        let ghost pre = *old(self);
        let flen = frame_len(self.width, self.height);

        // Validate every stored input before touching any state.
        let mut i: usize = 0;
        while i < inputs.len()
            invariant
                *self == pre,
                pre.wf(),
                inputs@.len() == pre.slots@.len(),
                i <= inputs@.len(),
                flen == pre.flen(),
                forall|k: int| 0 <= k < i ==> input_ok(pre.slots@[k], (#[trigger] inputs@[k])@, pre.flen()),
            decreases inputs@.len() - i,
        {
            let wanted = !self.slots[i].nodes.is_empty() && !inputs[i].is_empty();
            if wanted && inputs[i].len() != flen {
                proof {
                    lemma_first_bad_prefix(pre.slots@, inputs@, pre.flen(), 0, i as int);
                }
                return Err(RenderError::SizeMismatch { expected: flen, actual: inputs[i].len() });
            }
            i = i + 1;
        }
        proof {
            lemma_first_bad_prefix(pre.slots@, inputs@, pre.flen(), 0, pre.slots@.len() as int);
        }

        // Expose the other buffer of every slot, leaving the previously
        // bound one untouched for any paint still reading it.
        self.parity = if self.parity == 0 { 1 } else { 0 };

        // Store each supplied input into its slot's newly exposed buffer.
        let mut i: usize = 0;
        while i < inputs.len()
            invariant
                pre.wf(),
                inputs@.len() == pre.slots@.len(),
                i <= inputs@.len(),
                flen == pre.flen(),
                forall|k: int| 0 <= k < pre.slots@.len()
                    ==> input_ok(pre.slots@[k], (#[trigger] inputs@[k])@, pre.flen()),
                self.width == pre.width,
                self.height == pre.height,
                self.parity == flip(pre.parity),
                self.slots@.len() == pre.slots@.len(),
                forall|k: int| i <= k < pre.slots@.len() ==> (#[trigger] self.slots@[k]) == pre.slots@[k],
                forall|k: int|
                    0 <= k < i ==> slot_updated(
                        pre.slots@[k],
                        (#[trigger] inputs@[k])@,
                        self.slots@[k],
                        pre.parity,
                        self.parity,
                    ),
                forall|k: int|
                    0 <= k < i ==> (#[trigger] self.slots@[k]).wf(pre.flen()),
            decreases inputs@.len() - i,
        {
            let mut slot = FrameSlot { nodes: Vec::new(), buf0: Vec::new(), buf1: Vec::new() };
            self.slots.set_and_swap(i, &mut slot);
            if !slot.nodes.is_empty() && !inputs[i].is_empty() {
                if self.parity == 0 {
                    copy_frame(&mut slot.buf0, &inputs[i]);
                } else {
                    copy_frame(&mut slot.buf1, &inputs[i]);
                }
            }
            self.slots.set(i, slot);
            i = i + 1;
        }
        Ok(())
    }

    /// The buffer currently exposed to the document for slot `i`: after a
    /// successful update this holds the bytes the document will paint.
    pub fn current_buffer(&self, i: usize) -> (b: &Vec<u8>)
        requires
            i < self.slots@.len(),
        ensures
            b@ == self.slots@[i as int].active(self.parity),
    {
        if self.parity == 0 {
            &self.slots[i].buf0
        } else {
            &self.slots[i].buf1
        }
    }

    /// The element handles discovered for slot `i` at construction.
    pub fn node_handles(&self, i: usize) -> (n: &Vec<usize>)
        requires
            i < self.slots@.len(),
        ensures
            n@ == self.slots@[i as int].nodes@,
    {
        &self.slots[i].nodes
    }
}

/// A fresh copy of a handle list.
fn copy_nodes(src: &Vec<usize>) -> (v: Vec<usize>)
    ensures
        v@ == src@,
{
    let mut v: Vec<usize> = Vec::new();
    let mut j: usize = 0;
    while j < src.len()
        invariant
            j <= src@.len(),
            v@.len() == j,
            forall|k: int| 0 <= k < j ==> v@[k] == src@[k],
        decreases src@.len() - j,
    {
        let h = src[j];
        v.push(h);
        j = j + 1;
    }
    assert(v@ =~= src@);
    v
}

/// A mis-sized update can only be blamed on a slot that would actually
/// store its input: whatever index `first_bad_from` returns, that slot has
/// elements, was supplied an input, and the input has the wrong length.
pub proof fn lemma_first_bad_is_bad(slots: Seq<FrameSlot>, inputs: Seq<Vec<u8>>, flen: int, i: int)
    ensures
        first_bad_from(slots, inputs, flen, i) matches Some(b)
            ==> i <= b < slots.len() && !input_ok(slots[b], inputs[b]@, flen),
    decreases slots.len() - i,
{
    if 0 <= i < slots.len() && input_ok(slots[i], inputs[i]@, flen) {
        lemma_first_bad_is_bad(slots, inputs, flen, i + 1);
    }
}

/// An update has exactly one outcome for a fixed starting state and fixed
/// inputs: any two states and results that `update_post` allows agree on
/// the dimensions, the parity, every element handle, every buffer byte,
/// and the result.  Rendering the same frame twice from the same state is
/// therefore reproducible as far as this component reaches.
pub proof fn lemma_update_deterministic(
    pre: FrameMux,
    inputs: Seq<Vec<u8>>,
    m1: FrameMux,
    r1: Result<(), RenderError>,
    m2: FrameMux,
    r2: Result<(), RenderError>,
)
    requires
        update_post(pre, inputs, m1, r1),
        update_post(pre, inputs, m2, r2),
    ensures
        r1 == r2,
        m1.width == m2.width,
        m1.height == m2.height,
        m1.parity == m2.parity,
        m1.slots@.len() == m2.slots@.len(),
        forall|i: int|
            0 <= i < m1.slots@.len()
                ==> (#[trigger] m1.slots@[i]).nodes@ == m2.slots@[i].nodes@
                    && m1.slots@[i].buf0@ == m2.slots@[i].buf0@
                    && m1.slots@[i].buf1@ == m2.slots@[i].buf1@,
{
    match first_bad_from(pre.slots@, inputs, pre.flen(), 0) {
        Some(b) => {
            let e1 = r1->Err_0;
            let e2 = r2->Err_0;
            assert(e1 == e2);
            assert(r1 == Err::<(), RenderError>(e1));
            assert(r2 == Err::<(), RenderError>(e2));
        },
        None => {
            let u1 = r1->Ok_0;
            let u2 = r2->Ok_0;
            assert(u1 == u2);
            assert(r1 == Ok::<(), RenderError>(u1));
            assert(r2 == Ok::<(), RenderError>(u2));
            assert forall|i: int| 0 <= i < m1.slots@.len() implies (#[trigger] m1.slots@[i]).nodes@
                == m2.slots@[i].nodes@ && m1.slots@[i].buf0@ == m2.slots@[i].buf0@
                && m1.slots@[i].buf1@ == m2.slots@[i].buf1@ by {
                assert(slot_updated(pre.slots@[i], inputs[i]@, m1.slots@[i], pre.parity, m1.parity));
                assert(slot_updated(pre.slots@[i], inputs[i]@, m2.slots@[i], pre.parity, m2.parity));
            }
        },
    }
}

/// Double-buffer parity strictly alternates: across two consecutive
/// successful updates the exposed buffer differs each time from the one
/// exposed before, and after two updates the original buffer is exposed
/// again — for every slot, since all slots share the one parity index.
pub proof fn lemma_parity_alternates(
    m0: FrameMux,
    in1: Seq<Vec<u8>>,
    m1: FrameMux,
    in2: Seq<Vec<u8>>,
    m2: FrameMux,
)
    requires
        m0.parity < 2,
        update_post(m0, in1, m1, Ok(())),
        update_post(m1, in2, m2, Ok(())),
    ensures
        m1.parity != m0.parity,
        m2.parity != m1.parity,
        m2.parity == m0.parity,
{
}

/// A slot with no discovered elements never stores its input's bytes and
/// never causes an update to fail, even when that input is absent or
/// mis-sized: both its buffers are untouched, and a `SizeMismatch` is never
/// attributed to it.
pub proof fn lemma_unused_slot_untouched(
    pre: FrameMux,
    inputs: Seq<Vec<u8>>,
    post: FrameMux,
    r: Result<(), RenderError>,
    k: int,
)
    requires
        update_post(pre, inputs, post, r),
        0 <= k < pre.slots@.len(),
        pre.slots@[k].nodes@.len() == 0,
    ensures
        post.slots@.len() == pre.slots@.len(),
        post.slots@[k].buf0@ == pre.slots@[k].buf0@,
        post.slots@[k].buf1@ == pre.slots@[k].buf1@,
        first_bad_from(pre.slots@, inputs, pre.flen(), 0) != Some(k),
{
    lemma_first_bad_is_bad(pre.slots@, inputs, pre.flen(), 0);
    if first_bad_from(pre.slots@, inputs, pre.flen(), 0) is None {
        assert(slot_updated(pre.slots@[k], inputs[k]@, post.slots@[k], pre.parity, post.parity));
    }
}

/// While every slot up to `j` accepts its input, the first offending slot
/// from `i` is the first offending slot from `j`.
proof fn lemma_first_bad_prefix(
    slots: Seq<FrameSlot>,
    inputs: Seq<Vec<u8>>,
    flen: int,
    i: int,
    j: int,
)
    requires
        0 <= i <= j <= slots.len(),
        forall|k: int| i <= k < j ==> input_ok(slots[k], (#[trigger] inputs[k])@, flen),
    ensures
        first_bad_from(slots, inputs, flen, i) == first_bad_from(slots, inputs, flen, j),
    decreases j - i,
{
    if i < j {
        lemma_first_bad_prefix(slots, inputs, flen, i + 1, j);
    }
}

} // verus!
