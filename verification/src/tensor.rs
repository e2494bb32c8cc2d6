//! Stream selection, tensor metadata and the shapes of device tensors.

use vstd::prelude::*;
use vstd::string::*;

use crate::error::ensure_at_most;
use crate::error::ensure_that;
use crate::error::FaultList;
use crate::error::KernelError;
use crate::text::push_decimal;

verus! {

// ---------------------------------------------------------------------------
// Stream override
// ---------------------------------------------------------------------------

/// The stream override of one thread: the handle of the stream that stands in
/// for the context's own, and whether prefill owns it.
#[derive(Clone, Copy, Debug, PartialEq, Eq)]
pub struct StreamOverride {
    pub stream: Option<usize>,
    pub prefill: bool,
}

impl StreamOverride {
    /// No override.
    pub fn none() -> (r: Self)
        ensures
            r.stream is None,
            !r.prefill,
    {
        StreamOverride { stream: None, prefill: false }
    }
}

/// A scoped override: what was active before it, to be put back at its end.
#[derive(Debug)]
pub struct StreamOverrideGuard {
    pub previous: Option<usize>,
    pub previous_prefill: bool,
}

impl StreamOverrideGuard {
    /// The state that this guard puts back.
    pub open spec fn saved(self) -> StreamOverride {
        StreamOverride { stream: self.previous, prefill: self.previous_prefill }
    }

    /// Override the stream.
    pub fn activate(state: &mut StreamOverride, stream: usize) -> (r: Self)
        ensures
            *final(state) == (StreamOverride { stream: Some(stream), prefill: false }),
            r.saved() == *old(state),
    {
        Self::activate_inner(state, stream, false)
    }

    /// Override the stream on behalf of prefill.
    pub fn activate_prefill(state: &mut StreamOverride, stream: usize) -> (r: Self)
        ensures
            *final(state) == (StreamOverride { stream: Some(stream), prefill: true }),
            r.saved() == *old(state),
    {
        Self::activate_inner(state, stream, true)
    }

    fn activate_inner(state: &mut StreamOverride, stream: usize, prefill: bool) -> (r: Self)
        ensures
            *final(state) == (StreamOverride { stream: Some(stream), prefill }),
            r.saved() == *old(state),
    {
        let guard = StreamOverrideGuard {
            previous: state.stream,
            previous_prefill: state.prefill,
        };
        state.stream = Some(stream);
        state.prefill = prefill;
        guard
    }

    /// End the override.
    pub fn restore(self, state: &mut StreamOverride)
        ensures
            *final(state) == self.saved(),
    {
        state.stream = self.previous;
        state.prefill = self.previous_prefill;
    }
}

/// Whether a stream override is active.
pub fn has_stream_override(state: &StreamOverride) -> (r: bool)
    ensures
        r == (state.stream is Some),
{
    state.stream.is_some()
}

/// Whether prefill owns the stream override.
pub fn has_prefill_stream_override(state: &StreamOverride) -> (r: bool)
    ensures
        r == state.prefill,
{
    state.prefill
}

/// The stream that work is enqueued on: the override where there is one, the
/// context's own stream otherwise.
pub fn active_cu_stream(state: &StreamOverride, context_stream: usize) -> (r: usize)
    ensures
        r == (match state.stream {
            Some(stream) => stream,
            None => context_stream,
        }),
{
    match state.stream {
        Some(stream) => stream,
        None => context_stream,
    }
}

/// A scope of a thread's stream overrides opens or closes.
pub enum OverrideEvent {
    Enter { stream: usize, prefill: bool },
    Exit,
}

/// A thread: its override and the guards of the scopes that are open, the
/// innermost last.
pub struct OverrideStack {
    pub state: StreamOverride,
    pub guards: Seq<StreamOverrideGuard>,
}

/// The thread after one event. A scope that closes restores its guard; with
/// no scope open there is none to close.
pub open spec fn override_step(thread: OverrideStack, event: OverrideEvent) -> OverrideStack {
    match event {
        OverrideEvent::Enter { stream, prefill } => OverrideStack {
            state: StreamOverride { stream: Some(stream), prefill },
            guards: thread.guards.push(
                StreamOverrideGuard {
                    previous: thread.state.stream,
                    previous_prefill: thread.state.prefill,
                },
            ),
        },
        OverrideEvent::Exit => if thread.guards.len() == 0 {
            thread
        } else {
            OverrideStack {
                state: thread.guards.last().saved(),
                guards: thread.guards.drop_last(),
            }
        },
    }
}

/// The thread after a run of events.
pub open spec fn override_run(thread: OverrideStack, events: Seq<OverrideEvent>) -> OverrideStack
    decreases events.len(),
{
    if events.len() == 0 {
        thread
    } else {
        override_step(override_run(thread, events.drop_last()), events.last())
    }
}

/// No scope that was open before the run closes during it.
pub open spec fn keeps_outer_scopes(thread: OverrideStack, events: Seq<OverrideEvent>) -> bool {
    forall|k: int|
        0 <= k <= events.len() ==> (#[trigger] override_run(thread, events.take(k))).guards.len()
            >= thread.guards.len()
}

/// Overrides nest: once every scope that a run of events opened has closed,
/// the thread is exactly as it was, however the scopes were nested.
pub proof fn law_nested_overrides_restore(thread: OverrideStack, events: Seq<OverrideEvent>)
    requires
        keeps_outer_scopes(thread, events),
        override_run(thread, events).guards.len() == thread.guards.len(),
    ensures
        override_run(thread, events).state == thread.state,
        override_run(thread, events).guards == thread.guards,
{
    lemma_override_run(thread, events);
    let after = override_run(thread, events);
    assert(after.guards =~= thread.guards) by {
        assert(after.guards.take(thread.guards.len() as int) =~= after.guards);
    }
}

/// The outermost scope that a run opened holds the state before the run.
proof fn lemma_override_run(thread: OverrideStack, events: Seq<OverrideEvent>)
    requires
        keeps_outer_scopes(thread, events),
    ensures
        ({
            let after = override_run(thread, events);
            let depth = thread.guards.len() as int;
            &&& after.guards.len() >= depth
            &&& after.guards.take(depth) == thread.guards
            &&& after.guards.len() == depth ==> after.state == thread.state
            &&& after.guards.len() > depth ==> after.guards[depth].saved() == thread.state
        }),
    decreases events.len(),
{
    let depth = thread.guards.len() as int;
    assert(events.take(events.len() as int) =~= events);
    if events.len() == 0 {
        assert(thread.guards.take(depth) =~= thread.guards);
    } else {
        let earlier = events.drop_last();
        assert forall|k: int| 0 <= k <= earlier.len() implies (#[trigger] override_run(
            thread,
            earlier.take(k),
        )).guards.len() >= depth by {
            assert(earlier.take(k) =~= events.take(k));
        }
        lemma_override_run(thread, earlier);
        let before = override_run(thread, earlier);
        let after = override_run(thread, events);
        assert(after.guards.len() >= depth);
        assert(after.guards.take(depth) =~= before.guards.take(depth));
    }
}

// ---------------------------------------------------------------------------
// Waiting on a stream
// ---------------------------------------------------------------------------

/// What a query of a stream answered.
#[derive(Clone, Copy, Debug, PartialEq, Eq)]
pub enum StreamQuery {
    Ready,
    NotReady,
    Failed(i32),
}

/// What a wait does next.
#[derive(Clone, Copy, Debug, PartialEq, Eq)]
pub enum SpinAction {
    /// The stream has drained.
    Done,
    /// Query again.
    Spin,
    /// Polling has gone on long enough: synchronize the stream.
    Synchronize,
    /// The query failed.
    Fail(KernelError),
}

/// Milliseconds of polling before a wait synchronizes.
pub const STREAM_SPIN_WAIT_CAP_MS: u64 = 5;

/// One step of a wait: `past_cap` says whether the polling time is used up.
pub fn stream_spin_wait(query: StreamQuery, past_cap: bool) -> (r: SpinAction)
    ensures
        r == (match query {
            StreamQuery::Ready => SpinAction::Done,
            StreamQuery::NotReady => if past_cap {
                SpinAction::Synchronize
            } else {
                SpinAction::Spin
            },
            StreamQuery::Failed(code) => SpinAction::Fail(
                KernelError::Status { what: "cuStreamQuery", code },
            ),
        }),
{
    match query {
        StreamQuery::Ready => SpinAction::Done,
        StreamQuery::NotReady => if past_cap {
            SpinAction::Synchronize
        } else {
            SpinAction::Spin
        },
        StreamQuery::Failed(code) => SpinAction::Fail(
            KernelError::Status { what: "cuStreamQuery", code },
        ),
    }
}

/// Copy token ids from an `i32` buffer into a `u32` buffer: the bytes to
/// copy, or `None` where there is nothing to do.
pub fn memcpy_dtod_u32_from_i32(
    state: &StreamOverride,
    src_len: usize,
    dst_len: usize,
    count: usize,
) -> (r: Result<Option<usize>, KernelError>)
    requires
        src_len * 4 <= usize::MAX,
    ensures
        r == KernelError::outcome(
            KernelError::unless(
                state.stream is None,
                "dtod i32->u32 copy runs on the base stream only",
            ).or_fault(
                KernelError::unless_at_most(
                    count <= src_len,
                    "dtod i32->u32 copy exceeds the source",
                    count as int,
                    src_len as int,
                ),
            ).or_fault(
                KernelError::unless_at_most(
                    count <= dst_len,
                    "dtod i32->u32 copy exceeds the destination",
                    count as int,
                    dst_len as int,
                ),
            ),
            if count == 0 {
                None
            } else {
                Some((count * 4) as usize)
            },
        ),
{
    ensure_that(
        !has_stream_override(state),
        "dtod i32->u32 copy runs on the base stream only",
    )?;
    ensure_at_most(count <= src_len, "dtod i32->u32 copy exceeds the source", count, src_len)?;
    ensure_at_most(count <= dst_len, "dtod i32->u32 copy exceeds the destination", count, dst_len)?;
    if count == 0 {
        Ok(None)
    } else {
        Ok(Some(count * 4))
    }
}

// ---------------------------------------------------------------------------
// Tensor metadata
// ---------------------------------------------------------------------------

/// Marker trait for tensor metadata tags.
pub trait NamedTag {
    const NAME: &'static str;
}

/// Marker trait for tensor element type vocabulary.
pub trait DTypeTag: NamedTag {

}

/// Marker trait for tensor layout vocabulary.
pub trait LayoutTag: NamedTag {

}

/// Marker trait for tensor axis vocabulary.
pub trait AxisTag: NamedTag {

}

#[derive(Clone, Copy, Debug, Default)]
pub struct Bf16;

impl NamedTag for Bf16 {
    const NAME: &'static str = "bf16";
}

impl DTypeTag for Bf16 {

}

#[derive(Clone, Copy, Debug, Default)]
pub struct F32;

impl NamedTag for F32 {
    const NAME: &'static str = "f32";
}

impl DTypeTag for F32 {

}

#[derive(Clone, Copy, Debug, Default)]
pub struct I32;

impl NamedTag for I32 {
    const NAME: &'static str = "i32";
}

impl DTypeTag for I32 {

}

#[derive(Clone, Copy, Debug, Default)]
pub struct U32;

impl NamedTag for U32 {
    const NAME: &'static str = "u32";
}

impl DTypeTag for U32 {

}

#[derive(Clone, Copy, Debug, Default)]
pub struct U8;

impl NamedTag for U8 {
    const NAME: &'static str = "u8";
}

impl DTypeTag for U8 {

}

#[derive(Clone, Copy, Debug, Default)]
pub struct Contiguous1D;

impl NamedTag for Contiguous1D {
    const NAME: &'static str = "contiguous_1d";
}

impl LayoutTag for Contiguous1D {

}

#[derive(Clone, Copy, Debug, Default)]
pub struct RowMajor2D;

impl NamedTag for RowMajor2D {
    const NAME: &'static str = "row_major_2d";
}

impl LayoutTag for RowMajor2D {

}

#[derive(Clone, Copy, Debug, Default)]
pub struct HiddenStatesLayout;

impl NamedTag for HiddenStatesLayout {
    const NAME: &'static str = "hidden_states";
}

impl LayoutTag for HiddenStatesLayout {

}

#[derive(Clone, Copy, Debug, Default)]
pub struct PagedKvPageFirst;

impl NamedTag for PagedKvPageFirst {
    const NAME: &'static str = "paged_kv_page_first";
}

impl LayoutTag for PagedKvPageFirst {

}

#[derive(Clone, Copy, Debug, Default)]
pub struct Batch;

impl NamedTag for Batch {
    const NAME: &'static str = "batch";
}

impl AxisTag for Batch {

}

#[derive(Clone, Copy, Debug, Default)]
pub struct BatchPlusOne;

impl NamedTag for BatchPlusOne {
    const NAME: &'static str = "batch_plus_1";
}

impl AxisTag for BatchPlusOne {

}

#[derive(Clone, Copy, Debug, Default)]
pub struct HeadDim;

impl NamedTag for HeadDim {
    const NAME: &'static str = "head_dim";
}

impl AxisTag for HeadDim {

}

#[derive(Clone, Copy, Debug, Default)]
pub struct Hidden;

impl NamedTag for Hidden {
    const NAME: &'static str = "hidden";
}

impl AxisTag for Hidden {

}

#[derive(Clone, Copy, Debug, Default)]
pub struct InDim;

impl NamedTag for InDim {
    const NAME: &'static str = "in";
}

impl AxisTag for InDim {

}

#[derive(Clone, Copy, Debug, Default)]
pub struct Intermediate;

impl NamedTag for Intermediate {
    const NAME: &'static str = "intermediate";
}

impl AxisTag for Intermediate {

}

#[derive(Clone, Copy, Debug, Default)]
pub struct Inter2;

impl NamedTag for Inter2 {
    const NAME: &'static str = "inter2";
}

impl AxisTag for Inter2 {

}

#[derive(Clone, Copy, Debug, Default)]
pub struct Kv;

impl NamedTag for Kv {
    const NAME: &'static str = "kv";
}

impl AxisTag for Kv {

}

#[derive(Clone, Copy, Debug, Default)]
pub struct KvDim;

impl NamedTag for KvDim {
    const NAME: &'static str = "kv_dim";
}

impl AxisTag for KvDim {

}

#[derive(Clone, Copy, Debug, Default)]
pub struct KvHead;

impl NamedTag for KvHead {
    const NAME: &'static str = "kv_head";
}

impl AxisTag for KvHead {

}

#[derive(Clone, Copy, Debug, Default)]
pub struct Layer;

impl NamedTag for Layer {
    const NAME: &'static str = "layer";
}

impl AxisTag for Layer {

}

#[derive(Clone, Copy, Debug, Default)]
pub struct OutDim;

impl NamedTag for OutDim {
    const NAME: &'static str = "out";
}

impl AxisTag for OutDim {

}

#[derive(Clone, Copy, Debug, Default)]
pub struct OutTotal;

impl NamedTag for OutTotal {
    const NAME: &'static str = "out_total";
}

impl AxisTag for OutTotal {

}

#[derive(Clone, Copy, Debug, Default)]
pub struct Page;

impl NamedTag for Page {
    const NAME: &'static str = "page";
}

impl AxisTag for Page {

}

#[derive(Clone, Copy, Debug, Default)]
pub struct PageSlot;

impl NamedTag for PageSlot {
    const NAME: &'static str = "page_slot";
}

impl AxisTag for PageSlot {

}

#[derive(Clone, Copy, Debug, Default)]
pub struct PosInPage;

impl NamedTag for PosInPage {
    const NAME: &'static str = "pos_in_page";
}

impl AxisTag for PosInPage {

}

#[derive(Clone, Copy, Debug, Default)]
pub struct QDim;

impl NamedTag for QDim {
    const NAME: &'static str = "q_dim";
}

impl AxisTag for QDim {

}

#[derive(Clone, Copy, Debug, Default)]
pub struct RopeDim;

impl NamedTag for RopeDim {
    const NAME: &'static str = "rope_dim";
}

impl AxisTag for RopeDim {

}

#[derive(Clone, Copy, Debug, Default)]
pub struct SeqAxis;

impl NamedTag for SeqAxis {
    const NAME: &'static str = "seq";
}

impl AxisTag for SeqAxis {

}

#[derive(Clone, Copy, Debug, Default)]
pub struct Tile;

impl NamedTag for Tile {
    const NAME: &'static str = "tile";
}

impl AxisTag for Tile {

}

#[derive(Clone, Copy, Debug, Default)]
pub struct Token;

impl NamedTag for Token {
    const NAME: &'static str = "token";
}

impl AxisTag for Token {

}

#[derive(Clone, Copy, Debug, Default)]
pub struct Vocab;

impl NamedTag for Vocab {
    const NAME: &'static str = "vocab";
}

impl AxisTag for Vocab {

}

/// One named axis in an erased tensor metadata description.
#[derive(Clone, Debug, Eq, Hash, PartialEq)]
pub struct AxisSpec {
    pub name: String,
    pub size: usize,
}

impl AxisSpec {
    pub fn new<A: AxisTag>(size: usize) -> (r: Self)
        ensures
            r.name@ == A::NAME@,
            r.size == size,
    {
        AxisSpec { name: A::NAME.to_string(), size }
    }

    pub fn named(name: &str, size: usize) -> (r: Self)
        ensures
            r.name@ == name@,
            r.size == size,
    {
        AxisSpec { name: name.to_string(), size }
    }

    /// `name=size`.
    pub open spec fn text(self) -> Seq<char> {
        self.name@ + "="@ + crate::text::decimal(self.size as nat)
    }
}

/// The axes in order, separated by commas.
pub open spec fn axes_text(axes: Seq<AxisSpec>) -> Seq<char>
    decreases axes.len(),
{
    if axes.len() == 0 {
        Seq::empty()
    } else if axes.len() == 1 {
        axes[0].text()
    } else {
        axes_text(axes.drop_last()) + ", "@ + axes.last().text()
    }
}

/// Erased tensor metadata for schedules and reports.
#[derive(Clone, Debug, Eq, Hash, PartialEq)]
pub struct TensorSpec {
    pub dtype: String,
    pub layout: String,
    pub axes: Vec<AxisSpec>,
}

impl TensorSpec {
    pub fn new<D: DTypeTag, L: LayoutTag>(axes: Vec<AxisSpec>) -> (r: Self)
        ensures
            r.dtype@ == D::NAME@,
            r.layout@ == L::NAME@,
            r.axes == axes,
    {
        TensorSpec { dtype: D::NAME.to_string(), layout: L::NAME.to_string(), axes }
    }

    pub fn named(dtype: &str, layout: &str, axes: Vec<AxisSpec>) -> (r: Self)
        ensures
            r.dtype@ == dtype@,
            r.layout@ == layout@,
            r.axes == axes,
    {
        TensorSpec { dtype: dtype.to_string(), layout: layout.to_string(), axes }
    }

    /// `dtype[axis=size, ...] layout=layout`.
    pub open spec fn text(self) -> Seq<char> {
        self.dtype@ + "["@ + axes_text(self.axes@) + "] layout="@ + self.layout@
    }

    /// The description in one line.
    pub fn compact(&self) -> (r: String)
        ensures
            r@ == self.text(),
    {
        let mut out = self.dtype.clone();
        out.append("[");
        let ghost head = out@;
        let mut i: usize = 0;
        while i < self.axes.len()
            invariant
                i <= self.axes@.len(),
                out@ == head + axes_text(self.axes@.take(i as int)),
            decreases self.axes@.len() - i,
        {
            let ghost before = out@;
            if i > 0 {
                out.append(", ");
            }
            out.append(self.axes[i].name.as_str());
            out.append("=");
            push_decimal(&mut out, self.axes[i].size as u64);
            proof {
                let next = self.axes@.take(i + 1);
                assert(next.drop_last() =~= self.axes@.take(i as int));
                assert(next.last() == self.axes@[i as int]);
                assert(out@ =~= head + axes_text(next));
            }
            i += 1;
        }
        assert(self.axes@.take(self.axes@.len() as int) =~= self.axes@);
        out.append("] layout=");
        out.append(self.layout.as_str());
        assert(out@ =~= self.text());
        out
    }
}

/// A named kernel argument carrying an erased tensor description.
#[derive(Clone, Debug, Eq, Hash, PartialEq)]
pub struct TensorArg {
    pub name: String,
    pub spec: TensorSpec,
}

impl TensorArg {
    fn new(name: &str, spec: TensorSpec) -> (r: Self)
        ensures
            r.name@ == name@,
            r.spec == spec,
    {
        TensorArg { name: name.to_string(), spec }
    }

    /// The argument in one line: `name: description`.
    pub fn compact(&self) -> (r: String)
        ensures
            r@ == self.name@ + ": "@ + self.spec.text(),
    {
        let mut out = self.name.clone();
        out.append(": ");
        out.append(self.spec.compact().as_str());
        out
    }
}

/// String-valued non-tensor kernel metadata.
#[derive(Clone, Debug, Eq, Hash, PartialEq)]
pub struct AttrSpec {
    pub name: String,
    pub value: String,
}

impl AttrSpec {
    fn new(name: &str, value: String) -> (r: Self)
        ensures
            r.name@ == name@,
            r.value == value,
    {
        AttrSpec { name: name.to_string(), value }
    }
}

/// Erased logical kernel call shared by schedules and traces.
#[derive(Clone, Debug, Eq, Hash, PartialEq)]
pub struct KernelCall {
    pub op: String,
    pub label: String,
    pub inputs: Vec<TensorArg>,
    pub outputs: Vec<TensorArg>,
    pub attrs: Vec<AttrSpec>,
}

impl KernelCall {
    /// A call without arguments.
    #[must_use]
    pub fn new(op: &str, label: &str) -> (r: Self)
        ensures
            r.op@ == op@,
            r.label@ == label@,
            r.inputs@.len() == 0,
            r.outputs@.len() == 0,
            r.attrs@.len() == 0,
    {
        KernelCall {
            op: op.to_string(),
            label: label.to_string(),
            inputs: Vec::new(),
            outputs: Vec::new(),
            attrs: Vec::new(),
        }
    }

    /// Append an input.
    #[must_use]
    pub fn input(self, name: &str, spec: TensorSpec) -> (r: Self)
        ensures
            r.inputs@.len() == self.inputs@.len() + 1,
            r.inputs@.drop_last() == self.inputs@,
            r.inputs@.last().name@ == name@,
            r.inputs@.last().spec == spec,
            (KernelCall { inputs: self.inputs, ..r }) == self,
    {
        let mut call = self;
        call.inputs.push(TensorArg::new(name, spec));
        assert(call.inputs@.drop_last() =~= self.inputs@);
        call
    }

    /// Append an output.
    #[must_use]
    pub fn output(self, name: &str, spec: TensorSpec) -> (r: Self)
        ensures
            r.outputs@.len() == self.outputs@.len() + 1,
            r.outputs@.drop_last() == self.outputs@,
            r.outputs@.last().name@ == name@,
            r.outputs@.last().spec == spec,
            (KernelCall { outputs: self.outputs, ..r }) == self,
    {
        let mut call = self;
        call.outputs.push(TensorArg::new(name, spec));
        assert(call.outputs@.drop_last() =~= self.outputs@);
        call
    }

    /// Append an attribute.
    #[must_use]
    pub fn attr(self, name: &str, value: String) -> (r: Self)
        ensures
            r.attrs@.len() == self.attrs@.len() + 1,
            r.attrs@.drop_last() == self.attrs@,
            r.attrs@.last().name@ == name@,
            r.attrs@.last().value == value,
            (KernelCall { attrs: self.attrs, ..r }) == self,
    {
        let mut call = self;
        call.attrs.push(AttrSpec::new(name, value));
        assert(call.attrs@.drop_last() =~= self.attrs@);
        call
    }
}

/// A wait spins for at most five milliseconds before it blocks.
pub proof fn law_a_wait_spins_briefly()
    ensures
        STREAM_SPIN_WAIT_CAP_MS == 5,
{
}

} // verus!
