//! The DFlash2 candidate lattice and its grouped convolution.
//!
//! Selection drops the anchor row of each draft block, takes the best sixteen
//! candidates of every other row, scores every pair of neighbouring candidates
//! and walks the best path. The scratch is sized once, before any capture.

use vstd::prelude::*;

use super::linear::gemm_strided_batched_f32;
use super::linear::StridedGemmF32;
use super::linear::StridedGemmF32Launch;
use crate::error::checked_i32;
use crate::error::checked_product;
use crate::error::ensure;
use crate::error::ensure_at_most;
use crate::error::ensure_fit;
use crate::error::ensure_met;
use crate::error::ensure_that;
use crate::error::FaultList;
use crate::error::KernelError;
use crate::shape::DeviceMatrix;
use crate::shape::HiddenStates;
use crate::tensor::has_stream_override;
use crate::tensor::StreamOverride;

verus! {

/// Candidates that a row keeps.
pub const DFLASH2_CANDIDATE_K: usize = 16;

/// The fault of an allocation of `a` times `b` that no slice can hold.
pub open spec fn product_fault(a: int, b: int) -> Option<KernelError> {
    if a <= isize::MAX && a * b <= isize::MAX {
        None
    } else {
        Some(KernelError::Overflow { what: "DFlash2 allocation/shape" })
    }
}

/// `a` times `b`, refused where no slice can hold as many.
fn product(a: usize, b: usize) -> (r: Result<usize, KernelError>)
    ensures
        r == KernelError::outcome(product_fault(a as int, b as int), (a * b) as usize),
        r matches Ok(n) ==> n == a * b,
{
    proof {
        assert(a * b >= 0) by (nonlinear_arith);
    }
    if a > isize::MAX as usize {
        return Err(KernelError::Overflow { what: "DFlash2 allocation/shape" });
    }
    match a.checked_mul(b) {
        Some(n) => {
            if n <= isize::MAX as usize {
                Ok(n)
            } else {
                Err(KernelError::Overflow { what: "DFlash2 allocation/shape" })
            }
        },
        None => Err(KernelError::Overflow { what: "DFlash2 allocation/shape" }),
    }
}

/// Element counts of a scratch, before the library is asked for its workspace.
#[derive(Clone, Copy, Debug, PartialEq, Eq)]
pub struct DFlash2Shape {
    pub max_batch: usize,
    pub block_size: usize,
    pub vocab: usize,
    pub rank: usize,
    pub rows_per_chunk: usize,
    /// Rows that are selected from: a block less its anchor, per request.
    pub rows: usize,
    /// Packed keys of a chunk.
    pub keys: usize,
    pub chunk_candidates: usize,
    pub candidates: usize,
    /// Gathered codebook elements of every candidate.
    pub gathered: usize,
    /// Pairs of neighbouring candidates.
    pub edges: usize,
}

impl DFlash2Shape {
    /// The counts of the sizes asked for, where none of them overflows.
    pub open spec fn of(
        max_batch: usize,
        block_size: usize,
        vocab: usize,
        rank: usize,
        rows_per_chunk: usize,
    ) -> DFlash2Shape {
        let rows = max_batch * (block_size - 1);
        DFlash2Shape {
            max_batch,
            block_size,
            vocab,
            rank,
            rows_per_chunk,
            rows: rows as usize,
            keys: (rows_per_chunk * vocab) as usize,
            chunk_candidates: (rows_per_chunk * DFLASH2_CANDIDATE_K) as usize,
            candidates: (rows * DFLASH2_CANDIDATE_K) as usize,
            gathered: (rows * DFLASH2_CANDIDATE_K * rank) as usize,
            edges: (rows * DFLASH2_CANDIDATE_K * DFLASH2_CANDIDATE_K) as usize,
        }
    }

    /// Why the sizes are refused, if they are.
    pub open spec fn fault(
        overridden: bool,
        max_batch: usize,
        block_size: usize,
        vocab: usize,
        rank: usize,
        rows_per_chunk: usize,
    ) -> Option<KernelError> {
        let input_rows = max_batch * block_size;
        let rows = max_batch * (block_size - 1);
        let candidates = rows * DFLASH2_CANDIDATE_K;
        KernelError::unless(!overridden, "DFlash2 scratch requires the base stream")
            .or_fault(KernelError::unless(
                max_batch > 0 && block_size >= 2 && rank > 0,
                "DFlash2 requires max_batch > 0, block_size >= 2, rank > 0",
            ))
            .or_fault(KernelError::unless_met(
                vocab >= DFLASH2_CANDIDATE_K && vocab <= i32::MAX,
                "DFlash2 vocab must be in 16..=i32::MAX",
                vocab as int,
            ))
            .or_fault(KernelError::too_wide(rank as int, "DFlash2 rank"))
            .or_fault(product_fault(max_batch as int, block_size as int))
            .or_fault(KernelError::too_wide(input_rows, "DFlash2 input rows"))
            .or_fault(product_fault(max_batch as int, block_size - 1))
            .or_fault(KernelError::unless_fit(
                0 < rows_per_chunk <= rows,
                "DFlash2 packing chunk must be in 1..=rows",
                rows_per_chunk as int,
                rows,
            ))
            .or_fault(product_fault(rows_per_chunk as int, vocab as int))
            .or_fault(product_fault(rows_per_chunk as int, DFLASH2_CANDIDATE_K as int))
            .or_fault(product_fault(rows, DFLASH2_CANDIDATE_K as int))
            .or_fault(product_fault(candidates, rank as int))
            .or_fault(product_fault(candidates, DFLASH2_CANDIDATE_K as int))
    }

    /// Whether the counts are those of the sizes, each of which a slice holds.
    pub open spec fn wf(self) -> bool {
        &&& self.max_batch > 0
        &&& self.block_size >= 2
        &&& self.rank > 0
        &&& DFLASH2_CANDIDATE_K <= self.vocab <= i32::MAX
        &&& self.max_batch * self.block_size <= i32::MAX
        &&& self.rows == self.max_batch * (self.block_size - 1)
        &&& 0 < self.rows_per_chunk <= self.rows
        &&& self.keys == self.rows_per_chunk * self.vocab
        &&& self.chunk_candidates == self.rows_per_chunk * DFLASH2_CANDIDATE_K
        &&& self.candidates == self.rows * DFLASH2_CANDIDATE_K
        &&& self.gathered == self.candidates * self.rank
        &&& self.edges == self.candidates * DFLASH2_CANDIDATE_K
        &&& self.gathered <= isize::MAX
        &&& self.edges <= isize::MAX
    }

    /// Count the elements of a scratch for `max_batch` requests.
    pub fn new(
        streams: &StreamOverride,
        max_batch: usize,
        block_size: usize,
        vocab: usize,
        rank: usize,
        rows_per_chunk: usize,
    ) -> (r: Result<Self, KernelError>)
        ensures
            r == KernelError::outcome(
                Self::fault(
                    streams.stream is Some,
                    max_batch,
                    block_size,
                    vocab,
                    rank,
                    rows_per_chunk,
                ),
                Self::of(max_batch, block_size, vocab, rank, rows_per_chunk),
            ),
            r matches Ok(shape) ==> shape.wf(),
    {
        ensure_that(!has_stream_override(streams), "DFlash2 scratch requires the base stream")?;
        ensure_that(
            max_batch > 0 && block_size >= 2 && rank > 0,
            "DFlash2 requires max_batch > 0, block_size >= 2, rank > 0",
        )?;
        ensure_met(
            vocab >= DFLASH2_CANDIDATE_K && vocab <= 0x7fff_ffff,
            "DFlash2 vocab must be in 16..=i32::MAX",
            vocab,
        )?;
        checked_i32(rank, "DFlash2 rank")?;
        let input_rows: usize = product(max_batch, block_size)?;
        checked_i32(input_rows, "DFlash2 input rows")?;
        let rows: usize = product(max_batch, block_size - 1)?;
        ensure_fit(
            rows_per_chunk > 0 && rows_per_chunk <= rows,
            "DFlash2 packing chunk must be in 1..=rows",
            rows_per_chunk,
            rows,
        )?;
        let keys: usize = product(rows_per_chunk, vocab)?;
        let chunk_candidates: usize = product(rows_per_chunk, DFLASH2_CANDIDATE_K)?;
        let candidates: usize = product(rows, DFLASH2_CANDIDATE_K)?;
        let gathered: usize = product(candidates, rank)?;
        let edges: usize = product(candidates, DFLASH2_CANDIDATE_K)?;
        Ok(
            DFlash2Shape {
                max_batch,
                block_size,
                vocab,
                rank,
                rows_per_chunk,
                rows,
                keys,
                chunk_candidates,
                candidates,
                gathered,
                edges,
            },
        )
    }
}

/// A scratch of fixed capacity, local to its stream. Its outputs are sized for
/// the capacity: only the rows of the active requests belong to the latest
/// selection, and the error flag is to be read with the path.
#[derive(Clone, Copy, Debug, PartialEq, Eq)]
pub struct DFlash2Scratch {
    pub shape: DFlash2Shape,
    pub topk_workspace_len: usize,
    pub total_bytes: usize,
}

impl DFlash2Scratch {
    /// Bytes of the library's workspace: at least one.
    pub open spec fn workspace(workspace_bytes: usize) -> int {
        if workspace_bytes >= 1 {
            workspace_bytes as int
        } else {
            1
        }
    }

    /// Bytes of every buffer: the packed keys of a chunk and those that it
    /// keeps, the workspace, an id and a score per candidate, two gathered
    /// codebooks, the edges, the path and the error flag.
    pub open spec fn bytes(shape: DFlash2Shape, workspace_bytes: usize) -> int {
        shape.keys * 8 + shape.chunk_candidates * 8 + Self::workspace(workspace_bytes)
            + shape.candidates * 8 + shape.gathered * 8 + shape.edges * 4 + shape.rows * 4 + 4
    }

    /// Whether the scratch is sized for its shape.
    pub open spec fn wf(self) -> bool {
        &&& self.shape.wf()
        &&& self.topk_workspace_len >= 1
        &&& self.total_bytes == Self::bytes(self.shape, self.topk_workspace_len)
        &&& self.total_bytes <= isize::MAX
    }

    /// Why a scratch cannot be allocated, if it cannot.
    pub open spec fn fault(shape: DFlash2Shape, workspace_bytes: usize) -> Option<KernelError> {
        product_fault(shape.keys as int, 8)
            .or_fault(product_fault(shape.chunk_candidates as int, 8))
            .or_fault(product_fault(shape.candidates as int, 8))
            .or_fault(product_fault(shape.gathered as int, 8))
            .or_fault(product_fault(shape.edges as int, 4))
            .or_fault(product_fault(shape.rows as int, 4))
            .or_fault(
            if Self::bytes(shape, workspace_bytes) <= isize::MAX {
                None
            } else {
                Some(KernelError::Overflow { what: "DFlash2 scratch byte total" })
            },
        )
    }

    /// Size the scratch. `workspace_bytes` is what the selection library asks
    /// for on a vocabulary of the shape's width.
    pub fn new(shape: DFlash2Shape, workspace_bytes: usize) -> (r: Result<Self, KernelError>)
        requires
            shape.wf(),
        ensures
            r == KernelError::outcome(
                Self::fault(shape, workspace_bytes),
                (DFlash2Scratch {
                    shape,
                    topk_workspace_len: Self::workspace(workspace_bytes) as usize,
                    total_bytes: Self::bytes(shape, workspace_bytes) as usize,
                }),
            ),
            r matches Ok(scratch) ==> scratch.wf(),
    {
        let workspace: usize = if workspace_bytes >= 1 {
            workspace_bytes
        } else {
            1
        };
        let keys: usize = product(shape.keys, 8)?;
        let chunk: usize = product(shape.chunk_candidates, 8)?;
        let candidates: usize = product(shape.candidates, 8)?;
        let gathered: usize = product(shape.gathered, 8)?;
        let edges: usize = product(shape.edges, 4)?;
        let rows: usize = product(shape.rows, 4)?;
        let mut total: usize = add_bytes(keys, chunk)?;
        total = add_bytes(total, workspace)?;
        total = add_bytes(total, candidates)?;
        total = add_bytes(total, gathered)?;
        total = add_bytes(total, edges)?;
        total = add_bytes(total, rows)?;
        total = add_bytes(total, 4)?;
        Ok(DFlash2Scratch { shape, topk_workspace_len: workspace, total_bytes: total })
    }

    pub fn candidate_ids(&self) -> (r: usize)
        ensures
            r == self.shape.candidates,
    {
        self.shape.candidates
    }

    pub fn unary_scores(&self) -> (r: usize)
        ensures
            r == self.shape.candidates,
    {
        self.shape.candidates
    }

    /// Edges in the order request, position, predecessor, successor.
    pub fn edge_scores(&self) -> (r: usize)
        ensures
            r == self.shape.edges,
    {
        self.shape.edges
    }

    pub fn selected_ids(&self) -> (r: usize)
        ensures
            r == self.shape.rows,
    {
        self.shape.rows
    }

    /// One word of flags: a NaN or an infinite score, fewer than sixteen finite
    /// candidates, an invalid token, a gate or an edge that is not finite. Zero
    /// is a valid selection.
    pub fn error_flag(&self) -> (r: usize)
        ensures
            r == 1,
    {
        1
    }

    pub fn total_bytes(&self) -> (r: usize)
        ensures
            r == self.total_bytes,
    {
        self.total_bytes
    }
}

fn add_bytes(sum: usize, bytes: usize) -> (r: Result<usize, KernelError>)
    ensures
        r == (if sum + bytes <= isize::MAX {
            Ok((sum + bytes) as usize)
        } else {
            Err(KernelError::Overflow { what: "DFlash2 scratch byte total" })
        }),
{
    match sum.checked_add(bytes) {
        Some(n) => {
            if n <= isize::MAX as usize {
                Ok(n)
            } else {
                Err(KernelError::Overflow { what: "DFlash2 scratch byte total" })
            }
        },
        None => Err(KernelError::Overflow { what: "DFlash2 scratch byte total" }),
    }
}

/// Which buffers belong to the scratch's base stream.
#[derive(Clone, Copy, Debug, PartialEq, Eq)]
pub struct DFlash2Streams {
    pub predecessor: bool,
    pub successor: bool,
    pub logits: bool,
    pub projected_hidden: bool,
    pub anchors: bool,
    pub scratch: bool,
}

/// What [`dflash2_select_into`] takes.
#[derive(Clone, Copy, Debug)]
pub struct DFlash2SelectCall {
    pub streams: StreamOverride,
    pub logits: HiddenStates,
    pub projected_hidden: HiddenStates,
    pub predecessor: DeviceMatrix,
    pub successor: DeviceMatrix,
    pub anchors_len: usize,
    pub active_batch: usize,
    pub on_base_stream: DFlash2Streams,
}

/// The launches of a selection, in their order: candidates and gather, edge
/// products, path walk.
#[derive(Clone, Copy, Debug, PartialEq, Eq)]
pub struct DFlash2Launch {
    pub workspace_bytes: usize,
    pub active_batch: i32,
    pub block_size: i32,
    pub vocab: i32,
    pub rank: i32,
    pub rows_per_chunk: i32,
    pub edges: StridedGemmF32Launch,
    /// Rows of a block less its anchor.
    pub positions: i32,
}

/// What a codebook is refused with.
#[derive(Clone, Copy, Debug)]
pub struct CodebookTexts {
    pub rows: &'static str,
    pub cols: &'static str,
    pub backing: &'static str,
    pub stream: &'static str,
}

impl DFlash2SelectCall {
    /// Why a codebook is refused, if it is.
    pub open spec fn codebook_fault(
        matrix: DeviceMatrix,
        on_stream: bool,
        scratch: DFlash2Scratch,
        texts: CodebookTexts,
    ) -> Option<KernelError> {
        let elements = scratch.shape.vocab * scratch.shape.rank;
        KernelError::unless_sized(
            matrix.rows == scratch.shape.vocab,
            texts.rows,
            matrix.rows as int,
            scratch.shape.vocab as int,
        )
            .or_fault(KernelError::unless_sized(
                matrix.cols == scratch.shape.rank,
                texts.cols,
                matrix.cols as int,
                scratch.shape.rank as int,
            ))
            .or_fault(KernelError::unless_sized(
                matrix.data_len >= elements,
                texts.backing,
                matrix.data_len as int,
                elements,
            ))
            .or_fault(KernelError::unless(on_stream, texts.stream))
    }

    /// Why a selection of at least one request is refused, if it is.
    pub open spec fn active_fault(self, scratch: DFlash2Scratch) -> Option<KernelError> {
        let input_rows = self.active_batch * scratch.shape.block_size;
        product_fault(self.active_batch as int, scratch.shape.block_size as int)
            .or_fault(self.logits.extent_fault("DFlash2 unary logits"))
            .or_fault(self.projected_hidden.extent_fault("DFlash2 projected hidden"))
            .or_fault(KernelError::unless_sized(
                self.logits.hidden_dim == scratch.shape.vocab,
                "DFlash2 unary logits width",
                self.logits.hidden_dim as int,
                scratch.shape.vocab as int,
            ))
            .or_fault(KernelError::unless_sized(
                self.logits.seq_len >= input_rows,
                "DFlash2 unary logits rows",
                self.logits.seq_len as int,
                input_rows,
            ))
            .or_fault(KernelError::unless_sized(
                self.projected_hidden.hidden_dim == scratch.shape.rank,
                "DFlash2 projected hidden width",
                self.projected_hidden.hidden_dim as int,
                scratch.shape.rank as int,
            ))
            .or_fault(KernelError::unless_sized(
                self.projected_hidden.seq_len >= input_rows,
                "DFlash2 projected hidden rows",
                self.projected_hidden.seq_len as int,
                input_rows,
            ))
            .or_fault(product_fault(scratch.shape.vocab as int, scratch.shape.rank as int))
            .or_fault(Self::codebook_fault(
                self.predecessor,
                self.on_base_stream.predecessor,
                scratch,
                CodebookTexts {
                    rows: "DFlash2 predecessor codebook rows",
                    cols: "DFlash2 predecessor codebook columns",
                    backing: "DFlash2 predecessor codebook backing",
                    stream: "DFlash2 predecessor must belong to the scratch base stream",
                },
            ))
            .or_fault(Self::codebook_fault(
                self.successor,
                self.on_base_stream.successor,
                scratch,
                CodebookTexts {
                    rows: "DFlash2 successor codebook rows",
                    cols: "DFlash2 successor codebook columns",
                    backing: "DFlash2 successor codebook backing",
                    stream: "DFlash2 successor must belong to the scratch base stream",
                },
            ))
            .or_fault(KernelError::unless_sized(
                self.anchors_len >= self.active_batch,
                "DFlash2 anchors shorter than active batch",
                self.anchors_len as int,
                self.active_batch as int,
            ))
            .or_fault(KernelError::unless(
                self.on_base_stream.logits,
                "DFlash2 logits must belong to the scratch base stream",
            ))
            .or_fault(KernelError::unless(
                self.on_base_stream.projected_hidden,
                "DFlash2 projected hidden must belong to the scratch base stream",
            ))
            .or_fault(KernelError::unless(
                self.on_base_stream.anchors,
                "DFlash2 anchors must belong to the scratch base stream",
            ))
            .or_fault(KernelError::unless(
                self.on_base_stream.scratch,
                "DFlash2 scratch must belong to the scratch base stream",
            ))
    }

    /// Why the selection is refused, if it is. An empty batch is only held
    /// against the stream and the capacity.
    pub open spec fn fault(self, scratch: DFlash2Scratch) -> Option<KernelError> {
        KernelError::unless(
            !(self.streams.stream is Some),
            "DFlash2 selection requires the base stream",
        )
            .or_fault(KernelError::unless_at_most(
                self.active_batch <= scratch.shape.max_batch,
                "DFlash2 active batch exceeds capacity",
                self.active_batch as int,
                scratch.shape.max_batch as int,
            ))
            .or_fault(
            if self.active_batch == 0 {
                None
            } else {
                self.active_fault(scratch)
            },
        )
    }

    /// The edge products: for each row, the candidates' gathered successors
    /// against their gated predecessors.
    pub open spec fn edge_products(self, scratch: DFlash2Scratch) -> StridedGemmF32 {
        StridedGemmF32 {
            transpose_a: true,
            transpose_b: false,
            m: DFLASH2_CANDIDATE_K,
            n: DFLASH2_CANDIDATE_K,
            k: scratch.shape.rank,
            a_len: scratch.shape.gathered,
            lda: scratch.shape.rank,
            stride_a: (DFLASH2_CANDIDATE_K * scratch.shape.rank) as usize,
            b_len: scratch.shape.gathered,
            ldb: scratch.shape.rank,
            stride_b: (DFLASH2_CANDIDATE_K * scratch.shape.rank) as usize,
            accumulate: false,
            c_len: scratch.shape.edges,
            ldc: DFLASH2_CANDIDATE_K,
            stride_c: 256,
            batch: (self.active_batch * (scratch.shape.block_size - 1)) as usize,
        }
    }

    /// The launches of a selection without a fault; none for an empty batch.
    pub open spec fn launch(self, scratch: DFlash2Scratch) -> Option<DFlash2Launch> {
        if self.active_batch == 0 {
            None
        } else {
            Some(
                DFlash2Launch {
                    workspace_bytes: scratch.topk_workspace_len,
                    active_batch: self.active_batch as i32,
                    block_size: scratch.shape.block_size as i32,
                    vocab: scratch.shape.vocab as i32,
                    rank: scratch.shape.rank as i32,
                    rows_per_chunk: scratch.shape.rows_per_chunk as i32,
                    edges: self.edge_products(scratch).launch(),
                    positions: (scratch.shape.block_size - 1) as i32,
                },
            )
        }
    }
}

fn check_stream(on_stream: bool, what: &'static str) -> (r: Result<(), KernelError>)
    ensures
        r == KernelError::outcome(KernelError::unless(on_stream, what), ()),
{
    ensure_that(on_stream, what)
}

fn check_codebook(
    matrix: &DeviceMatrix,
    on_stream: bool,
    scratch: &DFlash2Scratch,
    elements: usize,
    texts: &CodebookTexts,
) -> (r: Result<(), KernelError>)
    requires
        elements == scratch.shape.vocab * scratch.shape.rank,
    ensures
        r == KernelError::outcome(
            DFlash2SelectCall::codebook_fault(*matrix, on_stream, *scratch, *texts),
            (),
        ),
{
    ensure(
        matrix.rows == scratch.shape.vocab,
        texts.rows,
        matrix.rows,
        scratch.shape.vocab,
    )?;
    ensure(matrix.cols == scratch.shape.rank, texts.cols, matrix.cols, scratch.shape.rank)?;
    ensure(matrix.data_len >= elements, texts.backing, matrix.data_len, elements)?;
    check_stream(on_stream, texts.stream)
}

/// Select the draft path of every active request. Nothing is allocated, moved
/// to the host or waited for. An empty batch launches nothing, and its caller
/// does not read the scratch.
pub fn dflash2_select_into(c: &DFlash2SelectCall, scratch: &DFlash2Scratch) -> (r: Result<
    Option<DFlash2Launch>,
    KernelError,
>)
    requires
        scratch.wf(),
    ensures
        r == KernelError::outcome(c.fault(*scratch), c.launch(*scratch)),
{
    ensure_that(
        !has_stream_override(&c.streams),
        "DFlash2 selection requires the base stream",
    )?;
    ensure_at_most(
        c.active_batch <= scratch.shape.max_batch,
        "DFlash2 active batch exceeds capacity",
        c.active_batch,
        scratch.shape.max_batch,
    )?;
    if c.active_batch == 0 {
        return Ok(None);
    }
    let input_rows: usize = product(c.active_batch, scratch.shape.block_size)?;
    c.logits.checked_extent("DFlash2 unary logits")?;
    c.projected_hidden.checked_extent("DFlash2 projected hidden")?;
    ensure(
        c.logits.hidden_dim == scratch.shape.vocab,
        "DFlash2 unary logits width",
        c.logits.hidden_dim,
        scratch.shape.vocab,
    )?;
    ensure(
        c.logits.seq_len >= input_rows,
        "DFlash2 unary logits rows",
        c.logits.seq_len,
        input_rows,
    )?;
    ensure(
        c.projected_hidden.hidden_dim == scratch.shape.rank,
        "DFlash2 projected hidden width",
        c.projected_hidden.hidden_dim,
        scratch.shape.rank,
    )?;
    ensure(
        c.projected_hidden.seq_len >= input_rows,
        "DFlash2 projected hidden rows",
        c.projected_hidden.seq_len,
        input_rows,
    )?;
    let elements: usize = product(scratch.shape.vocab, scratch.shape.rank)?;
    check_codebook(
        &c.predecessor,
        c.on_base_stream.predecessor,
        scratch,
        elements,
        &CodebookTexts {
            rows: "DFlash2 predecessor codebook rows",
            cols: "DFlash2 predecessor codebook columns",
            backing: "DFlash2 predecessor codebook backing",
            stream: "DFlash2 predecessor must belong to the scratch base stream",
        },
    )?;
    check_codebook(
        &c.successor,
        c.on_base_stream.successor,
        scratch,
        elements,
        &CodebookTexts {
            rows: "DFlash2 successor codebook rows",
            cols: "DFlash2 successor codebook columns",
            backing: "DFlash2 successor codebook backing",
            stream: "DFlash2 successor must belong to the scratch base stream",
        },
    )?;
    ensure(
        c.anchors_len >= c.active_batch,
        "DFlash2 anchors shorter than active batch",
        c.anchors_len,
        c.active_batch,
    )?;
    check_stream(c.on_base_stream.logits, "DFlash2 logits must belong to the scratch base stream")?;
    check_stream(
        c.on_base_stream.projected_hidden,
        "DFlash2 projected hidden must belong to the scratch base stream",
    )?;
    check_stream(
        c.on_base_stream.anchors,
        "DFlash2 anchors must belong to the scratch base stream",
    )?;
    check_stream(
        c.on_base_stream.scratch,
        "DFlash2 scratch must belong to the scratch base stream",
    )?;
    proof {
        lemma_edge_products_fit(*c, *scratch);
    }
    let rows: usize = c.active_batch * (scratch.shape.block_size - 1);
    let candidate_stride: usize = DFLASH2_CANDIDATE_K * scratch.shape.rank;
    let edges: StridedGemmF32Launch = gemm_strided_batched_f32(
        &StridedGemmF32 {
            transpose_a: true,
            transpose_b: false,
            m: DFLASH2_CANDIDATE_K,
            n: DFLASH2_CANDIDATE_K,
            k: scratch.shape.rank,
            a_len: scratch.shape.gathered,
            lda: scratch.shape.rank,
            stride_a: candidate_stride,
            b_len: scratch.shape.gathered,
            ldb: scratch.shape.rank,
            stride_b: candidate_stride,
            accumulate: false,
            c_len: scratch.shape.edges,
            ldc: DFLASH2_CANDIDATE_K,
            stride_c: DFLASH2_CANDIDATE_K * DFLASH2_CANDIDATE_K,
            batch: rows,
        },
    )?;
    Ok(
        Some(
            DFlash2Launch {
                workspace_bytes: scratch.topk_workspace_len,
                active_batch: c.active_batch as i32,
                block_size: scratch.shape.block_size as i32,
                vocab: scratch.shape.vocab as i32,
                rank: scratch.shape.rank as i32,
                rows_per_chunk: scratch.shape.rows_per_chunk as i32,
                edges,
                positions: (scratch.shape.block_size - 1) as i32,
            },
        ),
    )
}

proof fn lemma_edge_products_fit(call: DFlash2SelectCall, scratch: DFlash2Scratch)
    requires
        scratch.wf(),
        0 < call.active_batch <= scratch.shape.max_batch,
    ensures
        1 <= call.active_batch * (scratch.shape.block_size - 1) <= scratch.shape.rows,
        DFLASH2_CANDIDATE_K * scratch.shape.rank <= scratch.shape.gathered,
        (DFLASH2_CANDIDATE_K * scratch.shape.rank) * (call.active_batch * (
        scratch.shape.block_size - 1)) <= scratch.shape.gathered,
        256 * (call.active_batch * (scratch.shape.block_size - 1)) <= scratch.shape.edges,
{
    let s = scratch.shape;
    let p = s.block_size - 1;
    let rows = call.active_batch * p;
    assert(1 <= rows <= s.max_batch * p) by (nonlinear_arith)
        requires
            0 < call.active_batch <= s.max_batch,
            p >= 1,
            rows == call.active_batch * p,
    ;
    let k = DFLASH2_CANDIDATE_K as int;
    assert(s.gathered == (s.rows * k) * s.rank);
    assert((k * s.rank) * rows <= (s.rows * k) * s.rank) by (nonlinear_arith)
        requires
            0 <= rows <= s.rows,
            k == 16,
            s.rank >= 0,
    ;
    assert(k * s.rank <= (k * s.rank) * rows) by (nonlinear_arith)
        requires
            rows >= 1,
            k == 16,
            s.rank >= 0,
    ;
}

/// An accepted selection never fails halfway: its edge products are backed by
/// the scratch, so a launch that has begun only depends on the device.
pub proof fn law_accepted_selection_completes(call: DFlash2SelectCall, scratch: DFlash2Scratch)
    requires
        scratch.wf(),
        call.active_batch > 0,
        call.fault(scratch) is None,
    ensures
        call.edge_products(scratch).fault() is None,
{
    lemma_edge_products_fit(call, scratch);
}

/// Where a row `i` of the active requests writes its candidates and its edges,
/// the scratch has room, whatever the size of the batch.
pub proof fn law_selection_rows_are_backed(
    call: DFlash2SelectCall,
    scratch: DFlash2Scratch,
    i: int,
)
    requires
        scratch.wf(),
        call.fault(scratch) is None,
        0 <= i < call.active_batch * (scratch.shape.block_size - 1),
    ensures
        i < scratch.shape.rows,
        (i + 1) * DFLASH2_CANDIDATE_K <= scratch.shape.candidates,
        (i + 1) * DFLASH2_CANDIDATE_K * DFLASH2_CANDIDATE_K <= scratch.shape.edges,
        (i + 1) * DFLASH2_CANDIDATE_K * scratch.shape.rank <= scratch.shape.gathered,
{
    let s = scratch.shape;
    assert(call.active_batch > 0) by (nonlinear_arith)
        requires
            0 <= i < call.active_batch * (s.block_size - 1),
            s.block_size >= 2,
            call.active_batch >= 0,
    ;
    lemma_edge_products_fit(call, scratch);
    assert((i + 1) * 16 * s.rank <= s.rows * 16 * s.rank) by (nonlinear_arith)
        requires
            i + 1 <= s.rows,
            s.rank >= 0,
    ;
}

/// What [`dflash2_grouped_conv_into`] takes.
#[derive(Clone, Copy, Debug)]
pub struct DFlash2ConvCall {
    pub input: HiddenStates,
    /// Coefficients, two sides of `taps * groups` per row.
    pub dynamic: HiddenStates,
    /// Elements of the base coefficients, two sides of `taps * hidden`.
    pub base_len: usize,
    pub block_size: usize,
    pub group_size: usize,
    pub side: usize,
    pub output: HiddenStates,
}

/// The C arguments that [`dflash2_grouped_conv_into`] derives.
#[derive(Clone, Copy, Debug, PartialEq, Eq)]
pub struct DFlash2ConvLaunch {
    pub rows: i32,
    pub hidden_dim: i32,
    pub block_size: i32,
    pub group_size: i32,
    pub taps: i32,
    pub side: i32,
}

impl DFlash2ConvCall {
    /// Groups of a row.
    pub open spec fn groups(self) -> int {
        self.input.hidden_dim as int / self.group_size as int
    }

    /// Taps of a side.
    pub open spec fn taps(self) -> int {
        self.dynamic.hidden_dim as int / (2 * self.groups())
    }

    /// Why the kernel cannot run, if it cannot.
    pub open spec fn fault(self) -> Option<KernelError> {
        self.input.extent_fault("DFlash2 conv input")
            .or_fault(self.dynamic.extent_fault("DFlash2 conv coefficients"))
            .or_fault(self.output.extent_fault("DFlash2 conv output"))
            .or_fault(KernelError::unless(
                self.block_size > 0 && self.input.seq_len > 0 && self.input.seq_len
                    % self.block_size == 0,
                "DFlash2 conv input must contain complete nonempty draft blocks",
            ))
            .or_fault(KernelError::unless(
                self.group_size > 0 && self.input.hidden_dim > 0 && self.input.hidden_dim
                    % self.group_size == 0,
                "DFlash2 conv group size must divide hidden width",
            ))
            .or_fault(KernelError::unless(
                self.dynamic.seq_len == self.input.seq_len && self.dynamic.hidden_dim > 0
                    && self.dynamic.hidden_dim as int % (2 * self.groups()) == 0,
                "DFlash2 conv coefficient shape must be [rows, 2 * taps * groups]",
            ))
            .or_fault(KernelError::overflow(
                self.dynamic.hidden_dim * self.group_size,
                "DFlash2 conv base extent",
            ))
            .or_fault(KernelError::unless(
                self.base_len == self.dynamic.hidden_dim * self.group_size && self.side < 2,
                "DFlash2 conv base must have shape [2, taps, hidden], with side 0 or 1",
            ))
            .or_fault(KernelError::unless(
                self.output.shaped_like(self.input),
                "DFlash2 conv output shape must match input",
            ))
            .or_fault(KernelError::too_wide(self.input.seq_len as int, "DFlash2 conv rows"))
            .or_fault(KernelError::too_wide(self.input.hidden_dim as int, "DFlash2 conv hidden"))
            .or_fault(KernelError::too_wide(self.block_size as int, "DFlash2 conv block size"))
            .or_fault(KernelError::too_wide(self.group_size as int, "DFlash2 conv group size"))
            .or_fault(KernelError::too_wide(self.taps(), "DFlash2 conv taps"))
    }

    /// The launch of a call without a fault.
    pub open spec fn launch(self) -> DFlash2ConvLaunch {
        DFlash2ConvLaunch {
            rows: self.input.seq_len as i32,
            hidden_dim: self.input.hidden_dim as i32,
            block_size: self.block_size as i32,
            group_size: self.group_size as i32,
            taps: self.taps() as i32,
            side: self.side as i32,
        }
    }
}

/// Apply one side of the convolution pair. Both sides reuse the coefficients
/// that were computed before the sublayer.
pub fn dflash2_grouped_conv_into(c: &DFlash2ConvCall) -> (r: Result<
    DFlash2ConvLaunch,
    KernelError,
>)
    ensures
        r == KernelError::outcome(c.fault(), c.launch()),
{
    c.input.checked_extent("DFlash2 conv input")?;
    c.dynamic.checked_extent("DFlash2 conv coefficients")?;
    c.output.checked_extent("DFlash2 conv output")?;
    ensure_that(
        c.block_size > 0 && c.input.seq_len > 0 && c.input.seq_len % c.block_size == 0,
        "DFlash2 conv input must contain complete nonempty draft blocks",
    )?;
    ensure_that(
        c.group_size > 0 && c.input.hidden_dim > 0 && c.input.hidden_dim % c.group_size == 0,
        "DFlash2 conv group size must divide hidden width",
    )?;
    let groups: usize = c.input.hidden_dim / c.group_size;
    assert(groups > 0) by (nonlinear_arith)
        requires
            groups == c.input.hidden_dim / c.group_size,
            c.input.hidden_dim > 0,
            c.group_size > 0,
            c.input.hidden_dim % c.group_size == 0,
    ;
    proof {
        if 2 * groups > usize::MAX {
            vstd::arithmetic::div_mod::lemma_small_mod(
                c.dynamic.hidden_dim as nat,
                (2 * groups) as nat,
            );
        }
    }
    ensure_that(
        c.dynamic.seq_len == c.input.seq_len && c.dynamic.hidden_dim > 0 && groups <= usize::MAX / 2
            && c.dynamic.hidden_dim % (2 * groups) == 0,
        "DFlash2 conv coefficient shape must be [rows, 2 * taps * groups]",
    )?;
    let taps: usize = c.dynamic.hidden_dim / (2 * groups);
    let base_elements: usize = checked_product(
        c.dynamic.hidden_dim,
        c.group_size,
        "DFlash2 conv base extent",
    )?;
    ensure_that(
        c.base_len == base_elements && c.side < 2,
        "DFlash2 conv base must have shape [2, taps, hidden], with side 0 or 1",
    )?;
    ensure_that(
        c.output.hidden_dim == c.input.hidden_dim && c.output.seq_len == c.input.seq_len,
        "DFlash2 conv output shape must match input",
    )?;
    let rows: i32 = checked_i32(c.input.seq_len, "DFlash2 conv rows")?;
    let hidden_dim: i32 = checked_i32(c.input.hidden_dim, "DFlash2 conv hidden")?;
    let block_size: i32 = checked_i32(c.block_size, "DFlash2 conv block size")?;
    let group_size: i32 = checked_i32(c.group_size, "DFlash2 conv group size")?;
    let taps_i32: i32 = checked_i32(taps, "DFlash2 conv taps")?;
    Ok(
        DFlash2ConvLaunch {
            rows,
            hidden_dim,
            block_size,
            group_size,
            taps: taps_i32,
            side: c.side as i32,
        },
    )
}

/// An accepted convolution has one coefficient per side, tap and group of
/// every row, and one base coefficient per side, tap and column.
pub proof fn law_conv_coefficients_are_whole(call: DFlash2ConvCall)
    requires
        call.fault() is None,
    ensures
        call.dynamic.hidden_dim == 2 * call.taps() * call.groups(),
        call.base_len == 2 * call.taps() * call.input.hidden_dim,
        call.taps() >= 1,
{
    let groups = call.groups();
    let taps = call.taps();
    let hidden = call.input.hidden_dim as int;
    let g = call.group_size as int;
    vstd::arithmetic::div_mod::lemma_fundamental_div_mod(hidden, g);
    assert(hidden == g * groups);
    assert(groups > 0) by (nonlinear_arith)
        requires
            hidden == g * groups,
            hidden > 0,
            g > 0,
    ;
    let d = call.dynamic.hidden_dim as int;
    vstd::arithmetic::div_mod::lemma_fundamental_div_mod(d, 2 * groups);
    assert(d == (2 * groups) * taps);
    assert((2 * groups) * taps == 2 * taps * groups) by (nonlinear_arith);
    assert(taps >= 1) by (nonlinear_arith)
        requires
            d == (2 * groups) * taps,
            d > 0,
            groups > 0,
    ;
    assert(d * g == 2 * taps * hidden) by (nonlinear_arith)
        requires
            d == 2 * taps * groups,
            hidden == g * groups,
    ;
}

/// A shape is built exactly on the base stream, for whole blocks of a
/// vocabulary that has the candidates, when every buffer that follows from it
/// can be allocated; and each buffer is as long as the rows of the batch make
/// it: one row per drafted position, sixteen candidates per row, one gathered
/// vector per candidate and one edge per pair of candidates.
pub proof fn law_dflash2_shape_is_that_of_the_batch(
    overridden: bool,
    max_batch: usize,
    block_size: usize,
    vocab: usize,
    rank: usize,
    rows_per_chunk: usize,
)
    ensures
        ({
            let fault = DFlash2Shape::fault(
                overridden,
                max_batch,
                block_size,
                vocab,
                rank,
                rows_per_chunk,
            );
            let shape = DFlash2Shape::of(max_batch, block_size, vocab, rank, rows_per_chunk);
            let rows = max_batch * (block_size - 1);
            &&& fault is None <==> {
                &&& !overridden
                &&& max_batch > 0
                &&& block_size >= 2
                &&& 0 < rank <= i32::MAX
                &&& 16 <= vocab <= i32::MAX
                &&& max_batch * block_size <= i32::MAX
                &&& 0 < rows_per_chunk <= rows
                &&& rows_per_chunk * vocab <= isize::MAX
                &&& rows * 16 * rank <= isize::MAX
                &&& rows * 16 * 16 <= isize::MAX
            }
            &&& fault is None ==> {
                &&& shape.max_batch == max_batch
                &&& shape.block_size == block_size
                &&& shape.vocab == vocab
                &&& shape.rank == rank
                &&& shape.rows_per_chunk == rows_per_chunk
                &&& shape.rows == rows
                &&& shape.keys == rows_per_chunk * vocab
                &&& shape.chunk_candidates == rows_per_chunk * 16
                &&& shape.candidates == rows * 16
                &&& shape.gathered == rows * 16 * rank
                &&& shape.edges == rows * 16 * 16
            }
        }),
{
    let rows = max_batch * (block_size - 1);
    assert(rows_per_chunk * vocab >= 0) by (nonlinear_arith);
    if block_size >= 2 {
        assert(0 <= rows <= max_batch * block_size) by (nonlinear_arith)
            requires
                rows == max_batch * (block_size - 1),
                block_size >= 2,
                max_batch >= 0,
        ;
        assert(rank > 0 ==> rows * 16 <= rows * 16 * rank) by (nonlinear_arith)
            requires
                rows >= 0,
        ;
        assert(rows * 16 * rank >= 0) by (nonlinear_arith)
            requires
                rows >= 0,
        ;
    }
    if max_batch > 0 && block_size >= 2 {
        assert(max_batch <= max_batch * block_size) by (nonlinear_arith)
            requires
                max_batch > 0,
                block_size >= 2,
        ;
    }
}

/// A scratch is built exactly when all its buffers together can be allocated,
/// and it counts every one of them: eight bytes per packed key, per candidate
/// of the chunk, per candidate and per gathered pair, four per edge and per
/// selected id, the workspace and the error flag.
pub proof fn law_dflash2_scratch_counts_every_buffer(shape: DFlash2Shape, workspace_bytes: usize)
    requires
        shape.wf(),
    ensures
        ({
            let workspace = if workspace_bytes == 0 {
                1
            } else {
                workspace_bytes as int
            };
            let total = 8 * (shape.keys + shape.chunk_candidates + shape.candidates
                + shape.gathered) + 4 * (shape.edges + shape.rows + 1) + workspace;
            &&& DFlash2Scratch::workspace(workspace_bytes) == workspace
            &&& DFlash2Scratch::bytes(shape, workspace_bytes) == total
            &&& DFlash2Scratch::fault(shape, workspace_bytes) is None <==> total <= isize::MAX
        }),
{
}

/// A selection is accepted exactly on the base stream, for no more requests
/// than the scratch was built for, when the logits, the projected hidden
/// states, both codebooks and the anchors cover the active blocks and all lie
/// on that stream. No active request asks nothing of the operands.
pub proof fn law_dflash2_selection_is_accepted_when_it_fits(
    c: DFlash2SelectCall,
    scratch: DFlash2Scratch,
)
    requires
        scratch.wf(),
    ensures
        c.fault(scratch) is None <==> {
            let s = scratch.shape;
            &&& c.streams.stream is None
            &&& c.active_batch <= s.max_batch
            &&& c.active_batch > 0 ==> {
                &&& c.logits.hidden_dim == s.vocab
                &&& c.logits.seq_len >= c.active_batch * s.block_size
                &&& c.logits.hidden_dim * c.logits.seq_len <= c.logits.data_len
                &&& c.projected_hidden.hidden_dim == s.rank
                &&& c.projected_hidden.seq_len >= c.active_batch * s.block_size
                &&& c.projected_hidden.hidden_dim * c.projected_hidden.seq_len
                    <= c.projected_hidden.data_len
                &&& s.vocab * s.rank <= isize::MAX
                &&& c.predecessor.rows == s.vocab
                &&& c.predecessor.cols == s.rank
                &&& c.predecessor.data_len >= s.vocab * s.rank
                &&& c.successor.rows == s.vocab
                &&& c.successor.cols == s.rank
                &&& c.successor.data_len >= s.vocab * s.rank
                &&& c.anchors_len >= c.active_batch
                &&& c.on_base_stream.predecessor
                &&& c.on_base_stream.successor
                &&& c.on_base_stream.logits
                &&& c.on_base_stream.projected_hidden
                &&& c.on_base_stream.anchors
                &&& c.on_base_stream.scratch
            }
        },
{
    let s = scratch.shape;
    assert(c.logits.hidden_dim * c.logits.seq_len >= 0) by (nonlinear_arith);
    assert(c.projected_hidden.hidden_dim * c.projected_hidden.seq_len >= 0) by (nonlinear_arith);
    assert(s.vocab * s.rank >= 0) by (nonlinear_arith);
    if c.active_batch <= s.max_batch {
        assert(c.active_batch * s.block_size <= s.max_batch * s.block_size) by (nonlinear_arith)
            requires
                0 <= c.active_batch <= s.max_batch,
        ;
        assert(s.max_batch <= s.max_batch * s.block_size) by (nonlinear_arith)
            requires
                s.max_batch > 0,
                s.block_size >= 2,
        ;
    }
}

/// An accepted selection of active requests is launched on their own numbers:
/// every drafted position of every request has one product of its sixteen
/// candidates' vectors with the sixteen of the position before, over the whole
/// rank, into its own sixteen-by-sixteen edges.
pub proof fn law_dflash2_selection_launches_its_own_numbers(
    c: DFlash2SelectCall,
    scratch: DFlash2Scratch,
)
    requires
        scratch.wf(),
        c.fault(scratch) is None,
    ensures
        c.active_batch == 0 <==> c.launch(scratch) is None,
        c.launch(scratch) matches Some(l) ==> {
            let s = scratch.shape;
            &&& l.workspace_bytes == scratch.topk_workspace_len
            &&& l.active_batch == c.active_batch
            &&& l.block_size == s.block_size
            &&& l.vocab == s.vocab
            &&& s.rank <= i32::MAX ==> l.rank == s.rank
            &&& l.rows_per_chunk == s.rows_per_chunk
            &&& l.positions == s.block_size - 1
            &&& l.edges.transpose_a == 1
            &&& l.edges.transpose_b == 0
            &&& l.edges.m == 16
            &&& l.edges.n == 16
            &&& s.rank <= i32::MAX ==> l.edges.k == s.rank
            &&& s.rank <= i32::MAX ==> l.edges.lda == s.rank
            &&& s.rank <= i32::MAX ==> l.edges.ldb == s.rank
            &&& l.edges.ldc == 16
            &&& l.edges.stride_a == 16 * s.rank
            &&& l.edges.stride_b == 16 * s.rank
            &&& l.edges.stride_c == 16 * 16
            &&& l.edges.batch == c.active_batch * (s.block_size - 1)
            &&& !l.edges.accumulate
        },
{
    let s = scratch.shape;
    if c.active_batch > 0 {
        lemma_edge_products_fit(c, scratch);
        assert(s.max_batch * (s.block_size - 1) <= s.max_batch * s.block_size && s.max_batch
            <= s.max_batch * s.block_size && s.block_size <= s.max_batch * s.block_size)
            by (nonlinear_arith)
            requires
                s.max_batch > 0,
                s.block_size >= 2,
        ;
    }
}

/// A grouped draft convolution is accepted exactly when its own operands hold
/// what it reads and writes.
pub proof fn law_dflash2_conv_is_accepted_when_it_fits(c: DFlash2ConvCall)
    ensures
        c.fault() is None <==> {
            &&& c.input.hidden_dim * c.input.seq_len <= c.input.data_len
            &&& c.dynamic.hidden_dim * c.dynamic.seq_len <= c.dynamic.data_len
            &&& c.output.hidden_dim * c.output.seq_len <= c.output.data_len
            &&& c.block_size > 0
            &&& c.input.seq_len > 0
            &&& c.input.seq_len % c.block_size == 0
            &&& c.group_size > 0
            &&& c.input.hidden_dim > 0
            &&& c.input.hidden_dim % c.group_size == 0
            &&& c.dynamic.seq_len == c.input.seq_len
            &&& c.dynamic.hidden_dim > 0
            &&& c.dynamic.hidden_dim as int % (2
                    * (c.input.hidden_dim as int / c.group_size as int)) == 0
            &&& c.base_len == c.dynamic.hidden_dim * c.group_size
            &&& c.side < 2
            &&& c.output.hidden_dim == c.input.hidden_dim
            &&& c.output.seq_len == c.input.seq_len
            &&& c.input.seq_len <= i32::MAX
            &&& c.input.hidden_dim <= i32::MAX
            &&& c.block_size <= i32::MAX
            &&& c.group_size <= i32::MAX
            &&& c.dynamic.hidden_dim as int / (2
                    * (c.input.hidden_dim as int / c.group_size as int)) <= i32::MAX
        },
{
    assert(c.input.hidden_dim * c.input.seq_len >= 0) by (nonlinear_arith);
    assert(c.dynamic.hidden_dim * c.dynamic.seq_len >= 0) by (nonlinear_arith);
    assert(c.output.hidden_dim * c.output.seq_len >= 0) by (nonlinear_arith);
    assert(c.dynamic.hidden_dim * c.group_size >= 0) by (nonlinear_arith);
}

/// A grouped draft convolution is launched with its own numbers, each where
/// it belongs.
pub proof fn law_dflash2_conv_launches_its_own_numbers(c: DFlash2ConvCall)
    requires
        c.fault() is None,
    ensures
        c.launch().rows == c.input.seq_len,
        c.launch().hidden_dim == c.input.hidden_dim,
        c.launch().block_size == c.block_size,
        c.launch().group_size == c.group_size,
        c.launch().side == c.side,
        c.launch().taps >= 1,
        2 * c.launch().taps * (c.input.hidden_dim as int / c.group_size as int)
            == c.dynamic.hidden_dim,
        2 * c.launch().taps * c.launch().hidden_dim == c.base_len,
{
    law_conv_coefficients_are_whole(c);
}

/// A grouped draft convolution that is accepted, and then gets one tensor
/// with fewer elements than its shape claims, is refused over that tensor:
/// the answer names it and shows both lengths.
pub proof fn law_dflash2_conv_is_refused_over_the_tensor_at_fault(c: DFlash2ConvCall, n: usize)
    requires
        c.fault() is None,
    ensures
        n < c.input.hidden_dim * c.input.seq_len ==> (DFlash2ConvCall {
            input: HiddenStates { data_len: n, ..c.input },
            ..c
        }).fault() == Some(
            KernelError::Backing {
                what: "DFlash2 conv input",
                len: n,
                need: (c.input.hidden_dim * c.input.seq_len) as usize,
            },
        ),
        n < c.dynamic.hidden_dim * c.dynamic.seq_len ==> (DFlash2ConvCall {
            dynamic: HiddenStates { data_len: n, ..c.dynamic },
            ..c
        }).fault() == Some(
            KernelError::Backing {
                what: "DFlash2 conv coefficients",
                len: n,
                need: (c.dynamic.hidden_dim * c.dynamic.seq_len) as usize,
            },
        ),
        n < c.output.hidden_dim * c.output.seq_len ==> (DFlash2ConvCall {
            output: HiddenStates { data_len: n, ..c.output },
            ..c
        }).fault() == Some(
            KernelError::Backing {
                what: "DFlash2 conv output",
                len: n,
                need: (c.output.hidden_dim * c.output.seq_len) as usize,
            },
        ),
{
    assert(c.input.hidden_dim * c.input.seq_len >= 0) by (nonlinear_arith);
    assert(c.dynamic.hidden_dim * c.dynamic.seq_len >= 0) by (nonlinear_arith);
    assert(c.output.hidden_dim * c.output.seq_len >= 0) by (nonlinear_arith);
}

} // verus!
