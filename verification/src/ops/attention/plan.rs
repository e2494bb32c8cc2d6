//! Prefill plans: the page tables, token maps and tile lists of one step.

use vstd::prelude::*;

use crate::error::checked_i32;
use crate::error::ensure_fit;
use crate::error::ensure_met;
use crate::error::ensure_that;
use crate::error::KernelError;

verus! {

/// The largest element of a non-empty sequence.
pub open spec fn seq_max(s: Seq<i32>) -> i32
    decreases s.len(),
{
    if s.len() <= 1 {
        s[0]
    } else {
        let rest = seq_max(s.drop_last());
        if rest >= s.last() {
            rest
        } else {
            s.last()
        }
    }
}

/// The maximum is an element and bounds every element.
pub proof fn law_seq_max(s: Seq<i32>)
    requires
        s.len() > 0,
    ensures
        s.contains(seq_max(s)),
        forall|i: int| 0 <= i < s.len() ==> s[i] <= seq_max(s),
    decreases s.len(),
{
    if s.len() == 1 {
        assert(s[0] == seq_max(s));
    } else {
        let d = s.drop_last();
        law_seq_max(d);
        let w = choose|i: int| 0 <= i < d.len() && d[i] == seq_max(d);
        assert(s[w] == d[w]);
        assert(s[s.len() - 1] == s.last());
        assert forall|i: int| 0 <= i < s.len() implies s[i] <= seq_max(s) by {
            if i < d.len() {
                assert(d[i] == s[i]);
            }
        }
    }
}

fn slice_max(s: &[i32]) -> (r: i32)
    requires
        s@.len() > 0,
    ensures
        r == seq_max(s@),
{
    let mut best: i32 = s[0];
    let mut i: usize = 1;
    assert(s@.take(1).drop_last().len() == 0);
    while i < s.len()
        invariant
            1 <= i <= s@.len(),
            best == seq_max(s@.take(i as int)),
        decreases s@.len() - i,
    {
        assert(s@.take(i + 1).drop_last() =~= s@.take(i as int));
        if s[i] > best {
            best = s[i];
        }
        i += 1;
    }
    assert(s@.take(s@.len() as int) =~= s@);
    best
}

fn all_at_least(s: &[i32], bound: i32) -> (r: bool)
    ensures
        r == (forall|i: int| 0 <= i < s@.len() ==> s@[i] >= bound),
{
    let mut i: usize = 0;
    while i < s.len()
        invariant
            i <= s@.len(),
            forall|j: int| 0 <= j < i ==> s@[j] >= bound,
        decreases s@.len() - i,
    {
        if s[i] < bound {
            assert(s@[i as int] < bound);
            return false;
        }
        i += 1;
    }
    true
}

/// Whether the query heads split evenly over the KV heads.
pub open spec fn head_relation(num_q_heads: usize, num_kv_heads: usize) -> bool {
    num_kv_heads > 0 && num_q_heads > 0 && num_q_heads % num_kv_heads == 0
}

/// The error of heads that do not split evenly.
pub open spec fn head_relation_error(num_q_heads: usize, num_kv_heads: usize) -> KernelError {
    KernelError::Unfit {
        what: "prefill plan num_q_heads must be a positive multiple of num_kv_heads",
        left: num_q_heads,
        right: num_kv_heads,
    }
}

/// The GQA group size is a division by the KV heads, so the heads have to
/// divide before any tile is counted.
pub fn checked_head_relation(num_q_heads: usize, num_kv_heads: usize) -> (r: Result<
    (),
    KernelError,
>)
    ensures
        r == (if head_relation(num_q_heads, num_kv_heads) {
            Ok(())
        } else {
            Err(head_relation_error(num_q_heads, num_kv_heads))
        }),
{
    ensure_fit(
        num_kv_heads > 0 && num_q_heads > 0 && num_q_heads % num_kv_heads == 0,
        "prefill plan num_q_heads must be a positive multiple of num_kv_heads",
        num_q_heads,
        num_kv_heads,
    )
}

/// What [`checked_page_metadata`] returns.
pub open spec fn page_metadata(pages: Seq<i32>, last_lens: Seq<i32>) -> Result<
    (i32, i32),
    KernelError,
> {
    if pages.len() == 0 {
        Err(KernelError::Invalid { what: "prefill plan needs at least one page" })
    } else if exists|i: int| 0 <= i < pages.len() && pages[i] < 0 {
        Err(KernelError::Invalid { what: "prefill plan page indices must be non-negative" })
    } else if last_lens.len() == 0 {
        Err(KernelError::Invalid { what: "prefill plan needs a last-page length" })
    } else if exists|i: int| 0 <= i < last_lens.len() && last_lens[i] < 1 {
        Err(KernelError::Invalid { what: "prefill plan last-page lengths must be at least 1" })
    } else {
        Ok((seq_max(pages), seq_max(last_lens)))
    }
}

/// The largest page id and the largest last-page length. The kernels index
/// the pool by both without a bounds check of their own.
pub fn checked_page_metadata(page_indices: &[i32], last_page_lens: &[i32]) -> (r: Result<
    (i32, i32),
    KernelError,
>)
    ensures
        r == page_metadata(page_indices@, last_page_lens@),
{
    ensure_that(page_indices.len() > 0, "prefill plan needs at least one page")?;
    let max_page_index: i32 = slice_max(page_indices);
    ensure_that(all_at_least(page_indices, 0), "prefill plan page indices must be non-negative")?;
    ensure_that(last_page_lens.len() > 0, "prefill plan needs a last-page length")?;
    let max_last_page_len: i32 = slice_max(last_page_lens);
    ensure_that(
        all_at_least(last_page_lens, 1),
        "prefill plan last-page lengths must be at least 1",
    )?;
    Ok((max_page_index, max_last_page_len))
}

// ---------------------------------------------------------------------------
// Batch metadata
// ---------------------------------------------------------------------------

/// The pages of the first `n` requests, one after another.
pub open spec fn pages_upto(pages: Seq<Vec<i32>>, n: nat) -> Seq<i32>
    decreases n,
{
    if n == 0 {
        Seq::empty()
    } else {
        pages_upto(pages, (n - 1) as nat) + pages[n - 1]@
    }
}

/// The tokens of the first `n` requests.
pub open spec fn tokens_upto(seq_lens: Seq<usize>, n: nat) -> nat
    decreases n,
{
    if n == 0 {
        0
    } else {
        tokens_upto(seq_lens, (n - 1) as nat) + seq_lens[n - 1] as nat
    }
}

/// The owning request of every token of the first `n` requests.
pub open spec fn requests_upto(seq_lens: Seq<usize>, n: nat) -> Seq<i32>
    decreases n,
{
    if n == 0 {
        Seq::empty()
    } else {
        requests_upto(seq_lens, (n - 1) as nat) + Seq::new(
            seq_lens[n - 1] as nat,
            |j: int| (n - 1) as i32,
        )
    }
}

/// The absolute position of every token of the first `n` requests.
pub open spec fn positions_upto(starts: Seq<usize>, seq_lens: Seq<usize>, n: nat) -> Seq<i32>
    decreases n,
{
    if n == 0 {
        Seq::empty()
    } else {
        positions_upto(starts, seq_lens, (n - 1) as nat) + Seq::new(
            seq_lens[n - 1] as nat,
            |j: int| (starts[n - 1] + j) as i32,
        )
    }
}

/// How many query tiles of `cta_tile_q` packed rows a request takes.
pub open spec fn tile_count(seq_len: usize, group_size: int, cta_tile_q: int) -> int {
    crate::ops::ceil_div(seq_len * group_size, cta_tile_q)
}

/// The query tiles of the first `n` requests.
pub open spec fn tiles_upto(seq_lens: Seq<usize>, group_size: int, cta_tile_q: int, n: nat) -> int
    decreases n,
{
    if n == 0 {
        0
    } else {
        tiles_upto(seq_lens, group_size, cta_tile_q, (n - 1) as nat) + tile_count(
            seq_lens[n - 1],
            group_size,
            cta_tile_q,
        )
    }
}

/// The request of every tile of the first `n` requests.
pub open spec fn tile_requests_upto(
    seq_lens: Seq<usize>,
    group_size: int,
    cta_tile_q: int,
    n: nat,
) -> Seq<i32>
    decreases n,
{
    if n == 0 {
        Seq::empty()
    } else {
        tile_requests_upto(seq_lens, group_size, cta_tile_q, (n - 1) as nat) + Seq::new(
            tile_count(seq_lens[n - 1], group_size, cta_tile_q) as nat,
            |j: int| (n - 1) as i32,
        )
    }
}

/// The index within its request of every tile of the first `n` requests.
pub open spec fn tile_indices_upto(
    seq_lens: Seq<usize>,
    group_size: int,
    cta_tile_q: int,
    n: nat,
) -> Seq<i32>
    decreases n,
{
    if n == 0 {
        Seq::empty()
    } else {
        tile_indices_upto(seq_lens, group_size, cta_tile_q, (n - 1) as nat) + Seq::new(
            tile_count(seq_lens[n - 1], group_size, cta_tile_q) as nat,
            |j: int| j as i32,
        )
    }
}

/// The arrays of one step's plan.
#[verifier::ext_equal]
pub struct PlanModel {
    pub all_page_indices: Seq<i32>,
    pub page_indptr: Seq<i32>,
    pub last_page_lens: Seq<i32>,
    pub batch_indices: Seq<i32>,
    pub positions: Seq<i32>,
    pub q_indptr: Seq<i32>,
    pub request_indices: Seq<i32>,
    pub qo_tile_indices: Seq<i32>,
    pub kv_tile_indices: Seq<i32>,
    pub kv_chunk_sizes: Seq<i32>,
    pub num_tiles: int,
    pub batch_size: int,
    pub total_tokens: int,
    pub cta_tile_q: int,
}

/// One step's requests as the planner receives them.
#[derive(Clone, Copy)]
pub struct BatchRequests<'a> {
    /// Page ids of each request.
    pub page_indices: &'a [Vec<i32>],
    /// Tokens in the last page of each request.
    pub last_page_lens: &'a [usize],
    /// Tokens already in the cache of each request.
    pub start_positions: &'a [usize],
    /// Query tokens of each request.
    pub seq_lens: &'a [usize],
}

impl<'a> BatchRequests<'a> {
    pub open spec fn size(self) -> nat {
        self.page_indices@.len()
    }

    /// The four arrays agree in length, and no sum of lengths overflows.
    pub open spec fn wf(self) -> bool {
        &&& self.last_page_lens@.len() == self.size()
        &&& self.start_positions@.len() == self.size()
        &&& self.seq_lens@.len() == self.size()
        &&& tokens_upto(self.seq_lens@, self.size()) <= usize::MAX
        &&& forall|i: int|
            0 <= i < self.size() ==> #[trigger] self.start_positions@[i] + self.seq_lens@[i]
                <= usize::MAX
    }

    /// What is wrong with request `i`, given that the ones before it are fine.
    pub open spec fn request_fault(self, i: int) -> Option<KernelError> {
        if self.page_indices@[i]@.len() == 0 {
            Some(
                KernelError::Unmet {
                    what: "prefill plan request has no pages",
                    value: i as usize,
                },
            )
        } else if pages_upto(self.page_indices@, (i + 1) as nat).len() > i32::MAX {
            Some(
                KernelError::TooWide {
                    what: "prefill plan page-indptr entry",
                    value: pages_upto(self.page_indices@, (i + 1) as nat).len() as usize,
                },
            )
        } else if self.last_page_lens@[i] > i32::MAX {
            Some(
                KernelError::TooWide {
                    what: "prefill plan last_page_len",
                    value: self.last_page_lens@[i],
                },
            )
        } else if self.start_positions@[i] + self.seq_lens@[i] > i32::MAX {
            Some(
                KernelError::TooWide {
                    what: "prefill plan kv length",
                    value: (self.start_positions@[i] + self.seq_lens@[i]) as usize,
                },
            )
        } else {
            None
        }
    }

    /// The first fault among the first `n` requests.
    pub open spec fn first_request_fault(self, n: nat) -> Option<KernelError>
        decreases n,
    {
        if n == 0 {
            None
        } else {
            match self.first_request_fault((n - 1) as nat) {
                Some(e) => Some(e),
                None => self.request_fault(n - 1),
            }
        }
    }

    /// The first of the first `n` requests whose tile count is too wide.
    pub open spec fn first_tile_fault(self, group_size: int, cta_tile_q: int, n: nat) -> Option<
        KernelError,
    >
        decreases n,
    {
        if n == 0 {
            None
        } else {
            match self.first_tile_fault(group_size, cta_tile_q, (n - 1) as nat) {
                Some(e) => Some(e),
                None => {
                    let tiles = tile_count(self.seq_lens@[n - 1], group_size, cta_tile_q);
                    if tiles > i32::MAX {
                        Some(
                            KernelError::TooWide {
                                what: "prefill plan request tile count",
                                value: tiles as usize,
                            },
                        )
                    } else {
                        None
                    }
                },
            }
        }
    }

    /// What is wrong with the arguments of the tile query.
    pub open spec fn query_fault(
        self,
        num_q_heads: usize,
        num_kv_heads: usize,
        head_dim: usize,
    ) -> Option<KernelError> {
        if !head_relation(num_q_heads, num_kv_heads) {
            Some(head_relation_error(num_q_heads, num_kv_heads))
        } else if tokens_upto(self.seq_lens@, self.size()) > i32::MAX {
            Some(
                KernelError::TooWide {
                    what: "prefill plan total_tokens",
                    value: tokens_upto(self.seq_lens@, self.size()) as usize,
                },
            )
        } else if num_q_heads > i32::MAX {
            Some(KernelError::TooWide { what: "prefill plan num_q_heads", value: num_q_heads })
        } else if num_kv_heads > i32::MAX {
            Some(KernelError::TooWide { what: "prefill plan num_kv_heads", value: num_kv_heads })
        } else if head_dim > i32::MAX {
            Some(KernelError::TooWide { what: "prefill plan head_dim", value: head_dim })
        } else {
            None
        }
    }

    /// Why no plan can be built, if none can.
    pub open spec fn fault(
        self,
        num_q_heads: usize,
        num_kv_heads: usize,
        head_dim: usize,
        cta_tile_q: i32,
    ) -> Option<KernelError> {
        let group_size = (num_q_heads / num_kv_heads) as int;
        match self.query_fault(num_q_heads, num_kv_heads, head_dim) {
            Some(e) => Some(e),
            None => match self.first_request_fault(self.size()) {
                Some(e) => Some(e),
                None => if cta_tile_q <= 0 {
                    Some(cta_tile_error())
                } else {
                    match self.first_tile_fault(group_size, cta_tile_q as int, self.size()) {
                        Some(e) => Some(e),
                        None => if tiles_upto(
                            self.seq_lens@,
                            group_size,
                            cta_tile_q as int,
                            self.size(),
                        ) > i32::MAX {
                            Some(
                                KernelError::TooWide {
                                    what: "prefill plan tile count",
                                    value: tiles_upto(
                                        self.seq_lens@,
                                        group_size,
                                        cta_tile_q as int,
                                        self.size(),
                                    ) as usize,
                                },
                            )
                        } else {
                            None
                        },
                    }
                },
            },
        }
    }

    /// The plan of these requests.
    pub open spec fn model(
        self,
        num_q_heads: usize,
        num_kv_heads: usize,
        cta_tile_q: i32,
    ) -> PlanModel {
        let n = self.size();
        let group = (num_q_heads / num_kv_heads) as int;
        let cta = cta_tile_q as int;
        PlanModel {
            all_page_indices: pages_upto(self.page_indices@, n),
            page_indptr: Seq::new(
                n + 1,
                |i: int| pages_upto(self.page_indices@, i as nat).len() as i32,
            ),
            last_page_lens: Seq::new(n, |i: int| self.last_page_lens@[i] as i32),
            batch_indices: requests_upto(self.seq_lens@, n),
            positions: positions_upto(self.start_positions@, self.seq_lens@, n),
            q_indptr: Seq::new(n + 1, |i: int| tokens_upto(self.seq_lens@, i as nat) as i32),
            request_indices: tile_requests_upto(self.seq_lens@, group, cta, n),
            qo_tile_indices: tile_indices_upto(self.seq_lens@, group, cta, n),
            kv_tile_indices: Seq::new(
                tiles_upto(self.seq_lens@, group, cta, n) as nat,
                |i: int| 0i32,
            ),
            kv_chunk_sizes: Seq::new(
                n,
                |i: int| (self.start_positions@[i] + self.seq_lens@[i]) as i32,
            ),
            num_tiles: tiles_upto(self.seq_lens@, group, cta, n),
            batch_size: n as int,
            total_tokens: tokens_upto(self.seq_lens@, n) as int,
            cta_tile_q: cta,
        }
    }
}

/// The error of a tile query that answered no positive tile.
pub open spec fn cta_tile_error() -> KernelError {
    KernelError::Invalid { what: "invalid prefill CTA tile override" }
}

/// What the tile query of a step is asked with.
#[derive(Clone, Copy, Debug, PartialEq, Eq)]
pub struct TileQuery {
    pub total_tokens: i32,
    pub num_q_heads: i32,
    pub num_kv_heads: i32,
    pub head_dim: i32,
}

/// Host-side metadata of one prefill step: the arrays that the plan's device
/// buffers are filled with. A fresh plan and one refilled in place use the
/// same arrays.
#[derive(Clone, Debug)]
pub struct BatchPlanHost {
    pub all_page_indices: Vec<i32>,
    pub page_indptr: Vec<i32>,
    pub last_page_lens_i32: Vec<i32>,
    pub batch_indices: Vec<i32>,
    pub positions: Vec<i32>,
    pub q_indptr: Vec<i32>,
    pub request_indices_v: Vec<i32>,
    pub qo_tile_indices_v: Vec<i32>,
    pub kv_tile_indices_v: Vec<i32>,
    pub kv_chunk_sizes: Vec<i32>,
    pub num_tiles: i32,
    pub batch_size: usize,
    pub total_tokens: usize,
    pub cta_tile_q: usize,
}

impl View for BatchPlanHost {
    type V = PlanModel;

    open spec fn view(&self) -> PlanModel {
        PlanModel {
            all_page_indices: self.all_page_indices@,
            page_indptr: self.page_indptr@,
            last_page_lens: self.last_page_lens_i32@,
            batch_indices: self.batch_indices@,
            positions: self.positions@,
            q_indptr: self.q_indptr@,
            request_indices: self.request_indices_v@,
            qo_tile_indices: self.qo_tile_indices_v@,
            kv_tile_indices: self.kv_tile_indices_v@,
            kv_chunk_sizes: self.kv_chunk_sizes@,
            num_tiles: self.num_tiles as int,
            batch_size: self.batch_size as int,
            total_tokens: self.total_tokens as int,
            cta_tile_q: self.cta_tile_q as int,
        }
    }
}

proof fn lemma_tokens_monotone(seq_lens: Seq<usize>, i: nat, j: nat)
    requires
        i <= j,
    ensures
        tokens_upto(seq_lens, i) <= tokens_upto(seq_lens, j),
    decreases j,
{
    if i < j {
        lemma_tokens_monotone(seq_lens, i, (j - 1) as nat);
    }
}

fn sum_lens(seq_lens: &[usize]) -> (r: usize)
    requires
        tokens_upto(seq_lens@, seq_lens@.len()) <= usize::MAX,
    ensures
        r == tokens_upto(seq_lens@, seq_lens@.len()),
{
    let mut total: usize = 0;
    let mut i: usize = 0;
    while i < seq_lens.len()
        invariant
            i <= seq_lens@.len(),
            total == tokens_upto(seq_lens@, i as nat),
            tokens_upto(seq_lens@, seq_lens@.len()) <= usize::MAX,
        decreases seq_lens@.len() - i,
    {
        proof {
            lemma_tokens_monotone(seq_lens@, (i + 1) as nat, seq_lens@.len());
        }
        total = total + seq_lens[i];
        i += 1;
    }
    total
}

/// The pages of a step in one array, with their boundaries, the last-page
/// lengths and the KV lengths.
struct PageTables {
    all_page_indices: Vec<i32>,
    page_indptr: Vec<i32>,
    last_page_lens: Vec<i32>,
    kv_chunk_sizes: Vec<i32>,
}

fn page_tables(requests: BatchRequests) -> (r: Result<PageTables, KernelError>)
    requires
        requests.wf(),
    ensures
        match r {
            Ok(t) => {
                &&& requests.first_request_fault(requests.size()) is None
                &&& t.all_page_indices@ == pages_upto(requests.page_indices@, requests.size())
                &&& t.page_indptr@ == Seq::new(
                    requests.size() + 1,
                    |i: int| pages_upto(requests.page_indices@, i as nat).len() as i32,
                )
                &&& t.last_page_lens@ == Seq::new(
                    requests.size(),
                    |i: int| requests.last_page_lens@[i] as i32,
                )
                &&& t.kv_chunk_sizes@ == Seq::new(
                    requests.size(),
                    |i: int| (requests.start_positions@[i] + requests.seq_lens@[i]) as i32,
                )
            },
            Err(e) => requests.first_request_fault(requests.size()) == Some(e),
        },
{
    let n: usize = requests.page_indices.len();
    let mut all_page_indices: Vec<i32> = Vec::new();
    let mut page_indptr: Vec<i32> = Vec::new();
    page_indptr.push(0);
    let mut last_page_lens: Vec<i32> = Vec::new();
    let mut kv_chunk_sizes: Vec<i32> = Vec::new();
    let mut i: usize = 0;
    while i < n
        invariant
            requests.wf(),
            n == requests.size(),
            i <= n,
            requests.first_request_fault(i as nat) is None,
            all_page_indices@ == pages_upto(requests.page_indices@, i as nat),
            page_indptr@.len() == i + 1,
            forall|k: int|
                0 <= k <= i ==> #[trigger] page_indptr@[k] == pages_upto(
                    requests.page_indices@,
                    k as nat,
                ).len() as i32,
            last_page_lens@.len() == i,
            forall|k: int|
                0 <= k < i ==> #[trigger] last_page_lens@[k] == requests.last_page_lens@[k] as i32,
            kv_chunk_sizes@.len() == i,
            forall|k: int|
                0 <= k < i ==> #[trigger] kv_chunk_sizes@[k] == (requests.start_positions@[k]
                    + requests.seq_lens@[k]) as i32,
        decreases n - i,
    {
        let pages: &Vec<i32> = &requests.page_indices[i];
        proof {
            lemma_request_fault_is_first(requests, i as nat, requests.size());
            assert(requests.first_request_fault((i + 1) as nat) == requests.request_fault(
                i as int,
            ));
            assert(pages_upto(requests.page_indices@, (i + 1) as nat) == pages_upto(
                requests.page_indices@,
                i as nat,
            ) + pages@);
            assert(requests.start_positions@[i as int] + requests.seq_lens@[i as int]
                <= usize::MAX);
        }
        ensure_met(pages.len() > 0, "prefill plan request has no pages", i)?;
        all_page_indices.extend_from_slice(pages.as_slice());
        assert(all_page_indices@ =~= pages_upto(requests.page_indices@, (i + 1) as nat));
        page_indptr.push(checked_i32(all_page_indices.len(), "prefill plan page-indptr entry")?);
        last_page_lens.push(checked_i32(requests.last_page_lens[i], "prefill plan last_page_len")?);
        kv_chunk_sizes.push(
            checked_i32(
                requests.start_positions[i] + requests.seq_lens[i],
                "prefill plan kv length",
            )?,
        );
        i += 1;
    }
    Ok(PageTables { all_page_indices, page_indptr, last_page_lens, kv_chunk_sizes })
}

/// A fault among the first `i` requests is the fault of the batch.
proof fn lemma_request_fault_is_first(requests: BatchRequests, i: nat, n: nat)
    requires
        i < n,
        requests.first_request_fault(i) is None,
    ensures
        requests.request_fault(i as int) is Some ==> requests.first_request_fault(n)
            == requests.request_fault(i as int),
    decreases n - i,
{
    lemma_request_fault_stays(requests, i + 1, n);
}

proof fn lemma_request_fault_stays(requests: BatchRequests, i: nat, n: nat)
    requires
        i <= n,
    ensures
        requests.first_request_fault(i) is Some ==> requests.first_request_fault(n)
            == requests.first_request_fault(i),
    decreases n - i,
{
    if i < n {
        lemma_request_fault_stays(requests, i, (n - 1) as nat);
    }
}

/// The owning request and the position of every token, and the token
/// boundaries of the requests.
struct TokenMaps {
    batch_indices: Vec<i32>,
    positions: Vec<i32>,
    q_indptr: Vec<i32>,
}

fn token_maps(requests: BatchRequests) -> (r: TokenMaps)
    requires
        requests.wf(),
        requests.size() <= i32::MAX,
        tokens_upto(requests.seq_lens@, requests.size()) <= i32::MAX,
        forall|i: int|
            0 <= i < requests.size() ==> #[trigger] requests.start_positions@[i]
                + requests.seq_lens@[i] <= i32::MAX,
    ensures
        r.batch_indices@ == requests_upto(requests.seq_lens@, requests.size()),
        r.positions@ == positions_upto(
            requests.start_positions@,
            requests.seq_lens@,
            requests.size(),
        ),
        r.q_indptr@ == Seq::new(
            requests.size() + 1,
            |i: int| tokens_upto(requests.seq_lens@, i as nat) as i32,
        ),
{
    let n: usize = requests.seq_lens.len();
    let mut batch_indices: Vec<i32> = Vec::new();
    let mut positions: Vec<i32> = Vec::new();
    let mut q_indptr: Vec<i32> = Vec::new();
    q_indptr.push(0);
    let mut total: i32 = 0;
    let mut i: usize = 0;
    while i < n
        invariant
            requests.wf(),
            n == requests.size(),
            n <= i32::MAX,
            i <= n,
            tokens_upto(requests.seq_lens@, requests.size()) <= i32::MAX,
            forall|k: int|
                0 <= k < requests.size() ==> #[trigger] requests.start_positions@[k]
                    + requests.seq_lens@[k] <= i32::MAX,
            total == tokens_upto(requests.seq_lens@, i as nat),
            batch_indices@ == requests_upto(requests.seq_lens@, i as nat),
            positions@ == positions_upto(
                requests.start_positions@,
                requests.seq_lens@,
                i as nat,
            ),
            q_indptr@.len() == i + 1,
            forall|k: int|
                0 <= k <= i ==> #[trigger] q_indptr@[k] == tokens_upto(
                    requests.seq_lens@,
                    k as nat,
                ) as i32,
        decreases n - i,
    {
        let seq_len: usize = requests.seq_lens[i];
        let start: usize = requests.start_positions[i];
        let ghost requests_before = batch_indices@;
        let ghost positions_before = positions@;
        let mut j: usize = 0;
        while j < seq_len
            invariant
                requests.wf(),
                i < n,
                n == requests.size(),
                n <= i32::MAX,
                j <= seq_len,
                start == requests.start_positions@[i as int],
                seq_len == requests.seq_lens@[i as int],
                start + seq_len <= i32::MAX,
                batch_indices@ == requests_before + Seq::new(j as nat, |k: int| i as i32),
                positions@ == positions_before + Seq::new(j as nat, |k: int| (start + k) as i32),
            decreases seq_len - j,
        {
            batch_indices.push(i as i32);
            positions.push((start + j) as i32);
            j += 1;
            assert(batch_indices@ =~= requests_before + Seq::new(j as nat, |k: int| i as i32));
            assert(positions@ =~= positions_before + Seq::new(
                j as nat,
                |k: int| (start + k) as i32,
            ));
        }
        proof {
            assert(Seq::new(seq_len as nat, |k: int| i as i32) =~= Seq::new(
                seq_len as nat,
                |k: int| ((i + 1) as nat - 1) as i32,
            ));
            assert(Seq::new(seq_len as nat, |k: int| (start + k) as i32) =~= Seq::new(
                seq_len as nat,
                |k: int| (requests.start_positions@[(i + 1) as nat - 1] + k) as i32,
            ));
            assert(batch_indices@ =~= requests_upto(requests.seq_lens@, (i + 1) as nat));
            assert(positions@ =~= positions_upto(
                requests.start_positions@,
                requests.seq_lens@,
                (i + 1) as nat,
            ));
            lemma_tokens_monotone(requests.seq_lens@, (i + 1) as nat, requests.size());
            assert(requests.start_positions@[i as int] + requests.seq_lens@[i as int] <= i32::MAX);
        }
        total = total + seq_len as i32;
        q_indptr.push(total);
        i += 1;
    }
    TokenMaps { batch_indices, positions, q_indptr }
}

/// The query tiles of a step: the request and the index of each.
struct TileLists {
    request_indices: Vec<i32>,
    qo_tile_indices: Vec<i32>,
    kv_tile_indices: Vec<i32>,
}

/// The tiles of a request, counted where no intermediate value overflows.
fn request_tiles(seq_len: usize, group_size: usize, cta_tile_q: i32) -> (r: u64)
    requires
        seq_len <= i32::MAX,
        group_size <= i32::MAX,
        cta_tile_q > 0,
    ensures
        r == tile_count(seq_len, group_size as int, cta_tile_q as int),
        r <= 0x3fff_ffff_ffff_ffff,
{
    assert(0 <= seq_len * group_size <= 0x7fff_ffff * 0x7fff_ffff) by (nonlinear_arith)
        requires
            seq_len <= 0x7fff_ffff,
            group_size <= 0x7fff_ffff,
    ;
    let packed: u64 = (seq_len as u64) * (group_size as u64);
    let cta: u64 = cta_tile_q as u64;
    assert((packed + cta - 1) / cta as int <= packed + cta - 1) by (nonlinear_arith)
        requires
            cta >= 1,
            packed >= 0,
    ;
    assert((packed + cta - 1) / cta as int <= 0x3fff_ffff_ffff_ffff) by {
        if packed == 0 {
            assert((cta - 1) / cta as int == 0) by (nonlinear_arith)
                requires
                    cta >= 1,
            ;
        } else {
            assert((packed + cta - 1) / cta as int <= packed) by (nonlinear_arith)
                requires
                    cta >= 1,
                    packed >= 1,
            ;
        }
    }
    (packed + cta - 1) / cta
}

fn tile_lists(requests: BatchRequests, group_size: usize, cta_tile_q: i32) -> (r: Result<
    TileLists,
    KernelError,
>)
    requires
        requests.wf(),
        requests.size() <= i32::MAX,
        group_size <= i32::MAX,
        cta_tile_q > 0,
        forall|i: int|
            0 <= i < requests.size() ==> #[trigger] requests.seq_lens@[i] <= i32::MAX,
    ensures
        match r {
            Ok(t) => {
                let n = requests.size();
                let group = group_size as int;
                let cta = cta_tile_q as int;
                &&& requests.first_tile_fault(group, cta, n) is None
                &&& t.request_indices@ == tile_requests_upto(requests.seq_lens@, group, cta, n)
                &&& t.qo_tile_indices@ == tile_indices_upto(requests.seq_lens@, group, cta, n)
                &&& t.kv_tile_indices@ == Seq::new(
                    tiles_upto(requests.seq_lens@, group, cta, n) as nat,
                    |i: int| 0i32,
                )
                &&& t.request_indices@.len() == tiles_upto(requests.seq_lens@, group, cta, n)
            },
            Err(e) => requests.first_tile_fault(
                group_size as int,
                cta_tile_q as int,
                requests.size(),
            ) == Some(e),
        },
{
    let n: usize = requests.seq_lens.len();
    let ghost group = group_size as int;
    let ghost cta = cta_tile_q as int;
    let mut request_indices: Vec<i32> = Vec::new();
    let mut qo_tile_indices: Vec<i32> = Vec::new();
    let mut kv_tile_indices: Vec<i32> = Vec::new();
    let mut i: usize = 0;
    while i < n
        invariant
            requests.wf(),
            n == requests.size(),
            n <= i32::MAX,
            i <= n,
            group_size <= i32::MAX,
            cta_tile_q > 0,
            group == group_size,
            cta == cta_tile_q,
            forall|k: int|
                0 <= k < requests.size() ==> #[trigger] requests.seq_lens@[k] <= i32::MAX,
            requests.first_tile_fault(group, cta, i as nat) is None,
            request_indices@ == tile_requests_upto(requests.seq_lens@, group, cta, i as nat),
            qo_tile_indices@ == tile_indices_upto(requests.seq_lens@, group, cta, i as nat),
            request_indices@.len() == tiles_upto(requests.seq_lens@, group, cta, i as nat),
            kv_tile_indices@ == Seq::new(request_indices@.len(), |k: int| 0i32),
        decreases n - i,
    {
        let tiles: u64 = request_tiles(requests.seq_lens[i], group_size, cta_tile_q);
        proof {
            lemma_tile_fault_stays(requests, group, cta, (i + 1) as nat, requests.size());
        }
        if tiles > 0x7fff_ffff {
            return Err(
                KernelError::TooWide {
                    what: "prefill plan request tile count",
                    value: tiles as usize,
                },
            );
        }
        let tiles: i32 = tiles as i32;
        let ghost requests_before = request_indices@;
        let ghost tiles_before = qo_tile_indices@;
        let mut tile: i32 = 0;
        while tile < tiles
            invariant
                0 <= tile <= tiles,
                i < n,
                n <= i32::MAX,
                request_indices@ == requests_before + Seq::new(tile as nat, |k: int| i as i32),
                qo_tile_indices@ == tiles_before + Seq::new(tile as nat, |k: int| k as i32),
                kv_tile_indices@ == Seq::new(request_indices@.len(), |k: int| 0i32),
            decreases tiles - tile,
        {
            request_indices.push(i as i32);
            qo_tile_indices.push(tile);
            kv_tile_indices.push(0);
            tile += 1;
            assert(request_indices@ =~= requests_before + Seq::new(
                tile as nat,
                |k: int| i as i32,
            ));
            assert(qo_tile_indices@ =~= tiles_before + Seq::new(tile as nat, |k: int| k as i32));
            assert(kv_tile_indices@ =~= Seq::new(request_indices@.len(), |k: int| 0i32));
        }
        proof {
            assert(Seq::new(tiles as nat, |k: int| i as i32) =~= Seq::new(
                tiles as nat,
                |k: int| ((i + 1) as nat - 1) as i32,
            ));
            assert(request_indices@ =~= tile_requests_upto(
                requests.seq_lens@,
                group,
                cta,
                (i + 1) as nat,
            ));
            assert(qo_tile_indices@ =~= tile_indices_upto(
                requests.seq_lens@,
                group,
                cta,
                (i + 1) as nat,
            ));
        }
        i += 1;
    }
    Ok(TileLists { request_indices, qo_tile_indices, kv_tile_indices })
}

proof fn lemma_tile_fault_stays(requests: BatchRequests, group: int, cta: int, i: nat, n: nat)
    requires
        i <= n,
    ensures
        requests.first_tile_fault(group, cta, i) is Some ==> requests.first_tile_fault(
            group,
            cta,
            n,
        ) == requests.first_tile_fault(group, cta, i),
    decreases n - i,
{
    if i < n {
        lemma_tile_fault_stays(requests, group, cta, i, (n - 1) as nat);
    }
}

/// Requests without a fault have narrow lengths, and there are few of them:
/// each holds a page, and the page boundaries are narrow.
pub proof fn lemma_faultless_requests(requests: BatchRequests, n: nat)
    requires
        requests.first_request_fault(n) is None,
    ensures
        n <= pages_upto(requests.page_indices@, n).len(),
        n > 0 ==> pages_upto(requests.page_indices@, n).len() <= i32::MAX,
        forall|i: int|
            0 <= i < n ==> #[trigger] requests.start_positions@[i] + requests.seq_lens@[i]
                <= i32::MAX,
        forall|i: int| 0 <= i < n ==> #[trigger] requests.last_page_lens@[i] <= i32::MAX,
    decreases n,
{
    if n > 0 {
        lemma_faultless_requests(requests, (n - 1) as nat);
        assert(requests.request_fault(n - 1) is None);
    }
}

impl BatchPlanHost {
    /// What the tile query is asked with; the query answers the `cta_tile_q`
    /// that [`BatchPlanHost::compute`] takes.
    pub fn tile_query(
        requests: BatchRequests,
        num_q_heads: usize,
        num_kv_heads: usize,
        head_dim: usize,
    ) -> (r: Result<TileQuery, KernelError>)
        requires
            head_relation(num_q_heads, num_kv_heads) ==> requests.wf(),
        ensures
            match r {
                Ok(q) => {
                    &&& requests.query_fault(num_q_heads, num_kv_heads, head_dim) is None
                    &&& q.total_tokens == tokens_upto(requests.seq_lens@, requests.size())
                    &&& q.num_q_heads == num_q_heads
                    &&& q.num_kv_heads == num_kv_heads
                    &&& q.head_dim == head_dim
                },
                Err(e) => requests.query_fault(num_q_heads, num_kv_heads, head_dim) == Some(e),
            },
    {
        checked_head_relation(num_q_heads, num_kv_heads)?;
        let total_tokens: i32 = checked_i32(
            sum_lens(requests.seq_lens),
            "prefill plan total_tokens",
        )?;
        let num_q_heads: i32 = checked_i32(num_q_heads, "prefill plan num_q_heads")?;
        let num_kv_heads: i32 = checked_i32(num_kv_heads, "prefill plan num_kv_heads")?;
        let head_dim: i32 = checked_i32(head_dim, "prefill plan head_dim")?;
        Ok(TileQuery { total_tokens, num_q_heads, num_kv_heads, head_dim })
    }

    /// Lay out one step: pages in compressed rows, one entry per query token,
    /// and one entry per query tile of `cta_tile_q` packed rows.
    pub fn compute(
        requests: BatchRequests,
        num_q_heads: usize,
        num_kv_heads: usize,
        head_dim: usize,
        cta_tile_q: i32,
    ) -> (r: Result<Self, KernelError>)
        requires
            head_relation(num_q_heads, num_kv_heads) ==> requests.wf(),
        ensures
            match r {
                Ok(host) => {
                    &&& requests.fault(num_q_heads, num_kv_heads, head_dim, cta_tile_q) is None
                    &&& host@ == requests.model(num_q_heads, num_kv_heads, cta_tile_q)
                    &&& host.last_page_lens_i32@.len() == requests.last_page_lens@.len()
                    &&& forall|i: int|
                        0 <= i < requests.last_page_lens@.len()
                            ==> #[trigger] host.last_page_lens_i32@[i]
                            == requests.last_page_lens@[i]
                    &&& host.kv_chunk_sizes@.len() == requests.seq_lens@.len()
                    &&& forall|i: int|
                        0 <= i < requests.seq_lens@.len() ==> #[trigger] host.kv_chunk_sizes@[i]
                            == requests.start_positions@[i] + requests.seq_lens@[i]
                },
                Err(e) => requests.fault(num_q_heads, num_kv_heads, head_dim, cta_tile_q) == Some(
                    e,
                ),
            },
    {
        let query: TileQuery = Self::tile_query(requests, num_q_heads, num_kv_heads, head_dim)?;
        let group_size: usize = num_q_heads / num_kv_heads;
        let tables: PageTables = page_tables(requests)?;
        proof {
            lemma_faultless_requests(requests, requests.size());
            assert forall|i: int| 0 <= i < requests.size() implies #[trigger] requests.seq_lens@[i]
                <= i32::MAX by {
                assert(requests.start_positions@[i] + requests.seq_lens@[i] <= i32::MAX);
            }
            assert(group_size <= num_q_heads) by (nonlinear_arith)
                requires
                    num_kv_heads >= 1,
                    group_size == num_q_heads / num_kv_heads,
            ;
        }
        let maps: TokenMaps = token_maps(requests);
        ensure_that(cta_tile_q > 0, "invalid prefill CTA tile override")?;
        let tiles: TileLists = tile_lists(requests, group_size, cta_tile_q)?;
        let num_tiles: i32 = checked_i32(tiles.request_indices.len(), "prefill plan tile count")?;
        let host = BatchPlanHost {
            all_page_indices: tables.all_page_indices,
            page_indptr: tables.page_indptr,
            last_page_lens_i32: tables.last_page_lens,
            batch_indices: maps.batch_indices,
            positions: maps.positions,
            q_indptr: maps.q_indptr,
            request_indices_v: tiles.request_indices,
            qo_tile_indices_v: tiles.qo_tile_indices,
            kv_tile_indices_v: tiles.kv_tile_indices,
            kv_chunk_sizes: tables.kv_chunk_sizes,
            num_tiles,
            batch_size: requests.page_indices.len(),
            total_tokens: query.total_tokens as usize,
            cta_tile_q: cta_tile_q as usize,
        };
        assert(host@ =~= requests.model(num_q_heads, num_kv_heads, cta_tile_q));
        proof {
            assert forall|i: int| 0 <= i < requests.seq_lens@.len() implies
                #[trigger] host.kv_chunk_sizes@[i] == requests.start_positions@[i] + requests.seq_lens@[i] by {
                assert(requests.start_positions@[i] + requests.seq_lens@[i] <= i32::MAX);
            }
        }
        Ok(host)
    }
}

} // verus!
