//! What holds of every prefill plan.

use vstd::prelude::*;

use super::plan::BatchPlanHost;
use super::plan::BatchRequests;
use super::prefill_plan::PrefillPagedPlan;
use super::prefill_plan::SingleRequest;
use crate::error::KernelError;

verus! {

proof fn lemma_token_lengths(starts: Seq<usize>, seq_lens: Seq<usize>, n: nat)
    ensures
        super::plan::requests_upto(seq_lens, n).len() == super::plan::tokens_upto(seq_lens, n),
        super::plan::positions_upto(starts, seq_lens, n).len() == super::plan::tokens_upto(
            seq_lens,
            n,
        ),
    decreases n,
{
    if n > 0 {
        lemma_token_lengths(starts, seq_lens, (n - 1) as nat);
    }
}

proof fn lemma_tile_lengths(seq_lens: Seq<usize>, group: int, cta: int, n: nat)
    requires
        group >= 0,
        cta > 0,
    ensures
        super::plan::tiles_upto(seq_lens, group, cta, n) >= 0,
        super::plan::tile_requests_upto(seq_lens, group, cta, n).len() == super::plan::tiles_upto(
            seq_lens,
            group,
            cta,
            n,
        ),
        super::plan::tile_indices_upto(seq_lens, group, cta, n).len() == super::plan::tiles_upto(
            seq_lens,
            group,
            cta,
            n,
        ),
    decreases n,
{
    if n > 0 {
        lemma_tile_lengths(seq_lens, group, cta, (n - 1) as nat);
        let len = seq_lens[n - 1];
        assert(len * group >= 0) by (nonlinear_arith)
            requires
                len >= 0,
                group >= 0,
        ;
        crate::ops::law_ceil_div_covers(len * group, cta);
    }
}

/// The lengths of a plan's arrays, and the bounds that a faultless batch has.
pub proof fn lemma_model_lengths(
    requests: BatchRequests,
    num_q_heads: usize,
    num_kv_heads: usize,
    head_dim: usize,
    cta_tile_q: i32,
)
    requires
        requests.wf(),
        requests.fault(num_q_heads, num_kv_heads, head_dim, cta_tile_q) is None,
    ensures
        ({
            let m = requests.model(num_q_heads, num_kv_heads, cta_tile_q);
            &&& m.page_indptr.len() == requests.size() + 1
            &&& m.last_page_lens.len() == requests.size()
            &&& m.kv_chunk_sizes.len() == requests.size()
            &&& m.q_indptr.len() == requests.size() + 1
            &&& m.batch_indices.len() == m.total_tokens
            &&& m.positions.len() == m.total_tokens
            &&& 0 <= m.total_tokens <= i32::MAX
            &&& m.request_indices.len() == m.num_tiles
            &&& m.qo_tile_indices.len() == m.num_tiles
            &&& m.kv_tile_indices.len() == m.num_tiles
            &&& 0 <= m.num_tiles <= i32::MAX
            &&& requests.size() <= m.all_page_indices.len()
            &&& requests.size() <= i32::MAX
            &&& m.all_page_indices.len() <= i32::MAX
            &&& m.cta_tile_q > 0
        }),
{
    let n = requests.size();
    let group = (num_q_heads / num_kv_heads) as int;
    assert(group >= 0) by (nonlinear_arith)
        requires
            num_kv_heads > 0,
            group == num_q_heads / num_kv_heads,
    ;
    lemma_token_lengths(requests.start_positions@, requests.seq_lens@, n);
    lemma_tile_lengths(requests.seq_lens@, group, cta_tile_q as int, n);
    super::plan::lemma_faultless_requests(requests, n);
}

proof fn lemma_pages_prefix(pages: Seq<Vec<i32>>, i: nat, n: nat)
    requires
        i <= n,
    ensures
        super::plan::pages_upto(pages, i).len() <= super::plan::pages_upto(pages, n).len(),
        forall|t: int|
            0 <= t < super::plan::pages_upto(pages, i).len() ==> #[trigger] super::plan::pages_upto(
                pages,
                n,
            )[t] == super::plan::pages_upto(pages, i)[t],
    decreases n - i,
{
    if i < n {
        lemma_pages_prefix(pages, i, (n - 1) as nat);
    }
}

/// The page table is in compressed rows: the boundaries start at zero, grow
/// with every request and end at the page count, and row `i` holds the pages
/// of request `i`.
pub proof fn law_page_rows(
    requests: BatchRequests,
    num_q_heads: usize,
    num_kv_heads: usize,
    head_dim: usize,
    cta_tile_q: i32,
    i: int,
)
    requires
        requests.wf(),
        requests.fault(num_q_heads, num_kv_heads, head_dim, cta_tile_q) is None,
        0 <= i < requests.size(),
    ensures
        ({
            let m = requests.model(num_q_heads, num_kv_heads, cta_tile_q);
            &&& m.page_indptr[0] == 0
            &&& m.page_indptr[requests.size() as int] == m.all_page_indices.len()
            &&& 0 <= m.page_indptr[i] < m.page_indptr[i + 1] <= m.all_page_indices.len()
            &&& m.all_page_indices.subrange(m.page_indptr[i] as int, m.page_indptr[i + 1] as int)
                == requests.page_indices@[i]@
        }),
{
    let n = requests.size();
    let pages = requests.page_indices@;
    let m = requests.model(num_q_heads, num_kv_heads, cta_tile_q);
    super::plan::lemma_faultless_requests(requests, n);
    lemma_pages_prefix(pages, i as nat, n);
    lemma_pages_prefix(pages, (i + 1) as nat, n);
    lemma_no_fault_before(requests, (i + 1) as nat, n);
    assert(requests.request_fault(i) is None);
    let lo = super::plan::pages_upto(pages, i as nat).len();
    let hi = super::plan::pages_upto(pages, (i + 1) as nat).len();
    assert(hi == lo + pages[i]@.len());
    assert(m.page_indptr[i] == lo);
    assert(m.page_indptr[i + 1] == hi);
    assert(m.page_indptr[n as int] == super::plan::pages_upto(pages, n).len());
    assert forall|t: int| lo <= t < hi implies #[trigger] m.all_page_indices[t] == pages[i]@[t
        - lo] by {
        assert(super::plan::pages_upto(pages, (i + 1) as nat)[t] == pages[i]@[t - lo]);
    }
    assert(m.all_page_indices.subrange(lo as int, hi as int) =~= pages[i]@);
}

proof fn lemma_no_fault_before(requests: BatchRequests, i: nat, n: nat)
    requires
        i <= n,
        requests.first_request_fault(n) is None,
    ensures
        requests.first_request_fault(i) is None,
    decreases n - i,
{
    if i < n {
        lemma_no_fault_before(requests, i, (n - 1) as nat);
    }
}

proof fn lemma_token_prefix(starts: Seq<usize>, seq_lens: Seq<usize>, i: nat, n: nat)
    requires
        i <= n,
    ensures
        super::plan::tokens_upto(seq_lens, i) <= super::plan::tokens_upto(seq_lens, n),
        forall|t: int|
            0 <= t < super::plan::tokens_upto(seq_lens, i) ==> #[trigger] super::plan::requests_upto(
                seq_lens,
                n,
            )[t] == super::plan::requests_upto(seq_lens, i)[t],
        forall|t: int|
            0 <= t < super::plan::tokens_upto(seq_lens, i)
                ==> #[trigger] super::plan::positions_upto(starts, seq_lens, n)[t]
                == super::plan::positions_upto(starts, seq_lens, i)[t],
    decreases n - i,
{
    if i < n {
        lemma_token_prefix(starts, seq_lens, i, (n - 1) as nat);
        lemma_token_lengths(starts, seq_lens, (n - 1) as nat);
    }
}

/// The token maps are in compressed rows: the boundaries start at zero, never
/// fall and end at the token count, and every token of row `i` belongs to
/// request `i` and sits at the request's start plus its index in the row.
pub proof fn law_token_rows(
    requests: BatchRequests,
    num_q_heads: usize,
    num_kv_heads: usize,
    head_dim: usize,
    cta_tile_q: i32,
    i: int,
    t: int,
)
    requires
        requests.wf(),
        requests.fault(num_q_heads, num_kv_heads, head_dim, cta_tile_q) is None,
        0 <= i < requests.size(),
    ensures
        ({
            let m = requests.model(num_q_heads, num_kv_heads, cta_tile_q);
            &&& m.q_indptr[0] == 0
            &&& m.q_indptr[requests.size() as int] == m.total_tokens
            &&& m.q_indptr[i + 1] == m.q_indptr[i] + requests.seq_lens@[i]
            &&& m.q_indptr[i + 1] <= m.total_tokens
            &&& m.q_indptr[i] <= t < m.q_indptr[i + 1] ==> {
                &&& m.batch_indices[t] == i
                &&& m.positions[t] == requests.start_positions@[i] + (t - m.q_indptr[i])
            }
        }),
{
    let n = requests.size();
    let lens = requests.seq_lens@;
    let starts = requests.start_positions@;
    let m = requests.model(num_q_heads, num_kv_heads, cta_tile_q);
    super::plan::lemma_faultless_requests(requests, n);
    lemma_token_prefix(starts, lens, i as nat, n);
    lemma_token_prefix(starts, lens, (i + 1) as nat, n);
    lemma_token_lengths(starts, lens, i as nat);
    lemma_token_lengths(starts, lens, (i + 1) as nat);
    let lo = super::plan::tokens_upto(lens, i as nat);
    let hi = super::plan::tokens_upto(lens, (i + 1) as nat);
    assert(m.q_indptr[i] == lo);
    assert(m.q_indptr[i + 1] == hi);
    assert(requests.start_positions@[i] + requests.seq_lens@[i] <= i32::MAX);
    if lo <= t < hi {
        assert(super::plan::requests_upto(lens, (i + 1) as nat)[t] == i as i32);
        assert(super::plan::positions_upto(starts, lens, (i + 1) as nat)[t] == (starts[i] + (t
            - lo)) as i32);
    }
}

proof fn lemma_tile_prefix(seq_lens: Seq<usize>, group: int, cta: int, i: nat, n: nat)
    requires
        i <= n,
        group >= 0,
        cta > 0,
    ensures
        super::plan::tiles_upto(seq_lens, group, cta, i) <= super::plan::tiles_upto(
            seq_lens,
            group,
            cta,
            n,
        ),
        forall|t: int|
            0 <= t < super::plan::tiles_upto(seq_lens, group, cta, i)
                ==> #[trigger] super::plan::tile_requests_upto(seq_lens, group, cta, n)[t]
                == super::plan::tile_requests_upto(seq_lens, group, cta, i)[t],
        forall|t: int|
            0 <= t < super::plan::tiles_upto(seq_lens, group, cta, i)
                ==> #[trigger] super::plan::tile_indices_upto(seq_lens, group, cta, n)[t]
                == super::plan::tile_indices_upto(seq_lens, group, cta, i)[t],
    decreases n - i,
{
    if i < n {
        lemma_tile_prefix(seq_lens, group, cta, i, (n - 1) as nat);
        lemma_tile_lengths(seq_lens, group, cta, (n - 1) as nat);
        lemma_tile_lengths(seq_lens, group, cta, n);
        let len = seq_lens[n - 1];
        assert(len * group >= 0) by (nonlinear_arith)
            requires
                len >= 0,
                group >= 0,
        ;
        crate::ops::law_ceil_div_covers(len * group, cta);
    }
}

/// The tile lists run over the requests in order and over each request's
/// tiles from zero; every tile is of KV tile zero, and the tiles of a request
/// cover its packed query rows with none to spare.
pub proof fn law_tile_rows(
    requests: BatchRequests,
    num_q_heads: usize,
    num_kv_heads: usize,
    head_dim: usize,
    cta_tile_q: i32,
    i: int,
    t: int,
)
    requires
        requests.wf(),
        requests.fault(num_q_heads, num_kv_heads, head_dim, cta_tile_q) is None,
        0 <= i < requests.size(),
    ensures
        ({
            let m = requests.model(num_q_heads, num_kv_heads, cta_tile_q);
            let group = (num_q_heads / num_kv_heads) as int;
            let lo = super::plan::tiles_upto(
                requests.seq_lens@,
                group,
                cta_tile_q as int,
                i as nat,
            );
            let count = super::plan::tile_count(
                requests.seq_lens@[i],
                group,
                cta_tile_q as int,
            );
            &&& 0 <= lo
            &&& lo + count <= m.num_tiles
            &&& lo <= t < lo + count ==> {
                &&& m.request_indices[t] == i
                &&& m.qo_tile_indices[t] == t - lo
                &&& m.kv_tile_indices[t] == 0
            }
            &&& count * cta_tile_q >= requests.seq_lens@[i] * group
            &&& requests.seq_lens@[i] * group > 0 ==> (count - 1) * cta_tile_q
                < requests.seq_lens@[i] * group
        }),
{
    let n = requests.size();
    let lens = requests.seq_lens@;
    let group = (num_q_heads / num_kv_heads) as int;
    let cta = cta_tile_q as int;
    assert(group >= 0) by (nonlinear_arith)
        requires
            num_kv_heads > 0,
            group == num_q_heads / num_kv_heads,
    ;
    super::plan::lemma_faultless_requests(requests, n);
    let m = requests.model(num_q_heads, num_kv_heads, cta_tile_q);
    lemma_tile_lengths(lens, group, cta, n);
    lemma_tile_lengths(lens, group, cta, i as nat);
    lemma_tile_lengths(lens, group, cta, (i + 1) as nat);
    lemma_tile_prefix(lens, group, cta, (i + 1) as nat, n);
    lemma_no_tile_fault_before(requests, group, cta, (i + 1) as nat, n);
    let len = lens[i];
    assert(len * group >= 0) by (nonlinear_arith)
        requires
            len >= 0,
            group >= 0,
    ;
    crate::ops::law_ceil_div_covers(len * group, cta);
    let lo = super::plan::tiles_upto(lens, group, cta, i as nat);
    let count = super::plan::tile_count(len, group, cta);
    if lo <= t < lo + count {
        assert(super::plan::tile_requests_upto(lens, group, cta, (i + 1) as nat)[t] == i as i32);
        assert(super::plan::tile_indices_upto(lens, group, cta, (i + 1) as nat)[t] == (t
            - lo) as i32);
    }
}

proof fn lemma_no_tile_fault_before(requests: BatchRequests, group: int, cta: int, i: nat, n: nat)
    requires
        i <= n,
        requests.first_tile_fault(group, cta, n) is None,
    ensures
        requests.first_tile_fault(group, cta, i) is None,
    decreases n - i,
{
    if i < n {
        lemma_no_tile_fault_before(requests, group, cta, i, (n - 1) as nat);
    }
}

/// A plan refilled in place and a fresh one never diverge: whenever the
/// refill succeeds the fresh plan does too, both upload the same arrays, and
/// they differ in nothing but the buffers' capacities. A refill is refused
/// beyond that only for want of capacity.
pub proof fn law_refill_agrees_with_fresh(
    plan: PrefillPagedPlan,
    requests: BatchRequests,
    num_q_heads: usize,
    num_kv_heads: usize,
    head_dim: usize,
    cta_tile_q: i32,
)
    requires
        requests.wf(),
        plan.wf(),
    ensures
        ({
            let m = requests.model(num_q_heads, num_kv_heads, cta_tile_q);
            let fresh_fault = PrefillPagedPlan::batch_fault(
                requests,
                num_q_heads,
                num_kv_heads,
                head_dim,
                cta_tile_q,
            );
            let refill_fault = plan.update_fault(
                requests,
                num_q_heads,
                num_kv_heads,
                head_dim,
                cta_tile_q,
            );
            let fresh = super::prefill_plan::plan_over(super::prefill_plan::exact_capacity(m), m, num_q_heads, num_kv_heads, head_dim);
            let refilled = super::prefill_plan::plan_over(plan.capacity, m, num_q_heads, num_kv_heads, head_dim);
            &&& refill_fault is None ==> fresh_fault is None
            &&& fresh_fault is None && refill_fault is Some ==> refill_fault == super::prefill_plan::capacity_fault(
                plan.capacity,
                m,
            )
            &&& (PrefillPagedPlan { capacity: fresh.capacity, ..refilled }) == fresh
            &&& fresh_fault is None ==> super::prefill_plan::capacity_fault(super::prefill_plan::exact_capacity(m), m) is None
        }),
{
    if requests.fault(num_q_heads, num_kv_heads, head_dim, cta_tile_q) is None {
        lemma_model_lengths(requests, num_q_heads, num_kv_heads, head_dim, cta_tile_q);
    }
}

/// What a refill copies fits the buffers, so a refill never reallocates.
pub proof fn law_refill_fits(
    plan: PrefillPagedPlan,
    requests: BatchRequests,
    num_q_heads: usize,
    num_kv_heads: usize,
    head_dim: usize,
    cta_tile_q: i32,
)
    requires
        requests.wf(),
        plan.wf(),
        plan.update_fault(requests, num_q_heads, num_kv_heads, head_dim, cta_tile_q) is None,
    ensures
        ({
            let m = requests.model(num_q_heads, num_kv_heads, cta_tile_q);
            let c = plan.capacity;
            &&& m.all_page_indices.len() <= c.page_indices
            &&& m.page_indptr.len() <= c.page_indptr
            &&& m.last_page_lens.len() <= c.last_page_len
            &&& m.batch_indices.len() <= c.batch_indices
            &&& m.positions.len() <= c.positions
            &&& m.q_indptr.len() <= c.q_indptr
            &&& m.request_indices.len() <= c.request_indices
            &&& m.qo_tile_indices.len() <= c.qo_tile_indices
            &&& m.kv_tile_indices.len() <= c.kv_tile_indices
            &&& m.kv_chunk_sizes.len() <= c.kv_chunk_size
        }),
{
    lemma_model_lengths(requests, num_q_heads, num_kv_heads, head_dim, cta_tile_q);
}

/// The plan of one request is the plan of a batch that holds it alone,
/// whenever the tile query's count is the number of tiles that cover it.
pub proof fn law_single_request_is_a_batch_of_one(
    request: SingleRequest,
    requests: BatchRequests,
    num_q_heads: usize,
    num_kv_heads: usize,
    head_dim: usize,
    num_tiles: i32,
    cta_tile_q: i32,
)
    requires
        requests.wf(),
        requests.size() == 1,
        requests.page_indices@[0]@ == request.page_indices@,
        requests.last_page_lens@[0] == request.last_page_len,
        requests.start_positions@[0] == request.start_pos,
        requests.seq_lens@[0] == request.seq_len,
        num_tiles > 0,
        cta_tile_q > 0,
        num_tiles == super::plan::tile_count(
            request.seq_len,
            (num_q_heads / num_kv_heads) as int,
            cta_tile_q as int,
        ),
    ensures
        request.fault(num_q_heads, num_kv_heads, head_dim, num_tiles, cta_tile_q) is None
            <==> PrefillPagedPlan::batch_fault(
            requests,
            num_q_heads,
            num_kv_heads,
            head_dim,
            cta_tile_q,
        ) is None,
        request.fault(num_q_heads, num_kv_heads, head_dim, num_tiles, cta_tile_q) is None
            ==> request.model(num_tiles, cta_tile_q) == requests.model(
            num_q_heads,
            num_kv_heads,
            cta_tile_q,
        ),
{
    reveal_with_fuel(super::plan::pages_upto, 2);
    reveal_with_fuel(super::plan::tokens_upto, 2);
    reveal_with_fuel(super::plan::requests_upto, 2);
    reveal_with_fuel(super::plan::positions_upto, 2);
    reveal_with_fuel(super::plan::tiles_upto, 2);
    reveal_with_fuel(super::plan::tile_requests_upto, 2);
    reveal_with_fuel(super::plan::tile_indices_upto, 2);
    reveal_with_fuel(BatchRequests::first_request_fault, 2);
    reveal_with_fuel(BatchRequests::first_tile_fault, 2);
    let group = (num_q_heads / num_kv_heads) as int;
    let cta = cta_tile_q as int;
    let a = request.model(num_tiles, cta_tile_q);
    let b = requests.model(num_q_heads, num_kv_heads, cta_tile_q);
    assert(super::plan::pages_upto(requests.page_indices@, 1) =~= request.page_indices@);
    assert(super::plan::tokens_upto(requests.seq_lens@, 1) == request.seq_len);
    assert(super::plan::tiles_upto(requests.seq_lens@, group, cta, 1) == num_tiles);
    assert(b.last_page_lens =~= seq![request.last_page_len as i32]);
    assert(a.page_indptr =~= b.page_indptr);
    assert(a.batch_indices =~= b.batch_indices);
    assert(a.positions =~= b.positions);
    assert(a.q_indptr =~= b.q_indptr);
    assert(a.request_indices =~= b.request_indices);
    assert(a.qo_tile_indices =~= b.qo_tile_indices);
    assert(a.kv_tile_indices =~= b.kv_tile_indices);
    assert(a.kv_chunk_sizes =~= b.kv_chunk_sizes);
    assert(a =~= b);
}

/// What a computed step tells the kernels about request `i`, read off the
/// arrays themselves: the last page holds the tokens that the request said it
/// holds, the KV reaches to the end of the request's new tokens, the page row
/// is the request's own page list and the token row runs over its positions.
pub proof fn law_step_carries_each_request(
    requests: BatchRequests,
    host: BatchPlanHost,
    num_q_heads: usize,
    num_kv_heads: usize,
    head_dim: usize,
    cta_tile_q: i32,
    i: int,
)
    requires
        requests.wf(),
        requests.fault(num_q_heads, num_kv_heads, head_dim, cta_tile_q) is None,
        host@ == requests.model(num_q_heads, num_kv_heads, cta_tile_q),
        0 <= i < requests.page_indices@.len(),
    ensures
        host.last_page_lens_i32@.len() == requests.page_indices@.len(),
        host.last_page_lens_i32@[i] == requests.last_page_lens@[i],
        host.kv_chunk_sizes@.len() == requests.page_indices@.len(),
        host.kv_chunk_sizes@[i] == requests.start_positions@[i] + requests.seq_lens@[i],
        host.page_indptr@.len() == requests.page_indices@.len() + 1,
        0 <= host.page_indptr@[i] <= host.page_indptr@[i + 1] <= host.all_page_indices@.len(),
        host.all_page_indices@.subrange(
            host.page_indptr@[i] as int,
            host.page_indptr@[i + 1] as int,
        ) == requests.page_indices@[i]@,
        host.q_indptr@.len() == requests.page_indices@.len() + 1,
        0 <= host.q_indptr@[i],
        host.q_indptr@[i + 1] == host.q_indptr@[i] + requests.seq_lens@[i],
        host.q_indptr@[i + 1] <= host.batch_indices@.len(),
        host.batch_indices@.len() == host.positions@.len(),
        forall|j: int|
            0 <= j < requests.seq_lens@[i] ==> #[trigger] host.batch_indices@[host.q_indptr@[i]
                + j] == i,
        forall|j: int|
            0 <= j < requests.seq_lens@[i] ==> #[trigger] host.positions@[host.q_indptr@[i] + j]
                == requests.start_positions@[i] + j,
{
    let m = requests.model(num_q_heads, num_kv_heads, cta_tile_q);
    assert(host@.last_page_lens == host.last_page_lens_i32@);
    law_page_rows(requests, num_q_heads, num_kv_heads, head_dim, cta_tile_q, i);
    law_token_rows(requests, num_q_heads, num_kv_heads, head_dim, cta_tile_q, i, 0);
    lemma_model_lengths(requests, num_q_heads, num_kv_heads, head_dim, cta_tile_q);
    super::plan::lemma_faultless_requests(requests, requests.size());
    lemma_no_fault_before(requests, (i + 1) as nat, requests.size());
    assert(requests.request_fault(i) is None);
    assert(m.q_indptr[i] == super::plan::tokens_upto(requests.seq_lens@, i as nat)) by {
        lemma_token_prefix(
            requests.start_positions@,
            requests.seq_lens@,
            i as nat,
            requests.size(),
        );
    }
    assert forall|j: int| 0 <= j < requests.seq_lens@[i] implies #[trigger] host.batch_indices@[
    host.q_indptr@[i] + j] == i by {
        law_token_rows(
            requests,
            num_q_heads,
            num_kv_heads,
            head_dim,
            cta_tile_q,
            i,
            host.q_indptr@[i] + j,
        );
    }
    assert forall|j: int| 0 <= j < requests.seq_lens@[i] implies #[trigger] host.positions@[
    host.q_indptr@[i] + j] == requests.start_positions@[i] + j by {
        law_token_rows(
            requests,
            num_q_heads,
            num_kv_heads,
            head_dim,
            cta_tile_q,
            i,
            host.q_indptr@[i] + j,
        );
    }
}

/// The arrays of a computed step leave nothing out and add nothing: the page
/// rows and the token rows start at zero and end where the arrays do, and the
/// three tile lists are as long as the tile count.
pub proof fn law_step_is_complete(
    requests: BatchRequests,
    host: BatchPlanHost,
    num_q_heads: usize,
    num_kv_heads: usize,
    head_dim: usize,
    cta_tile_q: i32,
)
    requires
        requests.wf(),
        requests.fault(num_q_heads, num_kv_heads, head_dim, cta_tile_q) is None,
        host@ == requests.model(num_q_heads, num_kv_heads, cta_tile_q),
    ensures
        host.batch_size == requests.page_indices@.len(),
        host.page_indptr@.len() == host.batch_size + 1,
        host.page_indptr@[0] == 0,
        host.page_indptr@[host.batch_size as int] == host.all_page_indices@.len(),
        host.q_indptr@.len() == host.batch_size + 1,
        host.q_indptr@[0] == 0,
        host.q_indptr@[host.batch_size as int] == host.total_tokens,
        host.batch_indices@.len() == host.total_tokens,
        host.positions@.len() == host.total_tokens,
        host.request_indices_v@.len() == host.num_tiles,
        host.qo_tile_indices_v@.len() == host.num_tiles,
        host.kv_tile_indices_v@.len() == host.num_tiles,
        host.cta_tile_q == cta_tile_q,
{
    let n = requests.size();
    let m = requests.model(num_q_heads, num_kv_heads, cta_tile_q);
    lemma_model_lengths(requests, num_q_heads, num_kv_heads, head_dim, cta_tile_q);
    super::plan::lemma_faultless_requests(requests, n);
    assert(m.page_indptr[0] == 0);
    assert(m.page_indptr[n as int] == m.all_page_indices.len());
    assert(m.q_indptr[0] == 0);
    assert(m.q_indptr[n as int] == m.total_tokens);
}

proof fn lemma_tile_owner(
    requests: BatchRequests,
    num_q_heads: usize,
    num_kv_heads: usize,
    head_dim: usize,
    cta_tile_q: i32,
    t: int,
    n: nat,
) -> (i: int)
    requires
        requests.wf(),
        requests.fault(num_q_heads, num_kv_heads, head_dim, cta_tile_q) is None,
        n <= requests.size(),
        0 <= t < super::plan::tiles_upto(
            requests.seq_lens@,
            (num_q_heads / num_kv_heads) as int,
            cta_tile_q as int,
            n,
        ),
    ensures
        0 <= i < n,
        ({
            let group = (num_q_heads / num_kv_heads) as int;
            let lo = super::plan::tiles_upto(
                requests.seq_lens@,
                group,
                cta_tile_q as int,
                i as nat,
            );
            lo <= t < lo + super::plan::tile_count(
                requests.seq_lens@[i],
                group,
                cta_tile_q as int,
            )
        }),
    decreases n,
{
    let group = (num_q_heads / num_kv_heads) as int;
    let lo = super::plan::tiles_upto(
        requests.seq_lens@,
        group,
        cta_tile_q as int,
        (n - 1) as nat,
    );
    if t < lo {
        lemma_tile_owner(
            requests,
            num_q_heads,
            num_kv_heads,
            head_dim,
            cta_tile_q,
            t,
            (n - 1) as nat,
        )
    } else {
        n - 1
    }
}

/// Every tile of a computed step is of one of the requests, of KV tile zero,
/// and starts inside the request's packed query rows, of which each token has
/// one per query head of its KV head.
pub proof fn law_every_tile_has_rows(
    requests: BatchRequests,
    host: BatchPlanHost,
    num_q_heads: usize,
    num_kv_heads: usize,
    head_dim: usize,
    cta_tile_q: i32,
    group: int,
    t: int,
)
    requires
        requests.wf(),
        requests.fault(num_q_heads, num_kv_heads, head_dim, cta_tile_q) is None,
        host@ == requests.model(num_q_heads, num_kv_heads, cta_tile_q),
        num_q_heads == group * num_kv_heads,
        0 <= t < host.num_tiles,
    ensures
        0 <= host.request_indices_v@[t] < requests.page_indices@.len(),
        host.kv_tile_indices_v@[t] == 0,
        0 <= host.qo_tile_indices_v@[t],
        host.qo_tile_indices_v@[t] * cta_tile_q
            < requests.seq_lens@[host.request_indices_v@[t] as int] * group,
{
    lemma_group(num_q_heads, num_kv_heads, group);
    let i = lemma_tile_owner(
        requests,
        num_q_heads,
        num_kv_heads,
        head_dim,
        cta_tile_q,
        t,
        requests.size(),
    );
    law_tile_rows(requests, num_q_heads, num_kv_heads, head_dim, cta_tile_q, i, t);
    let len = requests.seq_lens@[i];
    let lo = super::plan::tiles_upto(requests.seq_lens@, group, cta_tile_q as int, i as nat);
    let count = super::plan::tile_count(len, group, cta_tile_q as int);
    assert(len * group >= 0) by (nonlinear_arith)
        requires
            len >= 0,
            group >= 0,
    ;
    if len * group == 0 {
        assert((cta_tile_q - 1) / (cta_tile_q as int) == 0) by (nonlinear_arith)
            requires
                cta_tile_q > 0,
        ;
        assert(count == 0);
    }
    assert((t - lo) * cta_tile_q <= (count - 1) * cta_tile_q) by (nonlinear_arith)
        requires
            t - lo <= count - 1,
            cta_tile_q > 0,
    ;
}

proof fn lemma_group(num_q_heads: usize, num_kv_heads: usize, group: int)
    requires
        num_kv_heads > 0,
        num_q_heads == group * num_kv_heads,
    ensures
        group == num_q_heads / num_kv_heads,
        group >= 0,
{
    assert(group == num_q_heads / num_kv_heads && group >= 0) by (nonlinear_arith)
        requires
            num_kv_heads > 0,
            num_q_heads >= 0,
            num_q_heads == group * num_kv_heads,
    ;
}

/// Every packed query row of every request is of exactly one tile, the one
/// that its place in the request falls into.
pub proof fn law_every_row_has_one_tile(
    requests: BatchRequests,
    host: BatchPlanHost,
    num_q_heads: usize,
    num_kv_heads: usize,
    head_dim: usize,
    cta_tile_q: i32,
    group: int,
    i: int,
    row: int,
) -> (t: int)
    requires
        requests.wf(),
        requests.fault(num_q_heads, num_kv_heads, head_dim, cta_tile_q) is None,
        host@ == requests.model(num_q_heads, num_kv_heads, cta_tile_q),
        num_q_heads == group * num_kv_heads,
        0 <= i < requests.page_indices@.len(),
        0 <= row < requests.seq_lens@[i] * group,
    ensures
        0 <= t < host.num_tiles,
        host.request_indices_v@[t] == i,
        host.qo_tile_indices_v@[t] * cta_tile_q <= row < (host.qo_tile_indices_v@[t] + 1)
            * cta_tile_q,
        forall|u: int|
            0 <= u < host.num_tiles && host.request_indices_v@[u] == i
                && host.qo_tile_indices_v@[u] == host.qo_tile_indices_v@[t] ==> u == t,
{
    lemma_group(num_q_heads, num_kv_heads, group);
    let lo = super::plan::tiles_upto(requests.seq_lens@, group, cta_tile_q as int, i as nat);
    let count = super::plan::tile_count(requests.seq_lens@[i], group, cta_tile_q as int);
    let q = row / (cta_tile_q as int);
    law_tile_rows(requests, num_q_heads, num_kv_heads, head_dim, cta_tile_q, i, lo);
    vstd::arithmetic::div_mod::lemma_fundamental_div_mod(row, cta_tile_q as int);
    assert(q >= 0) by (nonlinear_arith)
        requires
            q == row / (cta_tile_q as int),
            row >= 0,
            cta_tile_q > 0,
    ;
    assert(q * cta_tile_q <= row < (q + 1) * cta_tile_q) by (nonlinear_arith)
        requires
            row == cta_tile_q * q + row % (cta_tile_q as int),
            0 <= row % (cta_tile_q as int) < cta_tile_q,
    ;
    assert(q < count) by (nonlinear_arith)
        requires
            q * cta_tile_q <= row,
            row < requests.seq_lens@[i] * group,
            count * cta_tile_q >= requests.seq_lens@[i] * group,
            cta_tile_q > 0,
    ;
    let t = lo + q;
    law_tile_rows(requests, num_q_heads, num_kv_heads, head_dim, cta_tile_q, i, t);
    assert forall|u: int|
        0 <= u < host.num_tiles && host.request_indices_v@[u] == i && host.qo_tile_indices_v@[u]
            == host.qo_tile_indices_v@[t] implies u == t by {
        let k = lemma_tile_owner(
            requests,
            num_q_heads,
            num_kv_heads,
            head_dim,
            cta_tile_q,
            u,
            requests.size(),
        );
        law_tile_rows(requests, num_q_heads, num_kv_heads, head_dim, cta_tile_q, k, u);
    }
    t
}

/// A batch is planned exactly when the query heads split evenly over the KV
/// heads, every request has pages, every number fits the kernels' integers and
/// the tile is positive. The totals are sums over the requests, so the last
/// row boundaries bound all the others.
pub proof fn law_batch_is_planned_when_it_fits(
    requests: BatchRequests,
    num_q_heads: usize,
    num_kv_heads: usize,
    head_dim: usize,
    cta_tile_q: i32,
)
    requires
        requests.wf(),
    ensures
        requests.fault(num_q_heads, num_kv_heads, head_dim, cta_tile_q) is None <==> {
            &&& num_kv_heads > 0
            &&& num_q_heads > 0
            &&& num_q_heads % num_kv_heads == 0
            &&& num_q_heads <= i32::MAX
            &&& head_dim <= i32::MAX
            &&& cta_tile_q > 0
            &&& forall|i: int|
                0 <= i < requests.page_indices@.len() ==> {
                    &&& (#[trigger] requests.page_indices@[i])@.len() > 0
                    &&& requests.last_page_lens@[i] <= i32::MAX
                    &&& requests.start_positions@[i] + requests.seq_lens@[i] <= i32::MAX
                }
            &&& super::plan::pages_upto(requests.page_indices@, requests.page_indices@.len()).len()
                <= i32::MAX
            &&& super::plan::tokens_upto(requests.seq_lens@, requests.page_indices@.len())
                <= i32::MAX
            &&& super::plan::tiles_upto(
                requests.seq_lens@,
                (num_q_heads / num_kv_heads) as int,
                cta_tile_q as int,
                requests.page_indices@.len(),
            ) <= i32::MAX
        },
{
    let n = requests.size();
    let group = (num_q_heads / num_kv_heads) as int;
    let cta = cta_tile_q as int;
    if num_kv_heads > 0 && num_q_heads > 0 && num_q_heads % num_kv_heads == 0 {
        assert(num_q_heads >= num_kv_heads && group >= 0) by (nonlinear_arith)
            requires
                num_kv_heads > 0,
                num_q_heads > 0,
                num_q_heads % num_kv_heads == 0,
                group == num_q_heads / num_kv_heads,
        ;
        lemma_requests_are_faultless(requests, n);
        if cta_tile_q > 0 && super::plan::tiles_upto(requests.seq_lens@, group, cta, n)
            <= i32::MAX {
            lemma_tiles_are_faultless(requests, group, cta, n);
        }
    }
}

proof fn lemma_requests_are_faultless(requests: BatchRequests, n: nat)
    requires
        n <= requests.size(),
    ensures
        requests.first_request_fault(n) is None <==> {
            &&& forall|i: int|
                0 <= i < n ==> {
                    &&& (#[trigger] requests.page_indices@[i])@.len() > 0
                    &&& requests.last_page_lens@[i] <= i32::MAX
                    &&& requests.start_positions@[i] + requests.seq_lens@[i] <= i32::MAX
                }
            &&& n > 0 ==> super::plan::pages_upto(requests.page_indices@, n).len() <= i32::MAX
        },
    decreases n,
{
    if n > 0 {
        lemma_requests_are_faultless(requests, (n - 1) as nat);
        lemma_pages_prefix(requests.page_indices@, (n - 1) as nat, n);
        assert(requests.page_indices@[n - 1]@.len() >= 0);
    }
}

proof fn lemma_tiles_are_faultless(requests: BatchRequests, group: int, cta: int, n: nat)
    requires
        n <= requests.size(),
        group >= 0,
        cta > 0,
        super::plan::tiles_upto(requests.seq_lens@, group, cta, n) <= i32::MAX,
    ensures
        requests.first_tile_fault(group, cta, n) is None,
    decreases n,
{
    if n > 0 {
        lemma_tile_lengths(requests.seq_lens@, group, cta, (n - 1) as nat);
        lemma_tile_prefix(requests.seq_lens@, group, cta, (n - 1) as nat, n);
        lemma_tiles_are_faultless(requests, group, cta, (n - 1) as nat);
    }
}

/// The scalars of a plan over a computed step are those of the call and of the
/// step's own arrays: the geometry is the call's, the largest page id and the
/// largest last-page length are among the requests' and none is larger, and
/// the buffers of a fresh plan are as long as what goes into them.
pub proof fn law_plan_describes_its_step(
    requests: BatchRequests,
    host: BatchPlanHost,
    capacity: super::prefill_plan::PlanCapacity,
    num_q_heads: usize,
    num_kv_heads: usize,
    head_dim: usize,
    cta_tile_q: i32,
)
    requires
        requests.wf(),
        PrefillPagedPlan::batch_fault(requests, num_q_heads, num_kv_heads, head_dim, cta_tile_q)
            is None,
        host@ == requests.model(num_q_heads, num_kv_heads, cta_tile_q),
    ensures
        ({
            let plan = super::prefill_plan::plan_over(
                capacity,
                host@,
                num_q_heads,
                num_kv_heads,
                head_dim,
            );
            &&& plan.capacity == capacity
            &&& plan.num_qo_heads == num_q_heads
            &&& plan.num_kv_heads == num_kv_heads
            &&& plan.head_dim == head_dim
            &&& plan.cta_tile_q == cta_tile_q
            &&& plan.batch_size == requests.page_indices@.len()
            &&& plan.total_tokens == host.total_tokens
            &&& plan.num_tiles == host.num_tiles
            &&& forall|i: int, p: int|
                0 <= i < requests.page_indices@.len() && 0 <= p
                    < requests.page_indices@[i]@.len() ==> 0
                    <= #[trigger] requests.page_indices@[i]@[p] <= plan.max_page_index
            &&& exists|i: int, p: int|
                0 <= i < requests.page_indices@.len() && 0 <= p
                    < requests.page_indices@[i]@.len()
                    && #[trigger] requests.page_indices@[i]@[p] == plan.max_page_index
            &&& forall|i: int|
                0 <= i < requests.page_indices@.len() ==> 1
                    <= #[trigger] requests.last_page_lens@[i] <= plan.max_last_page_len
            &&& exists|i: int|
                0 <= i < requests.page_indices@.len() && #[trigger] requests.last_page_lens@[i]
                    == plan.max_last_page_len
        }),
        super::prefill_plan::exact_capacity(host@) == (super::prefill_plan::PlanCapacity {
            page_indices: host.all_page_indices@.len() as usize,
            page_indptr: host.page_indptr@.len() as usize,
            last_page_len: host.last_page_lens_i32@.len() as usize,
            batch_indices: host.batch_indices@.len() as usize,
            positions: host.positions@.len() as usize,
            q_indptr: host.q_indptr@.len() as usize,
            request_indices: host.request_indices_v@.len() as usize,
            qo_tile_indices: host.qo_tile_indices_v@.len() as usize,
            kv_tile_indices: host.kv_tile_indices_v@.len() as usize,
            kv_chunk_size: host.kv_chunk_sizes@.len() as usize,
            total_num_rows: 1,
        }),
{
    let n = requests.size();
    let pages = host.all_page_indices@;
    let lens = host.last_page_lens_i32@;
    let max_page = super::plan::seq_max(pages);
    let max_len = super::plan::seq_max(lens);
    lemma_model_lengths(requests, num_q_heads, num_kv_heads, head_dim, cta_tile_q);
    law_step_is_complete(requests, host, num_q_heads, num_kv_heads, head_dim, cta_tile_q);
    assert(super::plan::page_metadata(pages, lens) is Ok);
    super::plan::law_seq_max(pages);
    super::plan::law_seq_max(lens);
    assert forall|i: int, p: int|
        0 <= i < requests.page_indices@.len() && 0 <= p
            < requests.page_indices@[i]@.len() implies 0
        <= #[trigger] requests.page_indices@[i]@[p] <= max_page by {
        law_step_carries_each_request(
            requests,
            host,
            num_q_heads,
            num_kv_heads,
            head_dim,
            cta_tile_q,
            i,
        );
        let lo = host.page_indptr@[i];
        assert(pages.subrange(lo as int, host.page_indptr@[i + 1] as int)[p] == pages[lo + p]);
    }
    let w = choose|w: int| 0 <= w < pages.len() && pages[w] == max_page;
    let i = lemma_page_owner(requests.page_indices@, w, n);
    law_step_carries_each_request(
        requests,
        host,
        num_q_heads,
        num_kv_heads,
        head_dim,
        cta_tile_q,
        i,
    );
    let lo = super::plan::pages_upto(requests.page_indices@, i as nat).len();
    lemma_pages_prefix(requests.page_indices@, i as nat, n);
    assert(host.page_indptr@[i] == lo);
    assert(pages.subrange(lo as int, host.page_indptr@[i + 1] as int)[w - lo] == pages[w]);
    assert(requests.page_indices@[i]@[w - lo] == max_page);
    assert forall|k: int| 0 <= k < requests.page_indices@.len() implies 1
        <= #[trigger] requests.last_page_lens@[k] <= max_len by {
        law_step_carries_each_request(
            requests,
            host,
            num_q_heads,
            num_kv_heads,
            head_dim,
            cta_tile_q,
            k,
        );
        assert(lens[k] == requests.last_page_lens@[k]);
    }
    let x = choose|x: int| 0 <= x < lens.len() && lens[x] == max_len;
    law_step_carries_each_request(
        requests,
        host,
        num_q_heads,
        num_kv_heads,
        head_dim,
        cta_tile_q,
        x,
    );
    assert(requests.last_page_lens@[x] == max_len);
}

proof fn lemma_page_owner(pages: Seq<Vec<i32>>, t: int, n: nat) -> (i: int)
    requires
        n <= pages.len(),
        0 <= t < super::plan::pages_upto(pages, n).len(),
    ensures
        0 <= i < n,
        super::plan::pages_upto(pages, i as nat).len() <= t < super::plan::pages_upto(
            pages,
            i as nat,
        ).len() + pages[i]@.len(),
    decreases n,
{
    if t < super::plan::pages_upto(pages, (n - 1) as nat).len() {
        lemma_page_owner(pages, t, (n - 1) as nat)
    } else {
        n - 1
    }
}

/// The plan of one request carries that request: its own pages, its own
/// last-page length, its own positions, and as many tiles as the tile query
/// counted, each of this request.
pub proof fn law_single_plan_carries_its_request(
    request: SingleRequest,
    host: BatchPlanHost,
    num_q_heads: usize,
    num_kv_heads: usize,
    head_dim: usize,
    num_tiles: i32,
    cta_tile_q: i32,
)
    requires
        request.fault(num_q_heads, num_kv_heads, head_dim, num_tiles, cta_tile_q) is None,
        host@ == request.model(num_tiles, cta_tile_q),
    ensures
        ({
            let plan = super::prefill_plan::plan_over(
                super::prefill_plan::exact_capacity(host@),
                host@,
                num_q_heads,
                num_kv_heads,
                head_dim,
            );
            &&& plan.max_last_page_len == request.last_page_len
            &&& forall|p: int|
                0 <= p < request.page_indices@.len() ==> 0 <= #[trigger] request.page_indices@[p]
                    <= plan.max_page_index
            &&& exists|p: int|
                0 <= p < request.page_indices@.len() && #[trigger] request.page_indices@[p]
                    == plan.max_page_index
            &&& plan.num_qo_heads == num_q_heads
            &&& plan.num_kv_heads == num_kv_heads
            &&& plan.head_dim == head_dim
            &&& plan.num_tiles == num_tiles
            &&& plan.cta_tile_q == cta_tile_q
            &&& plan.batch_size == 1
            &&& plan.total_tokens == request.seq_len
            &&& plan.capacity.page_indices == request.page_indices@.len()
            &&& plan.capacity.positions == request.seq_len
            &&& plan.capacity.request_indices == num_tiles
        }),
        host.all_page_indices@ == request.page_indices@,
        host.page_indptr@.len() == 2,
        host.page_indptr@[0] == 0,
        host.page_indptr@[1] == request.page_indices@.len(),
        host.last_page_lens_i32@.len() == 1,
        host.last_page_lens_i32@[0] == request.last_page_len,
        host.kv_chunk_sizes@.len() == 1,
        host.kv_chunk_sizes@[0] == request.start_pos + request.seq_len,
        host.q_indptr@.len() == 2,
        host.q_indptr@[0] == 0,
        host.q_indptr@[1] == request.seq_len,
        host.batch_indices@.len() == request.seq_len,
        host.positions@.len() == request.seq_len,
        forall|j: int| 0 <= j < request.seq_len ==> #[trigger] host.batch_indices@[j] == 0,
        forall|j: int|
            0 <= j < request.seq_len ==> #[trigger] host.positions@[j] == request.start_pos + j,
        host.request_indices_v@.len() == num_tiles,
        host.qo_tile_indices_v@.len() == num_tiles,
        host.kv_tile_indices_v@.len() == num_tiles,
        forall|t: int| 0 <= t < num_tiles ==> #[trigger] host.request_indices_v@[t] == 0,
        forall|t: int| 0 <= t < num_tiles ==> #[trigger] host.qo_tile_indices_v@[t] == t,
        forall|t: int| 0 <= t < num_tiles ==> #[trigger] host.kv_tile_indices_v@[t] == 0,
{
    let pages = host@.all_page_indices;
    let lens = host@.last_page_lens;
    assert(lens.len() == 1 && lens[0] == request.last_page_len as i32);
    assert(host.page_indptr@ == host@.page_indptr);
    assert(host.q_indptr@ == host@.q_indptr);
    assert(host.kv_chunk_sizes@ == host@.kv_chunk_sizes);
    super::plan::law_seq_max(pages);
    super::plan::law_seq_max(lens);
}

/// One request is planned exactly when its heads split evenly, it has pages of
/// non-negative ids and a last page that holds a token, every number fits the
/// kernels' integers and the tile queries answered positive numbers.
pub proof fn law_single_request_is_planned_when_it_fits(
    request: SingleRequest,
    num_q_heads: usize,
    num_kv_heads: usize,
    head_dim: usize,
    num_tiles: i32,
    cta_tile_q: i32,
)
    ensures
        request.fault(num_q_heads, num_kv_heads, head_dim, num_tiles, cta_tile_q) is None <==> {
            &&& num_kv_heads > 0
            &&& num_q_heads > 0
            &&& num_q_heads % num_kv_heads == 0
            &&& num_q_heads <= i32::MAX
            &&& head_dim <= i32::MAX
            &&& 0 < request.page_indices@.len() <= i32::MAX
            &&& forall|p: int|
                0 <= p < request.page_indices@.len() ==> #[trigger] request.page_indices@[p] >= 0
            &&& 1 <= request.last_page_len <= i32::MAX
            &&& request.start_pos + request.seq_len <= i32::MAX
            &&& num_tiles > 0
            &&& cta_tile_q > 0
        },
{
    if num_kv_heads > 0 && num_q_heads > 0 && num_q_heads % num_kv_heads == 0 {
        assert(num_q_heads >= num_kv_heads) by (nonlinear_arith)
            requires
                num_kv_heads > 0,
                num_q_heads > 0,
                num_q_heads % num_kv_heads == 0,
        ;
    }
    let lens = seq![request.last_page_len as i32];
    assert(lens[0] == request.last_page_len as i32);
}

/// Over the arrays of a step, a plan is refused exactly when some page id is
/// negative, some last page is empty, or there is no request at all.
pub proof fn law_page_metadata_is_checked(pages: Seq<i32>, last_lens: Seq<i32>)
    ensures
        super::plan::page_metadata(pages, last_lens) is Ok <==> {
            &&& pages.len() > 0
            &&& last_lens.len() > 0
            &&& forall|i: int| 0 <= i < pages.len() ==> #[trigger] pages[i] >= 0
            &&& forall|i: int| 0 <= i < last_lens.len() ==> #[trigger] last_lens[i] >= 1
        },
        super::plan::page_metadata(pages, last_lens) matches Ok(meta) ==> {
            &&& pages.contains(meta.0)
            &&& last_lens.contains(meta.1)
            &&& forall|i: int| 0 <= i < pages.len() ==> #[trigger] pages[i] <= meta.0
            &&& forall|i: int| 0 <= i < last_lens.len() ==> #[trigger] last_lens[i] <= meta.1
        },
{
    if pages.len() > 0 && last_lens.len() > 0 {
        super::plan::law_seq_max(pages);
        super::plan::law_seq_max(last_lens);
    }
}

/// A refill has room exactly when every array of the step is no longer than
/// the buffer that it goes into.
pub proof fn law_refill_has_room_when_every_array_fits(
    capacity: super::prefill_plan::PlanCapacity,
    host: BatchPlanHost,
)
    ensures
        super::prefill_plan::capacity_fault(capacity, host@) is None <==> {
            &&& host.all_page_indices@.len() <= capacity.page_indices
            &&& host.page_indptr@.len() <= capacity.page_indptr
            &&& host.last_page_lens_i32@.len() <= capacity.last_page_len
            &&& host.batch_indices@.len() <= capacity.batch_indices
            &&& host.positions@.len() <= capacity.positions
            &&& host.q_indptr@.len() <= capacity.q_indptr
            &&& host.request_indices_v@.len() <= capacity.request_indices
            &&& host.kv_chunk_sizes@.len() <= capacity.kv_chunk_size
        },
{
}

/// Query heads that split evenly over KV heads come in whole groups of at
/// least one.
pub proof fn law_heads_split_into_whole_groups(num_q_heads: usize, num_kv_heads: usize, group: int)
    ensures
        super::plan::head_relation(num_q_heads, num_kv_heads) ==> num_q_heads == (num_q_heads as int
            / num_kv_heads as int) * num_kv_heads && num_q_heads >= num_kv_heads >= 1,
        num_kv_heads > 0 && group > 0 && num_q_heads == group * num_kv_heads
            ==> super::plan::head_relation(num_q_heads, num_kv_heads),
{
    if num_kv_heads > 0 {
        let q = num_q_heads as int;
        let kv = num_kv_heads as int;
        vstd::arithmetic::div_mod::lemma_fundamental_div_mod(q, kv);
        assert(kv * (q / kv) == (q / kv) * kv) by (nonlinear_arith);
        if super::plan::head_relation(num_q_heads, num_kv_heads) {
            assert(q >= kv) by (nonlinear_arith)
                requires
                    q == (q / kv) * kv,
                    q > 0,
                    kv > 0,
            ;
        }
        if group > 0 && num_q_heads == group * num_kv_heads {
            vstd::arithmetic::div_mod::lemma_mod_multiples_basic(group, kv);
            assert(group * kv > 0) by (nonlinear_arith)
                requires
                    group > 0,
                    kv > 0,
            ;
        }
    }
}

/// A planned batch makes a plan exactly when it has a request, no page id is
/// negative and every last page holds a token; it refills a plan exactly when
/// its arrays fit the buffers besides.
pub proof fn law_batch_makes_a_plan_of_real_pages(
    plan: PrefillPagedPlan,
    requests: BatchRequests,
    num_q_heads: usize,
    num_kv_heads: usize,
    head_dim: usize,
    cta_tile_q: i32,
)
    requires
        requests.wf(),
    ensures
        PrefillPagedPlan::batch_fault(requests, num_q_heads, num_kv_heads, head_dim, cta_tile_q)
            is None <==> {
            &&& requests.fault(num_q_heads, num_kv_heads, head_dim, cta_tile_q) is None
            &&& requests.page_indices@.len() > 0
            &&& forall|i: int, p: int|
                0 <= i < requests.page_indices@.len() && 0 <= p
                    < requests.page_indices@[i]@.len() ==> 0
                    <= #[trigger] requests.page_indices@[i]@[p]
            &&& forall|i: int|
                0 <= i < requests.page_indices@.len() ==> #[trigger] requests.last_page_lens@[i]
                    >= 1
        },
        plan.update_fault(requests, num_q_heads, num_kv_heads, head_dim, cta_tile_q) is None <==> {
            &&& PrefillPagedPlan::batch_fault(
                requests,
                num_q_heads,
                num_kv_heads,
                head_dim,
                cta_tile_q,
            ) is None
            &&& super::prefill_plan::capacity_fault(
                plan.capacity,
                requests.model(num_q_heads, num_kv_heads, cta_tile_q),
            ) is None
        },
{
    let n = requests.size();
    let pages = requests.page_indices@;
    if requests.fault(num_q_heads, num_kv_heads, head_dim, cta_tile_q) is None {
        let m = requests.model(num_q_heads, num_kv_heads, cta_tile_q);
        let all = m.all_page_indices;
        let lens = m.last_page_lens;
        lemma_model_lengths(requests, num_q_heads, num_kv_heads, head_dim, cta_tile_q);
        super::plan::lemma_faultless_requests(requests, n);
        law_page_metadata_is_checked(all, lens);
        assert forall|i: int| 0 <= i < n implies #[trigger] lens[i] == requests.last_page_lens@[i]
            by {
            assert(requests.last_page_lens@[i] <= i32::MAX);
        }
        assert forall|i: int, p: int|
            0 <= i < n && 0 <= p < pages[i]@.len() implies exists|t: int|
            0 <= t < all.len() && #[trigger] all[t] == #[trigger] pages[i]@[p] by {
            law_page_rows(requests, num_q_heads, num_kv_heads, head_dim, cta_tile_q, i);
            let lo = m.page_indptr[i] as int;
            let hi = m.page_indptr[i + 1] as int;
            assert(all.subrange(lo, hi)[p] == all[lo + p]);
        }
        assert forall|t: int| 0 <= t < all.len() implies exists|i: int, p: int|
            0 <= i < n && 0 <= p < pages[i]@.len() && #[trigger] pages[i]@[p]
                == #[trigger] all[t] by {
            let i = lemma_page_owner(pages, t, n);
            law_page_rows(requests, num_q_heads, num_kv_heads, head_dim, cta_tile_q, i);
            let lo = m.page_indptr[i] as int;
            let hi = m.page_indptr[i + 1] as int;
            lemma_pages_prefix(pages, i as nat, n);
            assert(lo == super::plan::pages_upto(pages, i as nat).len());
            assert(all.subrange(lo, hi)[t - lo] == all[t]);
        }
        if super::plan::page_metadata(all, lens) is Ok {
            assert forall|i: int, p: int| 0 <= i < n && 0 <= p < pages[i]@.len() implies 0
                <= #[trigger] pages[i]@[p] by {
                let t = choose|t: int| 0 <= t < all.len() && all[t] == pages[i]@[p];
                assert(all[t] >= 0);
            }
            assert forall|i: int| 0 <= i < n implies #[trigger] requests.last_page_lens@[i]
                >= 1 by {
                assert(lens[i] >= 1);
            }
        } else if n > 0 {
            if exists|t: int| 0 <= t < all.len() && all[t] < 0 {
                let t = choose|t: int| 0 <= t < all.len() && all[t] < 0;
                let (i, p) = choose|i: int, p: int|
                    0 <= i < n && 0 <= p < pages[i]@.len() && #[trigger] pages[i]@[p] == all[t];
                assert(pages[i]@[p] < 0);
            } else {
                let i = choose|i: int| 0 <= i < lens.len() && lens[i] < 1;
                assert(requests.last_page_lens@[i] < 1);
            }
        }
    }
}

/// A batch is refused over its first bad request, which the answer names or
/// whose number it shows.
pub proof fn law_batch_is_refused_over_its_first_bad_request(
    requests: BatchRequests,
    num_q_heads: usize,
    num_kv_heads: usize,
    head_dim: usize,
    cta_tile_q: i32,
    i: int,
)
    requires
        requests.wf(),
        requests.query_fault(num_q_heads, num_kv_heads, head_dim) is None,
        0 <= i < requests.page_indices@.len() <= usize::MAX,
        requests.first_request_fault(i as nat) is None,
    ensures
        ({
            let fault = requests.fault(num_q_heads, num_kv_heads, head_dim, cta_tile_q);
            let paged = requests.page_indices@[i]@.len() > 0;
            let counted = super::plan::pages_upto(requests.page_indices@, (i + 1) as nat).len()
                <= i32::MAX;
            let kv_len = requests.start_positions@[i] + requests.seq_lens@[i];
            &&& !paged ==> fault == Some(
                KernelError::Unmet { what: "prefill plan request has no pages", value: i as usize },
            )
            &&& paged && counted && requests.last_page_lens@[i] > i32::MAX ==> fault == Some(
                KernelError::TooWide {
                    what: "prefill plan last_page_len",
                    value: requests.last_page_lens@[i],
                },
            )
            &&& paged && counted && requests.last_page_lens@[i] <= i32::MAX && kv_len > i32::MAX
                ==> fault == Some(
                KernelError::TooWide { what: "prefill plan kv length", value: kv_len as usize },
            )
        }),
{
    if requests.request_fault(i) is Some {
        lemma_first_request_fault_stays(requests, (i + 1) as nat, requests.size());
    }
}

proof fn lemma_first_request_fault_stays(requests: BatchRequests, i: nat, n: nat)
    requires
        i <= n,
        requests.first_request_fault(i) is Some,
    ensures
        requests.first_request_fault(n) == requests.first_request_fault(i),
    decreases n - i,
{
    if i < n {
        lemma_first_request_fault_stays(requests, i, (n - 1) as nat);
    }
}

} // verus!
