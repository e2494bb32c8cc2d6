//! The paged prefill plan: device buffer capacities and the scalars that a
//! launch reads.

use vstd::prelude::*;

use super::plan::checked_head_relation;
use super::plan::checked_page_metadata;
use super::plan::BatchPlanHost;
use super::plan::BatchRequests;
use crate::error::checked_i32;
use crate::error::checked_u32;
use crate::error::ensure_at_most;
use crate::error::ensure_that;
use crate::error::KernelError;

verus! {

/// Element counts of the plan's device buffers.
#[derive(Clone, Copy, Debug, PartialEq, Eq)]
pub struct PlanCapacity {
    pub page_indices: usize,
    pub page_indptr: usize,
    pub last_page_len: usize,
    pub batch_indices: usize,
    pub positions: usize,
    pub q_indptr: usize,
    pub request_indices: usize,
    pub qo_tile_indices: usize,
    pub kv_tile_indices: usize,
    pub kv_chunk_size: usize,
    pub total_num_rows: usize,
}

/// Metadata for paged prefill attention, built once per step and shared by
/// all layers.
#[derive(Clone, Copy, Debug, PartialEq, Eq)]
pub struct PrefillPagedPlan {
    pub capacity: PlanCapacity,
    pub num_tiles: i32,
    pub batch_size: i32,
    pub total_tokens: usize,
    pub cta_tile_q: i32,
    pub head_dim: usize,
    pub num_qo_heads: usize,
    pub num_kv_heads: usize,
    pub max_page_index: i32,
    pub max_last_page_len: i32,
}

/// The buffers that a plan of these arrays needs.
pub open spec fn exact_capacity(m: super::plan::PlanModel) -> PlanCapacity {
    PlanCapacity {
        page_indices: m.all_page_indices.len() as usize,
        page_indptr: m.page_indptr.len() as usize,
        last_page_len: m.last_page_lens.len() as usize,
        batch_indices: m.batch_indices.len() as usize,
        positions: m.positions.len() as usize,
        q_indptr: m.q_indptr.len() as usize,
        request_indices: m.request_indices.len() as usize,
        qo_tile_indices: m.qo_tile_indices.len() as usize,
        kv_tile_indices: m.kv_tile_indices.len() as usize,
        kv_chunk_size: m.kv_chunk_sizes.len() as usize,
        total_num_rows: 1,
    }
}

/// The first array of the plan that the buffers cannot hold.
pub open spec fn capacity_fault(c: PlanCapacity, m: super::plan::PlanModel) -> Option<KernelError> {
    if m.all_page_indices.len() > c.page_indices {
        Some(over("verify plan page_indices exceeds preallocated capacity", m.all_page_indices.len(), c.page_indices))
    } else if m.page_indptr.len() > c.page_indptr {
        Some(over("verify plan page_indptr exceeds preallocated capacity", m.page_indptr.len(), c.page_indptr))
    } else if m.last_page_lens.len() > c.last_page_len {
        Some(over("verify plan last_page_lens exceeds preallocated capacity", m.last_page_lens.len(), c.last_page_len))
    } else if m.batch_indices.len() > c.batch_indices {
        Some(over("verify plan batch_indices exceeds preallocated capacity", m.batch_indices.len(), c.batch_indices))
    } else if m.positions.len() > c.positions {
        Some(over("verify plan positions exceeds preallocated capacity", m.positions.len(), c.positions))
    } else if m.q_indptr.len() > c.q_indptr {
        Some(over("verify plan q_indptr exceeds preallocated capacity", m.q_indptr.len(), c.q_indptr))
    } else if m.request_indices.len() > c.request_indices {
        Some(over("verify plan tiles exceeds preallocated capacity", m.request_indices.len(), c.request_indices))
    } else if m.kv_chunk_sizes.len() > c.kv_chunk_size {
        Some(over("verify plan kv_chunk_sizes exceeds preallocated capacity", m.kv_chunk_sizes.len(), c.kv_chunk_size))
    } else {
        None
    }
}

/// The error of an array longer than its preallocated buffer.
pub open spec fn over(what: &'static str, got: nat, max: usize) -> KernelError {
    KernelError::Exceeds { what, got: got as usize, max }
}

/// Why the arrays of a step make no plan, if they make none. The page
/// metadata is that of the arrays themselves.
pub open spec fn metadata_fault(m: super::plan::PlanModel) -> Option<KernelError> {
    match super::plan::page_metadata(m.all_page_indices, m.last_page_lens) {
        Err(e) => Some(e),
        Ok(_) => None,
    }
}

/// The scalars of a plan over these arrays, in these buffers.
pub open spec fn plan_over(
    capacity: PlanCapacity,
    m: super::plan::PlanModel,
    num_q_heads: usize,
    num_kv_heads: usize,
    head_dim: usize,
) -> PrefillPagedPlan {
    PrefillPagedPlan {
        capacity,
        num_tiles: m.num_tiles as i32,
        batch_size: m.batch_size as i32,
        total_tokens: m.total_tokens as usize,
        cta_tile_q: m.cta_tile_q as i32,
        head_dim,
        num_qo_heads: num_q_heads,
        num_kv_heads,
        max_page_index: super::plan::seq_max(m.all_page_indices),
        max_last_page_len: super::plan::seq_max(m.last_page_lens),
    }
}

/// What a plan of one request is built from.
#[derive(Clone, Copy)]
pub struct SingleRequest<'a> {
    pub page_indices: &'a [i32],
    pub last_page_len: usize,
    pub start_pos: usize,
    pub seq_len: usize,
}

impl<'a> SingleRequest<'a> {
    /// Why no plan can be built before the tile queries are asked.
    pub open spec fn query_fault(
        self,
        num_q_heads: usize,
        num_kv_heads: usize,
        head_dim: usize,
    ) -> Option<KernelError> {
        if !super::plan::head_relation(num_q_heads, num_kv_heads) {
            Some(super::plan::head_relation_error(num_q_heads, num_kv_heads))
        } else if self.last_page_len > i32::MAX {
            Some(
                KernelError::TooWide {
                    what: "prefill plan last_page_len",
                    value: self.last_page_len,
                },
            )
        } else {
            match super::plan::page_metadata(self.page_indices@, seq![self.last_page_len as i32]) {
                Err(e) => Some(e),
                Ok(_) => if self.page_indices@.len() > i32::MAX {
                    Some(
                        KernelError::TooWide {
                            what: "prefill plan page count",
                            value: self.page_indices@.len() as usize,
                        },
                    )
                } else if self.seq_len > i32::MAX {
                    Some(
                        KernelError::TooWide { what: "prefill plan seq_len", value: self.seq_len },
                    )
                } else if self.start_pos > i32::MAX {
                    Some(
                        KernelError::TooWide {
                            what: "prefill plan start_pos",
                            value: self.start_pos,
                        },
                    )
                } else if self.start_pos + self.seq_len > i32::MAX {
                    Some(
                        KernelError::TooWide {
                            what: "prefill plan kv length",
                            value: (self.start_pos + self.seq_len) as usize,
                        },
                    )
                } else if num_q_heads > i32::MAX {
                    Some(
                        KernelError::TooWide {
                            what: "prefill plan num_q_heads",
                            value: num_q_heads,
                        },
                    )
                } else if num_kv_heads > i32::MAX {
                    Some(
                        KernelError::TooWide {
                            what: "prefill plan num_kv_heads",
                            value: num_kv_heads,
                        },
                    )
                } else if head_dim > i32::MAX {
                    Some(KernelError::TooWide { what: "prefill plan head_dim", value: head_dim })
                } else {
                    None
                },
            }
        }
    }

    /// Why no plan can be built, given the answers of the tile queries.
    pub open spec fn fault(
        self,
        num_q_heads: usize,
        num_kv_heads: usize,
        head_dim: usize,
        num_tiles: i32,
        cta_tile_q: i32,
    ) -> Option<KernelError> {
        match self.query_fault(num_q_heads, num_kv_heads, head_dim) {
            Some(e) => Some(e),
            None => if num_tiles <= 0 || cta_tile_q <= 0 {
                Some(super::plan::cta_tile_error())
            } else {
                None
            },
        }
    }

    /// The arrays of the request's plan.
    pub open spec fn model(self, num_tiles: i32, cta_tile_q: i32) -> super::plan::PlanModel {
        super::plan::PlanModel {
            all_page_indices: self.page_indices@,
            page_indptr: seq![0i32, self.page_indices@.len() as i32],
            last_page_lens: seq![self.last_page_len as i32],
            batch_indices: Seq::new(self.seq_len as nat, |j: int| 0i32),
            positions: Seq::new(self.seq_len as nat, |j: int| (self.start_pos + j) as i32),
            q_indptr: seq![0i32, self.seq_len as i32],
            request_indices: Seq::new(num_tiles as nat, |j: int| 0i32),
            qo_tile_indices: Seq::new(num_tiles as nat, |j: int| j as i32),
            kv_tile_indices: Seq::new(num_tiles as nat, |j: int| 0i32),
            kv_chunk_sizes: seq![(self.start_pos + self.seq_len) as i32],
            num_tiles: num_tiles as int,
            batch_size: 1,
            total_tokens: self.seq_len as int,
            cta_tile_q: cta_tile_q as int,
        }
    }
}

fn repeated(value: i32, count: usize) -> (r: Vec<i32>)
    ensures
        r@ == Seq::new(count as nat, |j: int| value),
{
    let mut out: Vec<i32> = Vec::new();
    let mut j: usize = 0;
    while j < count
        invariant
            j <= count,
            out@ == Seq::new(j as nat, |k: int| value),
        decreases count - j,
    {
        out.push(value);
        j += 1;
        assert(out@ =~= Seq::new(j as nat, |k: int| value));
    }
    out
}

fn counted(start: usize, count: usize) -> (r: Vec<i32>)
    requires
        start + count <= i32::MAX,
    ensures
        r@ == Seq::new(count as nat, |j: int| (start + j) as i32),
{
    let mut out: Vec<i32> = Vec::new();
    let mut j: usize = 0;
    while j < count
        invariant
            j <= count,
            start + count <= i32::MAX,
            out@ == Seq::new(j as nat, |k: int| (start + k) as i32),
        decreases count - j,
    {
        out.push((start + j) as i32);
        j += 1;
        assert(out@ =~= Seq::new(j as nat, |k: int| (start + k) as i32));
    }
    out
}

impl PrefillPagedPlan {
    /// The tile lists share one capacity and the row count has its slot.
    pub open spec fn wf(self) -> bool {
        &&& self.capacity.qo_tile_indices == self.capacity.request_indices
        &&& self.capacity.kv_tile_indices == self.capacity.request_indices
        &&& self.capacity.total_num_rows == 1
    }

    /// Plan one request. `num_tiles` and `cta_tile_q` are what the kernel
    /// library's tile queries answer for the request.
    pub fn new_with_cta_tile_q(
        request: SingleRequest,
        num_q_heads: usize,
        num_kv_heads: usize,
        head_dim: usize,
        num_tiles: i32,
        cta_tile_q: i32,
    ) -> (r: Result<(Self, BatchPlanHost), KernelError>)
        requires
            super::plan::head_relation(num_q_heads, num_kv_heads) ==> request.start_pos
                + request.seq_len <= usize::MAX,
        ensures
            match r {
                Ok((plan, host)) => {
                    let m = request.model(num_tiles, cta_tile_q);
                    &&& request.fault(
                        num_q_heads,
                        num_kv_heads,
                        head_dim,
                        num_tiles,
                        cta_tile_q,
                    ) is None
                    &&& host@ == m
                    &&& plan == plan_over(
                        exact_capacity(m),
                        m,
                        num_q_heads,
                        num_kv_heads,
                        head_dim,
                    )
                    &&& plan.wf()
                    &&& plan.max_last_page_len == request.last_page_len
                    &&& host.last_page_lens_i32@.len() == 1
                    &&& host.last_page_lens_i32@[0] == request.last_page_len
                },
                Err(e) => request.fault(
                    num_q_heads,
                    num_kv_heads,
                    head_dim,
                    num_tiles,
                    cta_tile_q,
                ) == Some(e),
            },
    {
        checked_head_relation(num_q_heads, num_kv_heads)?;
        let kv_len: usize = request.start_pos + request.seq_len;
        let last_page_len: i32 = checked_i32(request.last_page_len, "prefill plan last_page_len")?;
        let mut last_page_lens_i32: Vec<i32> = Vec::new();
        last_page_lens_i32.push(last_page_len);
        assert(last_page_lens_i32@ =~= seq![request.last_page_len as i32]);
        let meta: (i32, i32) = checked_page_metadata(
            request.page_indices,
            last_page_lens_i32.as_slice(),
        )?;
        let num_pages: i32 = checked_i32(request.page_indices.len(), "prefill plan page count")?;
        let seq_len: i32 = checked_i32(request.seq_len, "prefill plan seq_len")?;
        let _start: i32 = checked_i32(request.start_pos, "prefill plan start_pos")?;
        let kv_len: i32 = checked_i32(kv_len, "prefill plan kv length")?;
        let _q: i32 = checked_i32(num_q_heads, "prefill plan num_q_heads")?;
        let _kv: i32 = checked_i32(num_kv_heads, "prefill plan num_kv_heads")?;
        let _dim: i32 = checked_i32(head_dim, "prefill plan head_dim")?;
        ensure_that(num_tiles > 0, "invalid prefill CTA tile override")?;
        ensure_that(cta_tile_q > 0, "invalid prefill CTA tile override")?;

        let mut all_page_indices: Vec<i32> = Vec::new();
        all_page_indices.extend_from_slice(request.page_indices);
        let mut page_indptr: Vec<i32> = Vec::new();
        page_indptr.push(0);
        page_indptr.push(num_pages);
        let mut q_indptr: Vec<i32> = Vec::new();
        q_indptr.push(0);
        q_indptr.push(seq_len);
        let mut kv_chunk_sizes: Vec<i32> = Vec::new();
        kv_chunk_sizes.push(kv_len);
        let host = BatchPlanHost {
            all_page_indices,
            page_indptr,
            last_page_lens_i32,
            batch_indices: repeated(0, request.seq_len),
            positions: counted(request.start_pos, request.seq_len),
            q_indptr,
            request_indices_v: repeated(0, num_tiles as usize),
            qo_tile_indices_v: counted(0, num_tiles as usize),
            kv_tile_indices_v: repeated(0, num_tiles as usize),
            kv_chunk_sizes,
            num_tiles,
            batch_size: 1,
            total_tokens: request.seq_len,
            cta_tile_q: cta_tile_q as usize,
        };
        proof {
            let m = request.model(num_tiles, cta_tile_q);
            assert(host.all_page_indices@ =~= m.all_page_indices);
            assert(host.qo_tile_indices_v@ =~= m.qo_tile_indices);
            assert(host@ =~= m);
        }
        let plan = Self::over_host(&host, num_q_heads, num_kv_heads, head_dim, meta, 1, cta_tile_q);
        Ok((plan, host))
    }

    fn over_host(
        host: &BatchPlanHost,
        num_q_heads: usize,
        num_kv_heads: usize,
        head_dim: usize,
        meta: (i32, i32),
        batch_size: i32,
        cta_tile_q: i32,
    ) -> (r: Self)
        requires
            batch_size == host@.batch_size,
            cta_tile_q == host@.cta_tile_q,
            host@.qo_tile_indices.len() == host@.request_indices.len(),
            host@.kv_tile_indices.len() == host@.request_indices.len(),
            meta == (
                super::plan::seq_max(host@.all_page_indices),
                super::plan::seq_max(host@.last_page_lens),
            ),
        ensures
            r == plan_over(exact_capacity(host@), host@, num_q_heads, num_kv_heads, head_dim),
            r.wf(),
    {
        PrefillPagedPlan {
            capacity: PlanCapacity {
                page_indices: host.all_page_indices.len(),
                page_indptr: host.page_indptr.len(),
                last_page_len: host.last_page_lens_i32.len(),
                batch_indices: host.batch_indices.len(),
                positions: host.positions.len(),
                q_indptr: host.q_indptr.len(),
                request_indices: host.request_indices_v.len(),
                qo_tile_indices: host.qo_tile_indices_v.len(),
                kv_tile_indices: host.kv_tile_indices_v.len(),
                kv_chunk_size: host.kv_chunk_sizes.len(),
                total_num_rows: 1,
            },
            num_tiles: host.num_tiles,
            batch_size,
            total_tokens: host.total_tokens,
            cta_tile_q,
            head_dim,
            num_qo_heads: num_q_heads,
            num_kv_heads,
            max_page_index: meta.0,
            max_last_page_len: meta.1,
        }
    }

    /// Why a batch makes no plan, if it makes none.
    pub open spec fn batch_fault(
        requests: BatchRequests,
        num_q_heads: usize,
        num_kv_heads: usize,
        head_dim: usize,
        cta_tile_q: i32,
    ) -> Option<KernelError> {
        match requests.fault(num_q_heads, num_kv_heads, head_dim, cta_tile_q) {
            Some(e) => Some(e),
            None => metadata_fault(requests.model(num_q_heads, num_kv_heads, cta_tile_q)),
        }
    }

    /// Plan a batch into fresh buffers. `cta_tile_q` is what the tile query
    /// answers for [`BatchPlanHost::tile_query`].
    pub fn new_batch_with_cta_tile_q(
        requests: BatchRequests,
        num_q_heads: usize,
        num_kv_heads: usize,
        head_dim: usize,
        cta_tile_q: i32,
    ) -> (r: Result<(Self, BatchPlanHost), KernelError>)
        requires
            super::plan::head_relation(num_q_heads, num_kv_heads) ==> requests.wf(),
        ensures
            match r {
                Ok((plan, host)) => {
                    let m = requests.model(num_q_heads, num_kv_heads, cta_tile_q);
                    &&& Self::batch_fault(
                        requests,
                        num_q_heads,
                        num_kv_heads,
                        head_dim,
                        cta_tile_q,
                    ) is None
                    &&& host@ == m
                    &&& plan == plan_over(
                        exact_capacity(m),
                        m,
                        num_q_heads,
                        num_kv_heads,
                        head_dim,
                    )
                    &&& plan.wf()
                    &&& host.last_page_lens_i32@.len() == requests.last_page_lens@.len()
                    &&& forall|i: int|
                        0 <= i < requests.last_page_lens@.len()
                            ==> #[trigger] host.last_page_lens_i32@[i]
                            == requests.last_page_lens@[i]
                },
                Err(e) => Self::batch_fault(
                    requests,
                    num_q_heads,
                    num_kv_heads,
                    head_dim,
                    cta_tile_q,
                ) == Some(e),
            },
    {
        let host: BatchPlanHost = BatchPlanHost::compute(
            requests,
            num_q_heads,
            num_kv_heads,
            head_dim,
            cta_tile_q,
        )?;
        proof {
            super::plan_laws::lemma_model_lengths(requests, num_q_heads, num_kv_heads, head_dim, cta_tile_q);
        }
        let meta: (i32, i32) = checked_page_metadata(
            host.all_page_indices.as_slice(),
            host.last_page_lens_i32.as_slice(),
        )?;
        let batch_size: i32 = checked_i32(host.batch_size, "prefill plan batch_size")?;
        let cta_tile_q: i32 = checked_i32(host.cta_tile_q, "prefill plan cta_tile_q")?;
        let _rows: u32 = checked_u32(host.total_tokens, "prefill plan total_tokens")?;
        let plan = Self::over_host(
            &host,
            num_q_heads,
            num_kv_heads,
            head_dim,
            meta,
            batch_size,
            cta_tile_q,
        );
        Ok((plan, host))
    }

    /// Size a plan's buffers once for the worst case, to be refilled in place
    /// by [`PrefillPagedPlan::update_batch_with_cta_tile_q`]. The geometry
    /// starts unset.
    pub fn new_preallocated(
        max_total_tokens: usize,
        max_total_pages: usize,
        max_batch: usize,
        max_tiles: usize,
    ) -> (r: Self)
        requires
            max_batch < usize::MAX,
        ensures
            r.wf(),
            r.capacity == (PlanCapacity {
                page_indices: max_total_pages,
                page_indptr: (max_batch + 1) as usize,
                last_page_len: max_batch,
                batch_indices: max_total_tokens,
                positions: max_total_tokens,
                q_indptr: (max_batch + 1) as usize,
                request_indices: max_tiles,
                qo_tile_indices: max_tiles,
                kv_tile_indices: max_tiles,
                kv_chunk_size: max_batch,
                total_num_rows: 1,
            }),
            r == (PrefillPagedPlan {
                capacity: r.capacity,
                num_tiles: 0,
                batch_size: 0,
                total_tokens: 0,
                cta_tile_q: 0,
                head_dim: 0,
                num_qo_heads: 0,
                num_kv_heads: 0,
                max_page_index: (-1) as i32,
                max_last_page_len: 0,
            }),
    {
        PrefillPagedPlan {
            capacity: PlanCapacity {
                page_indices: max_total_pages,
                page_indptr: max_batch + 1,
                last_page_len: max_batch,
                batch_indices: max_total_tokens,
                positions: max_total_tokens,
                q_indptr: max_batch + 1,
                request_indices: max_tiles,
                qo_tile_indices: max_tiles,
                kv_tile_indices: max_tiles,
                kv_chunk_size: max_batch,
                total_num_rows: 1,
            },
            num_tiles: 0,
            batch_size: 0,
            total_tokens: 0,
            cta_tile_q: 0,
            head_dim: 0,
            num_qo_heads: 0,
            num_kv_heads: 0,
            max_page_index: -1,
            max_last_page_len: 0,
        }
    }

    /// Why a batch cannot refill this plan, if it cannot.
    pub open spec fn update_fault(
        self,
        requests: BatchRequests,
        num_q_heads: usize,
        num_kv_heads: usize,
        head_dim: usize,
        cta_tile_q: i32,
    ) -> Option<KernelError> {
        match Self::batch_fault(requests, num_q_heads, num_kv_heads, head_dim, cta_tile_q) {
            Some(e) => Some(e),
            None => capacity_fault(
                self.capacity,
                requests.model(num_q_heads, num_kv_heads, cta_tile_q),
            ),
        }
    }

    /// Plan a batch into the buffers that the plan already has. The arrays to
    /// copy are returned; each fits its buffer. On an error nothing changes.
    pub fn update_batch_with_cta_tile_q(
        &mut self,
        requests: BatchRequests,
        num_q_heads: usize,
        num_kv_heads: usize,
        head_dim: usize,
        cta_tile_q: i32,
    ) -> (r: Result<BatchPlanHost, KernelError>)
        requires
            old(self).wf(),
            super::plan::head_relation(num_q_heads, num_kv_heads) ==> requests.wf(),
        ensures
            final(self).wf(),
            match r {
                Ok(host) => {
                    let m = requests.model(num_q_heads, num_kv_heads, cta_tile_q);
                    &&& old(self).update_fault(
                        requests,
                        num_q_heads,
                        num_kv_heads,
                        head_dim,
                        cta_tile_q,
                    ) is None
                    &&& host@ == m
                    &&& *final(self) == plan_over(
                        old(self).capacity,
                        m,
                        num_q_heads,
                        num_kv_heads,
                        head_dim,
                    )
                    &&& host.last_page_lens_i32@.len() == requests.last_page_lens@.len()
                    &&& forall|i: int|
                        0 <= i < requests.last_page_lens@.len()
                            ==> #[trigger] host.last_page_lens_i32@[i]
                            == requests.last_page_lens@[i]
                },
                Err(e) => {
                    &&& old(self).update_fault(
                        requests,
                        num_q_heads,
                        num_kv_heads,
                        head_dim,
                        cta_tile_q,
                    ) == Some(e)
                    &&& *final(self) == *old(self)
                },
            },
    {
        let host: BatchPlanHost = BatchPlanHost::compute(
            requests,
            num_q_heads,
            num_kv_heads,
            head_dim,
            cta_tile_q,
        )?;
        proof {
            super::plan_laws::lemma_model_lengths(requests, num_q_heads, num_kv_heads, head_dim, cta_tile_q);
        }
        let meta: (i32, i32) = checked_page_metadata(
            host.all_page_indices.as_slice(),
            host.last_page_lens_i32.as_slice(),
        )?;
        let batch_size: i32 = checked_i32(host.batch_size, "prefill plan batch_size")?;
        let cta_tile_q: i32 = checked_i32(host.cta_tile_q, "prefill plan cta_tile_q")?;
        let _rows: u32 = checked_u32(host.total_tokens, "prefill plan total_tokens")?;
        check_capacity(host.all_page_indices.len(), self.capacity.page_indices, "verify plan page_indices exceeds preallocated capacity")?;
        check_capacity(host.page_indptr.len(), self.capacity.page_indptr, "verify plan page_indptr exceeds preallocated capacity")?;
        check_capacity(
            host.last_page_lens_i32.len(),
            self.capacity.last_page_len,
            "verify plan last_page_lens exceeds preallocated capacity",
        )?;
        check_capacity(host.batch_indices.len(), self.capacity.batch_indices, "verify plan batch_indices exceeds preallocated capacity")?;
        check_capacity(host.positions.len(), self.capacity.positions, "verify plan positions exceeds preallocated capacity")?;
        check_capacity(host.q_indptr.len(), self.capacity.q_indptr, "verify plan q_indptr exceeds preallocated capacity")?;
        check_capacity(host.request_indices_v.len(), self.capacity.request_indices, "verify plan tiles exceeds preallocated capacity")?;
        check_capacity(host.kv_chunk_sizes.len(), self.capacity.kv_chunk_size, "verify plan kv_chunk_sizes exceeds preallocated capacity")?;
        self.num_tiles = host.num_tiles;
        self.batch_size = batch_size;
        self.total_tokens = host.total_tokens;
        self.cta_tile_q = cta_tile_q;
        self.head_dim = head_dim;
        self.num_qo_heads = num_q_heads;
        self.num_kv_heads = num_kv_heads;
        self.max_page_index = meta.0;
        self.max_last_page_len = meta.1;
        Ok(host)
    }

    pub fn batch_size(&self) -> (r: i32)
        ensures
            r == self.batch_size,
    {
        self.batch_size
    }

    pub fn num_tiles(&self) -> (r: i32)
        ensures
            r == self.num_tiles,
    {
        self.num_tiles
    }
}

fn check_capacity(got: usize, want: usize, what: &'static str) -> (r: Result<(), KernelError>)
    ensures
        r == (if got <= want {
            Ok(())
        } else {
            Err(over(what, got as nat, want))
        }),
{
    ensure_at_most(got <= want, what, got, want)
}

} // verus!
