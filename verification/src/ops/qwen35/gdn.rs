//! Qwen 3.5 gated delta-net prefill through a linked candidate.

use vstd::prelude::*;

use crate::error::ensure;
use crate::error::ensure_met;
use crate::error::ensure_that;
use crate::error::FaultList;
use crate::error::is_product;
use crate::error::KernelError;
use crate::shape::HiddenStates;

verus! {

/// The version of the candidate's interface.
pub const QWEN35_GDN_ABI_VERSION: u32 = 2;

/// The status of success.
pub const STATUS_OK: i32 = 0;

/// The most tokens of a launch: the gates of all heads are counted in `int`.
pub const QWEN35_GDN_MAX_TOKENS: usize = 67_108_863;

/// Elements of the recurrent state of all value heads.
pub const QWEN35_GDN_STATE_ELEMENTS: usize = 524_288;

/// Head counts and width of the layer.
#[derive(Clone, Copy, Debug, PartialEq, Eq, Structural)]
pub struct Qwen35GdnGeometry {
    pub h_q: usize,
    pub h_k: usize,
    pub h_v: usize,
    pub head_dim: usize,
}

impl Qwen35GdnGeometry {
    /// The geometry that the candidate was built for.
    pub open spec fn spec_production() -> Self {
        Qwen35GdnGeometry { h_q: 16, h_k: 16, h_v: 32, head_dim: 128 }
    }

    /// The geometry that the candidate was built for.
    pub fn production() -> (r: Self)
        ensures
            r == Self::spec_production(),
    {
        Qwen35GdnGeometry { h_q: 16, h_k: 16, h_v: 32, head_dim: 128 }
    }
}

/// A loaded candidate, bound to one device.
#[derive(Clone, Copy, Debug, PartialEq, Eq)]
pub struct Qwen35GdnAot {
    pub device_ordinal: usize,
    pub workspace_bytes: usize,
}

/// The workspace of launches of one token count.
#[derive(Clone, Copy, Debug, PartialEq, Eq)]
pub struct Qwen35GdnWorkspace {
    pub workspace_len: usize,
    /// The token boundaries of the single sequence.
    pub cu_seqlens: (i64, i64),
    pub tokens: usize,
}

/// What a device and a build say before a candidate is loaded.
#[derive(Clone, Copy, Debug)]
pub struct Qwen35GdnPreload {
    /// Whether the stream belongs to the context.
    pub stream_in_context: bool,
    pub compute_major: i32,
    pub compute_minor: i32,
    pub geometry: Qwen35GdnGeometry,
    pub abi_version: u32,
    pub aot_available: i32,
}

impl Qwen35GdnPreload {
    /// Why no candidate can be loaded, if none can.
    pub open spec fn fault(self) -> Option<KernelError> {
        KernelError::unless(self.stream_in_context, "Qwen3.5 GDN stream/context mismatch")
            .or_fault(KernelError::unless(
                self.compute_major * 10 + self.compute_minor == 120,
                "Qwen3.5 FlashInfer candidate requires SM120",
            ))
            .or_fault(KernelError::unless(
                self.geometry == Qwen35GdnGeometry::spec_production(),
                "Qwen3.5 FlashInfer candidate requires Hq=16/Hk=16/Hv=32/D=128",
            ))
            .or_fault(KernelError::unless(
                self.abi_version == QWEN35_GDN_ABI_VERSION,
                "Qwen3.5 GDN stable C ABI version mismatch",
            ))
            .or_fault(KernelError::unless(
                self.aot_available == 1,
                "Qwen3.5 FlashInfer candidate was explicitly selected, but none was linked",
            ))
    }
}

impl Qwen35GdnAot {
    /// Whether the candidate's workspace is one that a launch can name.
    pub open spec fn wf(self) -> bool {
        0 < self.workspace_bytes <= i32::MAX
    }

    /// Refuse a device or a build that no candidate fits. What is accepted is
    /// then created on the device, and its answers go to [`Self::created`].
    pub fn load_for_production(p: &Qwen35GdnPreload) -> (r: Result<(), KernelError>)
        ensures
            r == KernelError::outcome(p.fault(), ()),
    {
        ensure_that(p.stream_in_context, "Qwen3.5 GDN stream/context mismatch")?;
        let sm: i64 = p.compute_major as i64 * 10 + p.compute_minor as i64;
        ensure_that(sm == 120, "Qwen3.5 FlashInfer candidate requires SM120")?;
        ensure_that(
            p.geometry == Qwen35GdnGeometry::production(),
            "Qwen3.5 FlashInfer candidate requires Hq=16/Hk=16/Hv=32/D=128",
        )?;
        ensure_that(
            p.abi_version == QWEN35_GDN_ABI_VERSION,
            "Qwen3.5 GDN stable C ABI version mismatch",
        )?;
        ensure_that(
            p.aot_available == 1,
            "Qwen3.5 FlashInfer candidate was explicitly selected, but none was linked",
        )
    }

    /// Accept a created handle: its status is success and it is there.
    pub fn created(status: i32, has_handle: bool) -> (r: Result<(), KernelError>)
        ensures
            r == (if status != STATUS_OK {
                Err(KernelError::Status { what: "Qwen3.5 GDN preload", code: status })
            } else if !has_handle {
                Err(KernelError::Invalid { what: "Qwen3.5 GDN preload returned a null handle" })
            } else {
                Ok(())
            }),
    {
        if status != STATUS_OK {
            Err(KernelError::Status { what: "Qwen3.5 GDN preload", code: status })
        } else if !has_handle {
            Err(KernelError::Invalid { what: "Qwen3.5 GDN preload returned a null handle" })
        } else {
            Ok(())
        }
    }

    /// Accept the workspace that a created handle asks for. A refused handle is
    /// destroyed.
    pub fn loaded(device_ordinal: usize, status: i32, workspace_bytes: usize) -> (r: Result<
        Self,
        KernelError,
    >)
        ensures
            r == (if status == STATUS_OK && 0 < workspace_bytes <= i32::MAX {
                Ok(Qwen35GdnAot { device_ordinal, workspace_bytes })
            } else {
                Err(
                    KernelError::SizeQuery {
                        what: "Qwen3.5 GDN workspace query",
                        code: status,
                        bytes: workspace_bytes,
                    },
                )
            }),
            r matches Ok(aot) ==> aot.wf(),
    {
        if status != STATUS_OK || workspace_bytes == 0 || workspace_bytes > 0x7fff_ffff {
            Err(
                KernelError::SizeQuery {
                    what: "Qwen3.5 GDN workspace query",
                    code: status,
                    bytes: workspace_bytes,
                },
            )
        } else {
            Ok(Qwen35GdnAot { device_ordinal, workspace_bytes })
        }
    }

    /// Bytes of the workspace.
    pub fn workspace_bytes(&self) -> (r: usize)
        ensures
            r == self.workspace_bytes,
    {
        self.workspace_bytes
    }

    /// Size the workspace of launches of `tokens` tokens. `same_device` says
    /// whether the stream's context is the one that the candidate was loaded
    /// on.
    pub fn allocate_workspace(&self, same_device: bool, tokens: usize) -> (r: Result<
        Qwen35GdnWorkspace,
        KernelError,
    >)
        ensures
            r == KernelError::outcome(
                KernelError::unless(same_device, "Qwen3.5 GDN workspace context mismatch")
                    .or_fault(KernelError::unless_met(
                        0 < tokens <= QWEN35_GDN_MAX_TOKENS,
                        "Qwen3.5 GDN T must fit the generated i32 gate extent",
                        tokens as int,
                    )),
                (Qwen35GdnWorkspace {
                    workspace_len: self.workspace_bytes,
                    cu_seqlens: (0, tokens as i64),
                    tokens,
                }),
            ),
    {
        ensure_that(same_device, "Qwen3.5 GDN workspace context mismatch")?;
        ensure_met(
            tokens > 0 && tokens <= QWEN35_GDN_MAX_TOKENS,
            "Qwen3.5 GDN T must fit the generated i32 gate extent",
            tokens,
        )?;
        Ok(
            Qwen35GdnWorkspace {
                workspace_len: self.workspace_bytes,
                cu_seqlens: (0, tokens as i64),
                tokens,
            },
        )
    }
}

/// What [`Qwen35GdnAot::launch_in_place`] takes.
#[derive(Clone, Copy, Debug)]
pub struct Qwen35GdnCall {
    /// The device of the stream.
    pub stream_ordinal: usize,
    /// Whether every buffer belongs to the stream's context.
    pub contexts_match: bool,
    pub q: HiddenStates,
    pub k: HiddenStates,
    pub v: HiddenStates,
    pub alpha_len: usize,
    pub beta_len: usize,
    pub state_len: usize,
    pub output: HiddenStates,
    pub workspace: Qwen35GdnWorkspace,
}

/// The scalars of a launch.
#[derive(Clone, Copy, Debug, PartialEq, Eq)]
pub struct Qwen35GdnLaunch {
    pub abi_version: u32,
    pub workspace_bytes: u64,
    pub tokens: u32,
}

impl Qwen35GdnCall {
    /// Why the launch is refused, if it is.
    pub open spec fn fault(self, aot: Qwen35GdnAot) -> Option<KernelError> {
        let t = self.q.seq_len;
        KernelError::unless_sized(
            self.state_len == QWEN35_GDN_STATE_ELEMENTS,
            "Qwen3.5 GDN state length mismatch",
            self.state_len as int,
            QWEN35_GDN_STATE_ELEMENTS as int,
        )
            .or_fault(KernelError::unless(
                self.stream_ordinal == aot.device_ordinal,
                "Qwen3.5 GDN device mismatch",
            ))
            .or_fault(KernelError::unless(
                self.contexts_match,
                "Qwen3.5 GDN buffer/stream context mismatch",
            ))
            .or_fault(KernelError::unless(
                0 < t <= QWEN35_GDN_MAX_TOKENS && self.k.seq_len == t && self.v.seq_len == t
                    && self.output.seq_len == t,
                "Qwen3.5 GDN token extents do not match",
            ))
            .or_fault(KernelError::unless(
                self.q.hidden_dim == 16 * 128 && self.k.hidden_dim == 16 * 128 && self.v.hidden_dim
                    == 32 * 128 && self.output.hidden_dim == 32 * 128,
                "Qwen3.5 GDN tensor geometry mismatch",
            ))
            .or_fault(KernelError::unless(
                self.alpha_len == t * 32 && self.beta_len == t * 32 && self.workspace.workspace_len
                    >= aot.workspace_bytes && self.workspace.tokens == t,
                "Qwen3.5 GDN buffer contract mismatch",
            ))
            .or_fault(self.q.extent_fault("Qwen3.5 GDN Q"))
            .or_fault(self.k.extent_fault("Qwen3.5 GDN K"))
            .or_fault(self.v.extent_fault("Qwen3.5 GDN V"))
            .or_fault(self.output.extent_fault("Qwen3.5 GDN output"))
    }

    /// The launch of a call without a fault.
    pub open spec fn launch(self) -> Qwen35GdnLaunch {
        Qwen35GdnLaunch {
            abi_version: QWEN35_GDN_ABI_VERSION,
            workspace_bytes: self.workspace.workspace_len as u64,
            tokens: self.q.seq_len as u32,
        }
    }
}

impl Qwen35GdnAot {
    /// One prefill that updates the recurrent state in place.
    pub fn launch_in_place(&self, c: &Qwen35GdnCall) -> (r: Result<Qwen35GdnLaunch, KernelError>)
        ensures
            r == KernelError::outcome(c.fault(*self), c.launch()),
    {
        let t: usize = c.q.seq_len;
        ensure(
            c.state_len == QWEN35_GDN_STATE_ELEMENTS,
            "Qwen3.5 GDN state length mismatch",
            c.state_len,
            QWEN35_GDN_STATE_ELEMENTS,
        )?;
        ensure_that(c.stream_ordinal == self.device_ordinal, "Qwen3.5 GDN device mismatch")?;
        ensure_that(c.contexts_match, "Qwen3.5 GDN buffer/stream context mismatch")?;
        ensure_that(
            t > 0 && t <= QWEN35_GDN_MAX_TOKENS && c.k.seq_len == t && c.v.seq_len == t
                && c.output.seq_len == t,
            "Qwen3.5 GDN token extents do not match",
        )?;
        ensure_that(
            c.q.hidden_dim == 16 * 128 && c.k.hidden_dim == 16 * 128 && c.v.hidden_dim == 32 * 128
                && c.output.hidden_dim == 32 * 128,
            "Qwen3.5 GDN tensor geometry mismatch",
        )?;
        ensure_that(
            is_product(c.alpha_len, t, 32) && is_product(c.beta_len, t, 32)
                && c.workspace.workspace_len >= self.workspace_bytes && c.workspace.tokens == t,
            "Qwen3.5 GDN buffer contract mismatch",
        )?;
        c.q.checked_extent("Qwen3.5 GDN Q")?;
        c.k.checked_extent("Qwen3.5 GDN K")?;
        c.v.checked_extent("Qwen3.5 GDN V")?;
        c.output.checked_extent("Qwen3.5 GDN output")?;
        Ok(
            Qwen35GdnLaunch {
                abi_version: QWEN35_GDN_ABI_VERSION,
                workspace_bytes: c.workspace.workspace_len as u64,
                tokens: t as u32,
            },
        )
    }
}

/// A workspace that a candidate sized is accepted by that candidate for
/// launches of its token count, and by no launch of another.
pub proof fn law_workspace_belongs_to_its_tokens(
    aot: Qwen35GdnAot,
    call: Qwen35GdnCall,
    tokens: usize,
)
    requires
        call.workspace == (Qwen35GdnWorkspace {
            workspace_len: aot.workspace_bytes,
            cu_seqlens: (0, tokens as i64),
            tokens,
        }),
        call.fault(aot) is None,
    ensures
        call.q.seq_len == tokens,
        call.launch().tokens == tokens,
        call.workspace.cu_seqlens == (0i64, call.q.seq_len as i64),
{
}

/// A preload of the compiled kernels is accepted exactly when its own
/// operands hold what it reads and writes.
pub proof fn law_qwen35_gdn_preload_is_accepted_when_it_fits(c: Qwen35GdnPreload)
    ensures
        c.fault() is None <==> {
            &&& c.stream_in_context
            &&& c.compute_major * 10 + c.compute_minor == 120
            &&& c.geometry == Qwen35GdnGeometry::spec_production()
            &&& c.abi_version == 2
            &&& c.aot_available == 1
        },
{
}

/// A gated delta step is accepted exactly when its own operands hold what it
/// reads and writes.
pub proof fn law_qwen35_gdn_is_accepted_when_it_fits(c: Qwen35GdnCall, aot: Qwen35GdnAot)
    ensures
        c.fault(aot) is None <==> {
            &&& c.state_len == 524_288
            &&& c.stream_ordinal == aot.device_ordinal
            &&& c.contexts_match
            &&& 0 < c.q.seq_len <= 67_108_863
            &&& c.k.seq_len == c.q.seq_len
            &&& c.v.seq_len == c.q.seq_len
            &&& c.output.seq_len == c.q.seq_len
            &&& c.q.hidden_dim == 16 * 128
            &&& c.k.hidden_dim == 16 * 128
            &&& c.v.hidden_dim == 32 * 128
            &&& c.output.hidden_dim == 32 * 128
            &&& c.alpha_len == c.q.seq_len * 32
            &&& c.beta_len == c.q.seq_len * 32
            &&& c.workspace.workspace_len >= aot.workspace_bytes
            &&& c.workspace.tokens == c.q.seq_len
            &&& c.q.hidden_dim * c.q.seq_len <= c.q.data_len
            &&& c.k.hidden_dim * c.k.seq_len <= c.k.data_len
            &&& c.v.hidden_dim * c.v.seq_len <= c.v.data_len
            &&& c.output.hidden_dim * c.output.seq_len <= c.output.data_len
        },
{
    assert(c.q.hidden_dim * c.q.seq_len >= 0) by (nonlinear_arith);
    assert(c.k.hidden_dim * c.k.seq_len >= 0) by (nonlinear_arith);
    assert(c.v.hidden_dim * c.v.seq_len >= 0) by (nonlinear_arith);
    assert(c.output.hidden_dim * c.output.seq_len >= 0) by (nonlinear_arith);
}

/// A gated delta step is launched with its own numbers, each where it
/// belongs.
pub proof fn law_qwen35_gdn_launches_its_own_numbers(c: Qwen35GdnCall, aot: Qwen35GdnAot)
    requires
        c.fault(aot) is None,
    ensures
        c.launch().abi_version == 2,
        c.launch().workspace_bytes == c.workspace.workspace_len,
        c.launch().tokens == c.q.seq_len,
{
}

/// The geometry that the kernels are compiled for: sixteen query and key
/// heads, thirty-two value heads, each one hundred and twenty-eight wide. Its
/// recurrent state has one square of that width per value head.
pub proof fn law_production_geometry_has_one_state_per_value_head()
    ensures
        ({
            let g = Qwen35GdnGeometry::spec_production();
            &&& g.h_q == 16
            &&& g.h_k == 16
            &&& g.h_v == 32
            &&& g.head_dim == 128
            &&& g.h_v * g.head_dim * g.head_dim == QWEN35_GDN_STATE_ELEMENTS
            &&& QWEN35_GDN_MAX_TOKENS * g.h_v <= i32::MAX
            &&& (QWEN35_GDN_MAX_TOKENS + 1) * g.h_v > i32::MAX
        }),
{
}

} // verus!
