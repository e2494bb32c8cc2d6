//! What a launch is refused for, and the checks that refuse it.

use vstd::prelude::*;
use vstd::string::*;

use crate::text::push_decimal;
use crate::text::push_signed;

verus! {

/// Why a kernel call was refused.
#[derive(Clone, Copy, Debug, PartialEq, Eq)]
pub enum KernelError {
    /// A condition of the kernel does not hold.
    Invalid { what: &'static str },
    /// `got` was found where `want`, or at least `want`, is needed.
    Rejected { what: &'static str, got: usize, want: usize },
    /// `got` was found where at most `max` is allowed.
    Exceeds { what: &'static str, got: usize, max: usize },
    /// `got` was found where a number below `bound` is needed.
    NotBelow { what: &'static str, got: usize, bound: usize },
    /// One number does not meet the condition that `what` names.
    Unmet { what: &'static str, value: usize },
    /// One signed number does not meet the condition that `what` names.
    UnmetSigned { what: &'static str, number: i32 },
    /// Two numbers do not meet the condition on both that `what` names.
    Unfit { what: &'static str, left: usize, right: usize },
    /// Two numbers of a cache's layout do not meet the condition that `part`
    /// names, for the kernel that `what` names.
    Layout { what: &'static str, part: &'static str, left: usize, right: usize },
    /// A buffer's logical size runs past its allocation.
    Backing { what: &'static str, len: usize, need: usize },
    /// A product or sum of sizes does not fit `usize`.
    Overflow { what: &'static str },
    /// A value does not fit the C integer that the kernel takes.
    TooWide { what: &'static str, value: usize },
    /// The driver or a kernel reported a failure status.
    Status { what: &'static str, code: i32 },
    /// A size query failed, or answered a size that is no answer.
    SizeQuery { what: &'static str, code: i32, bytes: usize },
    /// The kernel is not in this build.
    NotInBuild { what: &'static str },
    /// The kernel refused its call, or its launch failed.
    CudaError { what: &'static str, code: i32 },
}

impl KernelError {
    /// The text of the error.
    pub open spec fn text(self) -> Seq<char> {
        match self {
            KernelError::Invalid { what } => what@,
            KernelError::Backing { what, len, need } => what@ + " backing len "@
                + crate::text::decimal(len as nat) + " < "@ + crate::text::decimal(need as nat),
            KernelError::Rejected { what, got, want } => what@ + ": got "@ + crate::text::decimal(
                got as nat,
            ) + ", need "@ + crate::text::decimal(want as nat),
            KernelError::Exceeds { what, got, max } => what@ + ": got "@ + crate::text::decimal(
                got as nat,
            ) + ", at most "@ + crate::text::decimal(max as nat),
            KernelError::NotBelow { what, got, bound } => what@ + ": got "@
                + crate::text::decimal(got as nat) + ", need less than "@ + crate::text::decimal(
                bound as nat,
            ),
            KernelError::Unmet { what, value } => what@ + ": "@ + crate::text::decimal(
                value as nat,
            ),
            KernelError::UnmetSigned { what, number } => what@ + ": "@
                + crate::text::signed_decimal(number as int),
            KernelError::Unfit { what, left, right } => what@ + ": "@ + crate::text::decimal(
                left as nat,
            ) + " and "@ + crate::text::decimal(right as nat),
            KernelError::Layout { what, part, left, right } => what@ + " "@ + part@ + ": "@
                + crate::text::decimal(left as nat) + " and "@ + crate::text::decimal(right as nat),
            KernelError::Overflow { what } => what@ + " overflows usize"@,
            KernelError::TooWide { what, value } => what@ + " "@ + crate::text::decimal(
                value as nat,
            ) + " does not fit the kernel's integer"@,
            KernelError::Status { what, code } => what@ + " failed with status "@
                + crate::text::signed_decimal(code as int),
            KernelError::SizeQuery { what, code, bytes } => what@ + " failed: status "@
                + crate::text::signed_decimal(code as int) + ", bytes="@ + crate::text::decimal(
                bytes as nat,
            ),
            KernelError::NotInBuild { what } => what@ + " is not in this build"@
                + ": it fell back to the stub tier, so no TileLang and no pre-generated directory were available when pegainfer-kernels was compiled"@,
            KernelError::CudaError { what, code } => what@ + " failed: cudaError="@
                + crate::text::signed_decimal(code as int)
                + " (1 = the call is outside the extents, batch, page size or shape the bodies were built for)"@,
        }
    }

    /// Render the error for a report.
    pub fn message(&self) -> (r: String)
        ensures
            r@ == self.text(),
    {
        let mut out = String::new();
        match self {
            KernelError::Invalid { what } => {
                out.append(what);
            },
            KernelError::Backing { what, len, need } => {
                out.append(what);
                out.append(" backing len ");
                push_decimal(&mut out, *len as u64);
                out.append(" < ");
                push_decimal(&mut out, *need as u64);
            },
            KernelError::Rejected { what, got, want } => {
                out.append(what);
                out.append(": got ");
                push_decimal(&mut out, *got as u64);
                out.append(", need ");
                push_decimal(&mut out, *want as u64);
            },
            KernelError::Exceeds { what, got, max } => {
                out.append(what);
                out.append(": got ");
                push_decimal(&mut out, *got as u64);
                out.append(", at most ");
                push_decimal(&mut out, *max as u64);
            },
            KernelError::NotBelow { what, got, bound } => {
                out.append(what);
                out.append(": got ");
                push_decimal(&mut out, *got as u64);
                out.append(", need less than ");
                push_decimal(&mut out, *bound as u64);
            },
            KernelError::Unmet { what, value } => {
                out.append(what);
                out.append(": ");
                push_decimal(&mut out, *value as u64);
            },
            KernelError::UnmetSigned { what, number } => {
                out.append(what);
                out.append(": ");
                push_signed(&mut out, *number as i64);
            },
            KernelError::Unfit { what, left, right } => {
                out.append(what);
                out.append(": ");
                push_decimal(&mut out, *left as u64);
                out.append(" and ");
                push_decimal(&mut out, *right as u64);
            },
            KernelError::Layout { what, part, left, right } => {
                out.append(what);
                out.append(" ");
                out.append(part);
                out.append(": ");
                push_decimal(&mut out, *left as u64);
                out.append(" and ");
                push_decimal(&mut out, *right as u64);
            },
            KernelError::Overflow { what } => {
                out.append(what);
                out.append(" overflows usize");
            },
            KernelError::TooWide { what, value } => {
                out.append(what);
                out.append(" ");
                push_decimal(&mut out, *value as u64);
                out.append(" does not fit the kernel's integer");
            },
            KernelError::Status { what, code } => {
                out.append(what);
                out.append(" failed with status ");
                push_signed(&mut out, *code as i64);
            },
            KernelError::SizeQuery { what, code, bytes } => {
                out.append(what);
                out.append(" failed: status ");
                push_signed(&mut out, *code as i64);
                out.append(", bytes=");
                push_decimal(&mut out, *bytes as u64);
            },
            KernelError::NotInBuild { what } => {
                out.append(what);
                out.append(" is not in this build");
                out.append(
                    ": it fell back to the stub tier, so no TileLang and no pre-generated directory were available when pegainfer-kernels was compiled",
                );
            },
            KernelError::CudaError { what, code } => {
                out.append(what);
                out.append(" failed: cudaError=");
                push_signed(&mut out, *code as i64);
                out.append(
                    " (1 = the call is outside the extents, batch, page size or shape the bodies were built for)",
                );
            },
        }
        assert(out@ =~= self.text());
        out
    }
}

impl KernelError {
    /// The result of a call: its fault, or its value where there is none.
    pub open spec fn outcome<T>(fault: Option<KernelError>, value: T) -> Result<T, KernelError> {
        match fault {
            Some(e) => Err(e),
            None => Ok(value),
        }
    }

    /// The fault of a condition that does not hold.
    pub open spec fn unless(ok: bool, what: &'static str) -> Option<KernelError> {
        if ok {
            None
        } else {
            Some(KernelError::Invalid { what })
        }
    }

    /// The fault of a number that should be `want`, or at least `want`.
    pub open spec fn unless_sized(ok: bool, what: &'static str, got: int, want: int) -> Option<
        KernelError,
    > {
        if ok {
            None
        } else {
            Some(KernelError::Rejected { what, got: got as usize, want: want as usize })
        }
    }

    /// The fault of a number over its limit.
    pub open spec fn unless_at_most(ok: bool, what: &'static str, got: int, max: int) -> Option<
        KernelError,
    > {
        if ok {
            None
        } else {
            Some(KernelError::Exceeds { what, got: got as usize, max: max as usize })
        }
    }

    /// The fault of a number that is not below its bound.
    pub open spec fn unless_below(ok: bool, what: &'static str, got: int, bound: int) -> Option<
        KernelError,
    > {
        if ok {
            None
        } else {
            Some(KernelError::NotBelow { what, got: got as usize, bound: bound as usize })
        }
    }

    /// The fault of one number that does not meet its condition.
    pub open spec fn unless_met(ok: bool, what: &'static str, value: int) -> Option<KernelError> {
        if ok {
            None
        } else {
            Some(KernelError::Unmet { what, value: value as usize })
        }
    }

    /// The fault of two numbers that do not meet a condition on both.
    pub open spec fn unless_fit(ok: bool, what: &'static str, left: int, right: int) -> Option<
        KernelError,
    > {
        if ok {
            None
        } else {
            Some(KernelError::Unfit { what, left: left as usize, right: right as usize })
        }
    }

    /// The fault of two numbers of a layout that do not meet a condition on both.
    pub open spec fn unless_layout(
        ok: bool,
        what: &'static str,
        part: &'static str,
        left: int,
        right: int,
    ) -> Option<KernelError> {
        if ok {
            None
        } else {
            Some(KernelError::Layout { what, part, left: left as usize, right: right as usize })
        }
    }

    /// The fault of a size that does not fit `usize`.
    pub open spec fn overflow(n: int, what: &'static str) -> Option<KernelError> {
        if fits_usize(n) {
            None
        } else {
            Some(KernelError::Overflow { what })
        }
    }

    /// The fault of a size that does not fit the kernel's `int`.
    pub open spec fn too_wide(n: int, what: &'static str) -> Option<KernelError> {
        if n <= i32::MAX {
            None
        } else {
            Some(KernelError::TooWide { what, value: n as usize })
        }
    }

    /// The fault of a size that does not fit the kernel's `long long`.
    pub open spec fn too_wide_64(n: int, what: &'static str) -> Option<KernelError> {
        if n <= i64::MAX {
            None
        } else {
            Some(KernelError::TooWide { what, value: n as usize })
        }
    }
}

/// An ordered list of conditions: the first one that fails is the fault.
pub trait FaultList: Sized {
    /// This fault, or `next` where there is none.
    spec fn or_fault(self, next: Self) -> Self;
}

impl FaultList for Option<KernelError> {
    open spec fn or_fault(self, next: Self) -> Self {
        match self {
            Some(e) => Some(e),
            None => next,
        }
    }
}

/// Whether `n` is a `usize` value.
pub open spec fn fits_usize(n: int) -> bool {
    0 <= n <= usize::MAX
}

/// Refuse the call unless `ok`.
pub fn ensure_that(ok: bool, what: &'static str) -> (r: Result<(), KernelError>)
    ensures
        r == KernelError::outcome(KernelError::unless(ok, what), ()),
{
    if ok {
        Ok(())
    } else {
        Err(KernelError::Invalid { what })
    }
}

/// Refuse the call, with the number found and the one that is needed, unless
/// `ok`.
pub fn ensure(ok: bool, what: &'static str, got: usize, want: usize) -> (r: Result<(), KernelError>)
    ensures
        r == KernelError::outcome(
            KernelError::unless_sized(ok, what, got as int, want as int),
            (),
        ),
{
    if ok {
        Ok(())
    } else {
        Err(KernelError::Rejected { what, got, want })
    }
}

/// Refuse the call, with the number found and its limit, unless `ok`.
pub fn ensure_at_most(ok: bool, what: &'static str, got: usize, max: usize) -> (r: Result<
    (),
    KernelError,
>)
    ensures
        r == KernelError::outcome(
            KernelError::unless_at_most(ok, what, got as int, max as int),
            (),
        ),
{
    if ok {
        Ok(())
    } else {
        Err(KernelError::Exceeds { what, got, max })
    }
}

/// Refuse the call, with the number found and its bound, unless `ok`.
pub fn ensure_below(ok: bool, what: &'static str, got: usize, bound: usize) -> (r: Result<
    (),
    KernelError,
>)
    ensures
        r == KernelError::outcome(
            KernelError::unless_below(ok, what, got as int, bound as int),
            (),
        ),
{
    if ok {
        Ok(())
    } else {
        Err(KernelError::NotBelow { what, got, bound })
    }
}

/// Refuse the call, with the number at fault, unless `ok`.
pub fn ensure_met(ok: bool, what: &'static str, value: usize) -> (r: Result<(), KernelError>)
    ensures
        r == KernelError::outcome(KernelError::unless_met(ok, what, value as int), ()),
{
    if ok {
        Ok(())
    } else {
        Err(KernelError::Unmet { what, value })
    }
}

/// Refuse the call, with the two numbers that do not go together, unless `ok`.
pub fn ensure_fit(ok: bool, what: &'static str, left: usize, right: usize) -> (r: Result<
    (),
    KernelError,
>)
    ensures
        r == KernelError::outcome(
            KernelError::unless_fit(ok, what, left as int, right as int),
            (),
        ),
{
    if ok {
        Ok(())
    } else {
        Err(KernelError::Unfit { what, left, right })
    }
}

/// Refuse the call, with the two numbers of the layout that do not go together,
/// unless `ok`.
pub fn ensure_layout(
    ok: bool,
    what: &'static str,
    part: &'static str,
    left: usize,
    right: usize,
) -> (r: Result<(), KernelError>)
    ensures
        r == KernelError::outcome(
            KernelError::unless_layout(ok, what, part, left as int, right as int),
            (),
        ),
{
    if ok {
        Ok(())
    } else {
        Err(KernelError::Layout { what, part, left, right })
    }
}

/// Narrow a size to the C `int` that a kernel takes.
pub fn checked_i32(value: usize, what: &'static str) -> (r: Result<i32, KernelError>)
    ensures
        r == KernelError::outcome(KernelError::too_wide(value as int, what), value as i32),
{
    if value <= 0x7fff_ffff {
        Ok(value as i32)
    } else {
        Err(KernelError::TooWide { what, value })
    }
}

/// Narrow a size to the C `unsigned` that a kernel takes.
pub fn checked_u32(value: usize, what: &'static str) -> (r: Result<u32, KernelError>)
    ensures
        r == (if value <= u32::MAX {
            Ok(value as u32)
        } else {
            Err(KernelError::TooWide { what, value })
        }),
{
    if value <= 0xffff_ffff {
        Ok(value as u32)
    } else {
        Err(KernelError::TooWide { what, value })
    }
}

/// Narrow a size to the C `long long` that a kernel takes.
pub fn checked_i64(value: usize, what: &'static str) -> (r: Result<i64, KernelError>)
    ensures
        r == KernelError::outcome(KernelError::too_wide_64(value as int, what), value as i64),
{
    if value as u64 <= 0x7fff_ffff_ffff_ffff {
        Ok(value as i64)
    } else {
        Err(KernelError::TooWide { what, value })
    }
}

/// The product of two sizes, refused where it does not fit `usize`.
pub fn checked_product(a: usize, b: usize, what: &'static str) -> (r: Result<usize, KernelError>)
    ensures
        r == KernelError::outcome(KernelError::overflow(a * b, what), (a * b) as usize),
{
    proof {
        assert(a * b >= 0) by (nonlinear_arith);
    }
    match a.checked_mul(b) {
        Some(n) => Ok(n),
        None => Err(KernelError::Overflow { what }),
    }
}

/// The sum of two sizes, refused where it does not fit `usize`.
pub fn checked_sum(a: usize, b: usize, what: &'static str) -> (r: Result<usize, KernelError>)
    ensures
        r == KernelError::outcome(KernelError::overflow(a + b, what), (a + b) as usize),
{
    match a.checked_add(b) {
        Some(n) => Ok(n),
        None => Err(KernelError::Overflow { what }),
    }
}

/// Whether `n` is the product of `a` and `b`; a product that does not fit
/// `usize` is no `n`.
pub fn is_product(n: usize, a: usize, b: usize) -> (r: bool)
    ensures
        r == (n == a * b),
{
    match a.checked_mul(b) {
        Some(p) => n == p,
        None => false,
    }
}

/// Whether `len` elements hold `a` times `b`; a product that does not fit
/// `usize` is held by nothing.
pub fn holds_product(len: usize, a: usize, b: usize) -> (r: bool)
    ensures
        r == (len >= a * b),
{
    match a.checked_mul(b) {
        Some(p) => len >= p,
        None => false,
    }
}

/// Whether `len` elements hold `a` times `b` times `c`.
pub fn holds_product3(len: usize, a: usize, b: usize, c: usize) -> (r: bool)
    ensures
        r == (len >= a * b * c),
{
    proof {
        assert(a * b >= 0) by (nonlinear_arith);
        assert(a * b > len && c >= 1 ==> a * b * c > len) by (nonlinear_arith);
        assert(c == 0 ==> a * b * c == 0) by (nonlinear_arith);
    }
    match a.checked_mul(b) {
        Some(p) => holds_product(len, p, c),
        None => c == 0,
    }
}

/// Whether `len` elements hold `a` times `b` times `c` times `d`.
pub fn holds_product4(len: usize, a: usize, b: usize, c: usize, d: usize) -> (r: bool)
    ensures
        r == (len >= a * b * c * d),
{
    proof {
        assert(a * b >= 0) by (nonlinear_arith);
        assert(a * b > len && c >= 1 && d >= 1 ==> a * b * c * d > len) by {
            assert(a * b > len && c >= 1 ==> a * b * c > len) by (nonlinear_arith);
            assert(a * b * c > len && d >= 1 ==> a * b * c * d > len) by (nonlinear_arith);
        }
        assert(c == 0 ==> a * b * c * d == 0) by (nonlinear_arith);
        assert(d == 0 ==> a * b * c * d == 0) by (nonlinear_arith);
    }
    match a.checked_mul(b) {
        Some(p) => holds_product3(len, p, c, d),
        None => c == 0 || d == 0,
    }
}

/// Accept a zero status and refuse any other.
pub fn check_status(code: i32, what: &'static str) -> (r: Result<(), KernelError>)
    ensures
        r == (if code == 0 {
            Ok(())
        } else {
            Err(KernelError::Status { what, code })
        }),
{
    if code == 0 {
        Ok(())
    } else {
        Err(KernelError::Status { what, code })
    }
}

/// A check passes exactly when its condition holds; a failed one carries its
/// name and the numbers that it compared, in the order in which it was given
/// them.
pub proof fn law_checks_name_what_they_compared(
    ok: bool,
    what: &'static str,
    part: &'static str,
    left: usize,
    right: usize,
)
    ensures
        ok ==> {
            &&& KernelError::unless(ok, what) is None
            &&& KernelError::unless_sized(ok, what, left as int, right as int) is None
            &&& KernelError::unless_at_most(ok, what, left as int, right as int) is None
            &&& KernelError::unless_below(ok, what, left as int, right as int) is None
            &&& KernelError::unless_met(ok, what, left as int) is None
            &&& KernelError::unless_fit(ok, what, left as int, right as int) is None
            &&& KernelError::unless_layout(ok, what, part, left as int, right as int) is None
        },
        !ok ==> {
            &&& KernelError::unless(ok, what) == Some(KernelError::Invalid { what })
            &&& KernelError::unless_sized(ok, what, left as int, right as int) == Some(
                KernelError::Rejected { what, got: left, want: right },
            )
            &&& KernelError::unless_at_most(ok, what, left as int, right as int) == Some(
                KernelError::Exceeds { what, got: left, max: right },
            )
            &&& KernelError::unless_below(ok, what, left as int, right as int) == Some(
                KernelError::NotBelow { what, got: left, bound: right },
            )
            &&& KernelError::unless_met(ok, what, left as int) == Some(
                KernelError::Unmet { what, value: left },
            )
            &&& KernelError::unless_fit(ok, what, left as int, right as int) == Some(
                KernelError::Unfit { what, left, right },
            )
            &&& KernelError::unless_layout(ok, what, part, left as int, right as int) == Some(
                KernelError::Layout { what, part, left, right },
            )
        },
{
}

/// A number is refused as too wide exactly when it does not fit, and the
/// refusal shows it.
pub proof fn law_widths_are_those_of_the_kernels(n: usize, product: int, what: &'static str)
    requires
        product >= 0,
    ensures
        KernelError::too_wide(n as int, what) is None <==> n <= 0x7fff_ffff,
        n > 0x7fff_ffff ==> KernelError::too_wide(n as int, what) == Some(
            KernelError::TooWide { what, value: n },
        ),
        KernelError::too_wide_64(n as int, what) is None <==> n <= 0x7fff_ffff_ffff_ffff,
        KernelError::overflow(product, what) is None <==> product <= usize::MAX,
        product > usize::MAX ==> KernelError::overflow(product, what) == Some(
            KernelError::Overflow { what },
        ),
{
}

/// Of two faults the first is reported, and a call has a value exactly when it
/// has no fault.
pub proof fn law_the_first_fault_is_reported<T>(
    first: Option<KernelError>,
    second: Option<KernelError>,
    value: T,
)
    ensures
        first is Some ==> first.or_fault(second) == first,
        first is None ==> first.or_fault(second) == second,
        first is None ==> KernelError::outcome(first, value) == Ok::<T, KernelError>(value),
        first matches Some(e) ==> KernelError::outcome(first, value) == Err::<T, KernelError>(e),
{
}

/// A message names its check first and then shows the numbers that the error
/// carries, each behind the word that says what it is.
pub proof fn law_messages_show_what_the_error_carries(
    what: &'static str,
    part: &'static str,
    a: usize,
    b: usize,
    code: i32,
)
    ensures
        (KernelError::Invalid { what }).text() == what@,
        (KernelError::Rejected { what, got: a, want: b }).text() == what@ + ": got "@
            + crate::text::decimal(a as nat) + ", need "@ + crate::text::decimal(b as nat),
        (KernelError::Exceeds { what, got: a, max: b }).text() == what@ + ": got "@
            + crate::text::decimal(a as nat) + ", at most "@ + crate::text::decimal(b as nat),
        (KernelError::NotBelow { what, got: a, bound: b }).text() == what@ + ": got "@
            + crate::text::decimal(a as nat) + ", need less than "@ + crate::text::decimal(
            b as nat,
        ),
        (KernelError::Backing { what, len: a, need: b }).text() == what@ + " backing len "@
            + crate::text::decimal(a as nat) + " < "@ + crate::text::decimal(b as nat),
        (KernelError::Unmet { what, value: a }).text() == what@ + ": "@ + crate::text::decimal(
            a as nat,
        ),
        (KernelError::UnmetSigned { what, number: code }).text() == what@ + ": "@
            + crate::text::signed_decimal(code as int),
        (KernelError::Unfit { what, left: a, right: b }).text() == what@ + ": "@
            + crate::text::decimal(a as nat) + " and "@ + crate::text::decimal(b as nat),
        (KernelError::Layout { what, part, left: a, right: b }).text() == what@ + " "@ + part@
            + ": "@ + crate::text::decimal(a as nat) + " and "@ + crate::text::decimal(b as nat),
        (KernelError::Overflow { what }).text() == what@ + " overflows usize"@,
        (what@ + " "@ + crate::text::decimal(a as nat)).is_prefix_of(
            (KernelError::TooWide { what, value: a }).text(),
        ),
        (KernelError::Status { what, code }).text() == what@ + " failed with status "@
            + crate::text::signed_decimal(code as int),
        (KernelError::SizeQuery { what, code, bytes: a }).text() == what@ + " failed: status "@
            + crate::text::signed_decimal(code as int) + ", bytes="@ + crate::text::decimal(
            a as nat,
        ),
        (what@ + " is not in this build"@).is_prefix_of((KernelError::NotInBuild { what }).text()),
        (what@ + " failed: cudaError="@ + crate::text::signed_decimal(code as int)).is_prefix_of(
            (KernelError::CudaError { what, code }).text(),
        ),
{
}

} // verus!
