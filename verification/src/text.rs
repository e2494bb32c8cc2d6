//! Decimal numbers as text: rendering, parsing and comma-separated lists.

use vstd::prelude::*;
use vstd::string::*;

verus! {

/// The character of a decimal digit.
pub open spec fn digit_char(d: nat) -> char {
    (48 + d) as char
}

/// `n` in decimal, most significant digit first, without leading zeros.
pub open spec fn decimal(n: nat) -> Seq<char>
    decreases n,
{
    if n < 10 {
        seq![digit_char(n)]
    } else {
        decimal(n / 10).push(digit_char(n % 10))
    }
}

/// `n` in decimal with a leading minus where it is negative.
pub open spec fn signed_decimal(n: int) -> Seq<char> {
    if n < 0 {
        seq!['-'] + decimal((-n) as nat)
    } else {
        decimal(n as nat)
    }
}

fn digit_str(d: u64) -> (s: &'static str)
    requires
        d < 10,
    ensures
        s@ == seq![digit_char(d as nat)],
{
    proof {
        reveal_strlit("0");
        reveal_strlit("1");
        reveal_strlit("2");
        reveal_strlit("3");
        reveal_strlit("4");
        reveal_strlit("5");
        reveal_strlit("6");
        reveal_strlit("7");
        reveal_strlit("8");
        reveal_strlit("9");
    }
    if d == 0 {
        "0"
    } else if d == 1 {
        "1"
    } else if d == 2 {
        "2"
    } else if d == 3 {
        "3"
    } else if d == 4 {
        "4"
    } else if d == 5 {
        "5"
    } else if d == 6 {
        "6"
    } else if d == 7 {
        "7"
    } else if d == 8 {
        "8"
    } else {
        "9"
    }
}

/// Append `n` in decimal to `out`.
pub fn push_decimal(out: &mut String, n: u64)
    ensures
        final(out)@ == old(out)@ + decimal(n as nat),
    decreases n,
{
    if n >= 10 {
        push_decimal(out, n / 10);
    }
    out.append(digit_str(n % 10));
    assert(out@ =~= old(out)@ + decimal(n as nat));
}

/// Append `n` in decimal, with its sign, to `out`.
pub fn push_signed(out: &mut String, n: i64)
    requires
        n > i64::MIN,
    ensures
        final(out)@ == old(out)@ + signed_decimal(n as int),
{
    if n < 0 {
        proof {
            reveal_strlit("-");
        }
        out.append("-");
        push_decimal(out, (-n) as u64);
        assert(out@ =~= old(out)@ + signed_decimal(n as int));
    } else {
        push_decimal(out, n as u64);
    }
}

/// Distinct numbers render differently: the decimal text determines `n`.
pub proof fn law_decimal_is_injective(a: nat, b: nat)
    requires
        decimal(a) == decimal(b),
    ensures
        a == b,
    decreases a,
{
    let x = decimal(a);
    let y = decimal(b);
    if a < 10 {
        if b < 10 {
            assert(x[0] == digit_char(a) && y[0] == digit_char(b));
        } else {
            lemma_decimal_nonempty(b / 10);
            assert(x.len() == 1 && y.len() >= 2);
        }
    } else {
        if b < 10 {
            lemma_decimal_nonempty(a / 10);
            assert(y.len() == 1 && x.len() >= 2);
        } else {
            assert(x.last() == digit_char(a % 10));
            assert(y.last() == digit_char(b % 10));
            assert(a % 10 == b % 10);
            assert(x.drop_last() =~= decimal(a / 10));
            assert(y.drop_last() =~= decimal(b / 10));
            law_decimal_is_injective(a / 10, b / 10);
        }
    }
}

proof fn lemma_decimal_nonempty(n: nat)
    ensures
        decimal(n).len() >= 1,
    decreases n,
{
    if n >= 10 {
        lemma_decimal_nonempty(n / 10);
    }
}

/// The value of the first `n` characters read as decimal digits.
pub open spec fn digits_value(s: Seq<char>, n: nat) -> int
    decreases n,
{
    if n == 0 {
        0
    } else {
        digits_value(s, (n - 1) as nat) * 10 + (s[n - 1] as int - '0' as int)
    }
}

/// Whether every character is a decimal digit.
pub open spec fn all_digits(s: Seq<char>) -> bool {
    forall|i: int| 0 <= i < s.len() ==> '0' <= (#[trigger] s[i]) <= '9'
}

/// The text without one leading plus sign.
pub open spec fn unsigned_part(s: Seq<char>) -> Seq<char> {
    if s.len() > 0 && s[0] == '+' {
        s.skip(1)
    } else {
        s
    }
}

/// The `usize` that a text states: digits, with at most one plus sign before
/// them, whose value fits.
pub open spec fn parsed(s: Seq<char>) -> Option<usize> {
    let d = unsigned_part(s);
    if d.len() > 0 && all_digits(d) && digits_value(d, d.len()) <= usize::MAX {
        Some(digits_value(d, d.len()) as usize)
    } else {
        None
    }
}

/// The Unicode white space.
pub open spec fn white_space(c: char) -> bool {
    ||| '\u{9}' <= c <= '\u{d}'
    ||| c == ' '
    ||| c == '\u{85}'
    ||| c == '\u{a0}'
    ||| c == '\u{1680}'
    ||| '\u{2000}' <= c <= '\u{200a}'
    ||| c == '\u{2028}'
    ||| c == '\u{2029}'
    ||| c == '\u{202f}'
    ||| c == '\u{205f}'
    ||| c == '\u{3000}'
}

/// The text without the white space before it.
pub open spec fn trimmed_start(s: Seq<char>) -> Seq<char>
    decreases s.len(),
{
    if s.len() > 0 && white_space(s[0]) {
        trimmed_start(s.skip(1))
    } else {
        s
    }
}

/// The text without the white space after it.
pub open spec fn trimmed_end(s: Seq<char>) -> Seq<char>
    decreases s.len(),
{
    if s.len() > 0 && white_space(s.last()) {
        trimmed_end(s.drop_last())
    } else {
        s
    }
}

/// The text without the white space around it.
pub open spec fn trimmed(s: Seq<char>) -> Seq<char> {
    trimmed_end(trimmed_start(s))
}

/// The fields between the separators: one more than there are separators.
pub open spec fn split_on(s: Seq<char>, separator: char) -> Seq<Seq<char>>
    decreases s.len(),
{
    if s.len() == 0 {
        seq![Seq::empty()]
    } else {
        let before = split_on(s.drop_last(), separator);
        if s.last() == separator {
            before.push(Seq::empty())
        } else {
            before.drop_last().push(before.last().push(s.last()))
        }
    }
}

proof fn lemma_split_nonempty(s: Seq<char>, separator: char)
    ensures
        split_on(s, separator).len() > 0,
    decreases s.len(),
{
    if s.len() > 0 {
        lemma_split_nonempty(s.drop_last(), separator);
    }
}

/// The characters of a string.
pub fn str_chars(s: &str) -> (r: Vec<char>)
    ensures
        r@ == s@,
{
    let mut out: Vec<char> = Vec::new();
    let n: usize = s.unicode_len();
    let mut i: usize = 0;
    while i < n
        invariant
            i <= n == s@.len(),
            out@ == s@.take(i as int),
        decreases n - i,
    {
        out.push(s.get_char(i));
        i += 1;
        assert(out@ =~= s@.take(i as int));
    }
    assert(s@.take(n as int) =~= s@);
    out
}

/// The fields between the separators.
pub fn fields_of(chars: &Vec<char>, separator: char) -> (r: Vec<Vec<char>>)
    ensures
        r@.len() == split_on(chars@, separator).len(),
        forall|k: int|
            0 <= k < r@.len() ==> (#[trigger] r@[k])@ == split_on(chars@, separator)[k],
{
    let mut out: Vec<Vec<char>> = Vec::new();
    let mut current: Vec<char> = Vec::new();
    let mut i: usize = 0;
    assert(chars@.take(0) =~= Seq::empty());
    while i < chars.len()
        invariant
            i <= chars@.len(),
            out@.len() + 1 == split_on(chars@.take(i as int), separator).len(),
            forall|k: int|
                0 <= k < out@.len() ==> (#[trigger] out@[k])@ == split_on(
                    chars@.take(i as int),
                    separator,
                )[k],
            current@ == split_on(chars@.take(i as int), separator).last(),
        decreases chars@.len() - i,
    {
        let c: char = chars[i];
        proof {
            assert(chars@.take(i + 1).drop_last() =~= chars@.take(i as int));
            assert(chars@.take(i + 1).last() == c);
        }
        if c == separator {
            out.push(current);
            current = Vec::new();
        } else {
            current.push(c);
        }
        i += 1;
    }
    assert(chars@.take(chars@.len() as int) =~= chars@);
    out.push(current);
    out
}

/// Whether a character is white space.
pub fn is_white_space(c: char) -> (r: bool)
    ensures
        r == white_space(c),
{
    ('\u{9}' <= c && c <= '\u{d}') || c == ' ' || c == '\u{85}' || c == '\u{a0}' || c == '\u{1680}'
        || ('\u{2000}' <= c && c <= '\u{200a}') || c == '\u{2028}' || c == '\u{2029}' || c
        == '\u{202f}' || c == '\u{205f}' || c == '\u{3000}'
}

/// Parse the characters from `lo` to `hi`.
pub fn parse_usize(chars: &Vec<char>, lo: usize, hi: usize) -> (r: Option<usize>)
    requires
        lo <= hi <= chars@.len(),
    ensures
        r == parsed(chars@.subrange(lo as int, hi as int)),
{
    let ghost s = chars@.subrange(lo as int, hi as int);
    let signed: bool = lo < hi && chars[lo] == '+';
    let start: usize = if signed {
        lo + 1
    } else {
        lo
    };
    let ghost d = chars@.subrange(start as int, hi as int);
    assert(d =~= unsigned_part(s));
    if start == hi {
        return None;
    }
    let mut value: usize = 0;
    let mut i: usize = start;
    while i < hi
        invariant
            start <= i <= hi <= chars@.len(),
            d == chars@.subrange(start as int, hi as int),
            d == unsigned_part(s),
            s == chars@.subrange(lo as int, hi as int),
            value == digits_value(d, (i - start) as nat),
            forall|k: int| 0 <= k < i - start ==> '0' <= (#[trigger] d[k]) <= '9',
        decreases hi - i,
    {
        let c: char = chars[i];
        assert(c == d[i - start]);
        if !('0' <= c && c <= '9') {
            return None;
        }
        let digit: usize = (c as u32 - 48) as usize;
        proof {
            assert(digits_value(d, (i + 1 - start) as nat) == value * 10 + digit);
            lemma_value_grows(d, (i + 1 - start) as nat, d.len());
        }
        let scaled: usize = match value.checked_mul(10) {
            Some(v) => v,
            None => {
                return None;
            },
        };
        value = match scaled.checked_add(digit) {
            Some(v) => v,
            None => {
                return None;
            },
        };
        i += 1;
    }
    Some(value)
}

/// More digits never make the value smaller, whatever the digits are.
proof fn lemma_value_grows(s: Seq<char>, i: nat, n: nat)
    requires
        i <= n <= s.len(),
        digits_value(s, i) >= 0,
    ensures
        all_digits(s) ==> digits_value(s, n) >= digits_value(s, i),
    decreases n - i,
{
    if i < n {
        lemma_value_grows(s, i, (n - 1) as nat);
    }
}

/// Parse the characters without the white space around them.
pub fn parse_trimmed(chars: &Vec<char>) -> (r: Option<usize>)
    ensures
        r == parsed(trimmed(chars@)),
{
    let mut lo: usize = 0;
    let n: usize = chars.len();
    assert(chars@.subrange(0, n as int) =~= chars@);
    while lo < n && is_white_space(chars[lo])
        invariant
            lo <= n == chars@.len(),
            trimmed_start(chars@) == trimmed_start(chars@.subrange(lo as int, n as int)),
        decreases n - lo,
    {
        assert(chars@.subrange(lo as int, n as int).skip(1) =~= chars@.subrange(lo + 1, n as int));
        lo += 1;
    }
    let ghost from = chars@.subrange(lo as int, n as int);
    assert(trimmed_start(chars@) == from);
    let mut hi: usize = n;
    while lo < hi && is_white_space(chars[hi - 1])
        invariant
            lo <= hi <= n == chars@.len(),
            trimmed_end(from) == trimmed_end(chars@.subrange(lo as int, hi as int)),
        decreases hi,
    {
        assert(chars@.subrange(lo as int, hi as int).drop_last() =~= chars@.subrange(
            lo as int,
            hi - 1,
        ));
        hi -= 1;
    }
    parse_usize(chars, lo, hi)
}

proof fn lemma_value_of_prefix(s: Seq<char>, c: char, n: nat)
    requires
        n <= s.len(),
    ensures
        digits_value(s.push(c), n) == digits_value(s, n),
    decreases n,
{
    if n > 0 {
        lemma_value_of_prefix(s, c, (n - 1) as nat);
    }
}

proof fn lemma_decimal_reads_back(n: nat)
    ensures
        decimal(n).len() > 0,
        all_digits(decimal(n)),
        digits_value(decimal(n), decimal(n).len()) == n,
    decreases n,
{
    if n < 10 {
        let s = decimal(n);
        assert(digits_value(s, 0) == 0);
        assert(digits_value(s, 1) == digits_value(s, 0) * 10 + (s[0] as int - 48));
    } else {
        lemma_decimal_reads_back(n / 10);
        let s = decimal(n / 10);
        let c = digit_char(n % 10);
        lemma_value_of_prefix(s, c, s.len());
        assert(decimal(n) == s.push(c));
        assert(s.push(c).last() == c);
        assert(digits_value(s.push(c), s.push(c).len()) == digits_value(s.push(c), s.len()) * 10 + (
        c as int - 48));
    }
}

/// Parsing undoes rendering.
pub proof fn law_parsing_undoes_rendering(n: usize)
    ensures
        parsed(decimal(n as nat)) == Some(n),
{
    lemma_decimal_reads_back(n as nat);
    assert('0' <= decimal(n as nat)[0] <= '9');
    assert(unsigned_part(decimal(n as nat)) == decimal(n as nat));
}

/// Text without the separator is one field, and a separator behind a text
/// begins another: the fields of the text stay and what follows is the last.
pub proof fn law_fields_are_what_separators_part(s: Seq<char>, field: Seq<char>, separator: char)
    requires
        !field.contains(separator),
    ensures
        split_on(field, separator) == seq![field],
        split_on(s.push(separator) + field, separator) == split_on(s, separator).push(field),
    decreases field.len(),
{
    if field.len() == 0 {
        assert(field =~= Seq::empty());
        assert(s.push(separator) + field =~= s.push(separator));
        assert(s.push(separator).drop_last() =~= s);
        assert(split_on(field, separator) =~= seq![field]);
        assert(split_on(s, separator).push(Seq::empty()) =~= split_on(s, separator).push(field));
    } else {
        let short = field.drop_last();
        let c = field.last();
        assert(field.contains(c));
        assert forall|x: char| short.contains(x) implies field.contains(x) by {
            let k = choose|k: int| 0 <= k < short.len() && short[k] == x;
            assert(field[k] == x);
        }
        law_fields_are_what_separators_part(s, short, separator);
        let whole = s.push(separator) + field;
        assert(whole.drop_last() =~= s.push(separator) + short);
        assert(whole.last() == c);
        assert(short.push(c) =~= field);
        let before = split_on(s, separator).push(short);
        assert(before.drop_last() =~= split_on(s, separator));
        assert(before.drop_last().push(before.last().push(c)) =~= split_on(s, separator).push(
            field,
        ));
        let alone = seq![short];
        assert(alone.drop_last().push(alone.last().push(c)) =~= seq![field]);
    }
}

/// Trimming takes the white space off both ends and nothing else: a text that
/// begins and ends with other characters comes back whole from whatever white
/// space stands around it.
pub proof fn law_trimming_takes_white_space_off(
    before: Seq<char>,
    s: Seq<char>,
    after: Seq<char>,
)
    requires
        s.len() > 0,
        !white_space(s[0]),
        !white_space(s.last()),
        forall|i: int| 0 <= i < before.len() ==> white_space(#[trigger] before[i]),
        forall|i: int| 0 <= i < after.len() ==> white_space(#[trigger] after[i]),
    ensures
        trimmed(before + s + after) == s,
    decreases before.len() + after.len(),
{
    let whole = before + s + after;
    if before.len() > 0 {
        assert(whole[0] == before[0]);
        assert(whole.skip(1) =~= before.skip(1) + s + after);
        law_trimming_takes_white_space_off(before.skip(1), s, after);
    } else {
        assert(whole =~= s + after);
        assert(whole[0] == s[0]);
        assert(trimmed_start(whole) == whole);
        lemma_trimmed_end(s, after);
    }
}

proof fn lemma_trimmed_end(s: Seq<char>, after: Seq<char>)
    requires
        s.len() > 0,
        !white_space(s.last()),
        forall|i: int| 0 <= i < after.len() ==> white_space(#[trigger] after[i]),
    ensures
        trimmed_end(s + after) == s,
    decreases after.len(),
{
    if after.len() > 0 {
        assert((s + after).last() == after.last());
        assert((s + after).drop_last() =~= s + after.drop_last());
        lemma_trimmed_end(s, after.drop_last());
    } else {
        assert(s + after =~= s);
    }
}

/// A negative number is written as its sign and its size, every other as its
/// size alone.
pub proof fn law_signs_are_written(n: nat)
    ensures
        signed_decimal(n as int) == decimal(n),
        n > 0 ==> signed_decimal(-n) == seq!['-'] + decimal(n),
{
}

/// A number is read from digits alone, behind at most one plus sign; anything
/// else is refused, and so is a text without a digit.
pub proof fn law_only_digits_are_numbers(s: Seq<char>, i: int, n: usize)
    ensures
        parsed(seq!['+'] + decimal(n as nat)) == Some(n),
        s.len() == 0 ==> parsed(s) is None,
        s == seq!['+'] ==> parsed(s) is None,
        0 <= i < s.len() && !('0' <= s[i] <= '9') && !(i == 0 && s[i] == '+') ==> parsed(s) is None,
{
    let signed = seq!['+'] + decimal(n as nat);
    lemma_decimal_reads_back(n as nat);
    assert(unsigned_part(signed) =~= decimal(n as nat));
    if s == seq!['+'] {
        assert(unsigned_part(s).len() == 0);
    }
    if 0 <= i < s.len() && !('0' <= s[i] <= '9') && !(i == 0 && s[i] == '+') {
        let d = unsigned_part(s);
        if s[0] == '+' {
            assert(d[i - 1] == s[i]);
        } else {
            assert(d[i] == s[i]);
        }
    }
}

} // verus!
