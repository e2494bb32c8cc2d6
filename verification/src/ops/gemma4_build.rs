//! What a build states about its generated Gemma 4 bodies.
//!
//! The build hands each fact over as text. A fact that is absent or does not
//! parse is no fact: the build then carries the refusing stub.

use vstd::prelude::*;

use crate::text::fields_of;
use crate::text::parse_usize;
use crate::text::parse_trimmed;
use crate::text::str_chars;

verus! {

/// The first four comma-separated numbers of `stated`, where all four are
/// there. Fields after the fourth are not read.
pub open spec fn stated_geometry(stated: Seq<char>) -> Option<(usize, usize, usize, usize)> {
    let fields = crate::text::split_on(stated, ',');
    if fields.len() < 4 {
        None
    } else {
        match (
            crate::text::parsed(crate::text::trimmed(fields[0])),
            crate::text::parsed(crate::text::trimmed(fields[1])),
            crate::text::parsed(crate::text::trimmed(fields[2])),
            crate::text::parsed(crate::text::trimmed(fields[3])),
        ) {
            (Some(a), Some(b), Some(c), Some(d)) => Some((a, b, c, d)),
            _ => None,
        }
    }
}

/// `(num_qo_heads, num_kv_heads, head_dim, page_size)` that the generated
/// bodies were compiled for.
pub fn gemma4_hd512_prefill_geometry(stated: Option<&str>) -> (r: Option<
    (usize, usize, usize, usize),
>)
    ensures
        r == (match stated {
            Some(text) => stated_geometry(text@),
            None => None,
        }),
{
    match stated {
        Some(text) => {
            let chars: Vec<char> = str_chars(text);
            let fields: Vec<Vec<char>> = fields_of(&chars, ',');
            let ghost model = crate::text::split_on(text@, ',');
            if fields.len() < 4 {
                return None;
            }
            assert(fields@[0]@ == model[0]);
            assert(fields@[1]@ == model[1]);
            assert(fields@[2]@ == model[2]);
            assert(fields@[3]@ == model[3]);
            let a: usize = parse_trimmed(&fields[0])?;
            let b: usize = parse_trimmed(&fields[1])?;
            let c: usize = parse_trimmed(&fields[2])?;
            let d: usize = parse_trimmed(&fields[3])?;
            Some((a, b, c, d))
        },
        None => None,
    }
}

/// Bytes of dynamic shared memory that one block of the generated bodies opts
/// into. A device whose limit per block is under it cannot run them.
pub fn gemma4_hd512_prefill_smem(stated: Option<&str>) -> (r: Option<usize>)
    ensures
        r == (match stated {
            Some(text) => crate::text::parsed(text@),
            None => None,
        }),
{
    match stated {
        Some(text) => {
            let chars: Vec<char> = str_chars(text);
            assert(chars@.subrange(0, chars@.len() as int) =~= chars@);
            parse_usize(&chars, 0, chars.len())
        },
        None => None,
    }
}

/// The architecture that the generated bodies were assembled for; an empty
/// statement is none.
pub fn gemma4_hd512_prefill_arch(stated: Option<&str>) -> (r: Option<&str>)
    ensures
        r == (match stated {
            Some(text) => if text@.len() > 0 {
                Some(text)
            } else {
                None
            },
            None => None,
        }),
{
    match stated {
        Some(text) => {
            if text.unicode_len() > 0 {
                Some(text)
            } else {
                None
            }
        },
        None => None,
    }
}

/// Four numbers parted by commas are read back in their order, whatever white
/// space stands around each.
pub proof fn law_stated_geometry_reads_back(
    a: usize,
    b: usize,
    c: usize,
    d: usize,
    fields: Seq<Seq<char>>,
)
    requires
        fields.len() == 4,
        forall|i: int| 0 <= i < 4 ==> !(#[trigger] fields[i]).contains(','),
        crate::text::trimmed(fields[0]) == crate::text::decimal(a as nat),
        crate::text::trimmed(fields[1]) == crate::text::decimal(b as nat),
        crate::text::trimmed(fields[2]) == crate::text::decimal(c as nat),
        crate::text::trimmed(fields[3]) == crate::text::decimal(d as nat),
    ensures
        stated_geometry(
            ((fields[0].push(',') + fields[1]).push(',') + fields[2]).push(',') + fields[3],
        ) == Some((a, b, c, d)),
{
    let one = fields[0];
    let two = one.push(',') + fields[1];
    let three = two.push(',') + fields[2];
    crate::text::law_fields_are_what_separators_part(one, fields[0], ',');
    crate::text::law_fields_are_what_separators_part(one, fields[1], ',');
    crate::text::law_fields_are_what_separators_part(two, fields[2], ',');
    crate::text::law_fields_are_what_separators_part(three, fields[3], ',');
    let read = crate::text::split_on(three.push(',') + fields[3], ',');
    assert(read == seq![fields[0]].push(fields[1]).push(fields[2]).push(fields[3]));
    crate::text::law_parsing_undoes_rendering(a);
    crate::text::law_parsing_undoes_rendering(b);
    crate::text::law_parsing_undoes_rendering(c);
    crate::text::law_parsing_undoes_rendering(d);
}

} // verus!
