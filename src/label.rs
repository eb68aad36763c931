//! Parts of a window and the labels of its offsets.
//!
//! A window of `2 * e + w` offsets, counted from 1 along the occurrence's
//! strand, is `e` upstream offsets, `w` target offsets and `e` downstream
//! offsets. A label names the part (`s`, `m`, `e`), the offset counted from 1
//! within the part, and the observation strand (`p`, `m`), as in `s3p`.

use vstd::prelude::*;

verus! {

/// Whether `p` is an offset of a window with target width `w` and extension `e`.
pub open spec fn valid_offset(p: int, w: int, e: int) -> bool {
    w >= 1 && e >= 0 && 1 <= p <= 2 * e + w
}

/// Code of the part of the window that holds offset `p`.
pub open spec fn part_code(p: int, w: int, e: int) -> char {
    if p <= e {
        's'
    } else if p <= e + w {
        'm'
    } else {
        'e'
    }
}

/// Offset `p` counted from 1 within its part.
pub open spec fn relative_position(p: int, w: int, e: int) -> int {
    if p <= e {
        p
    } else if p <= e + w {
        p - e
    } else {
        p - e - w
    }
}

/// The window offset of relative position `rel` in the part with code `part`.
pub open spec fn offset_of(part: char, rel: int, w: int, e: int) -> int {
    if part == 's' {
        rel
    } else if part == 'm' {
        rel + e
    } else {
        rel + e + w
    }
}

/// Label code of a strand character.
pub open spec fn strand_label(strand: char) -> char {
    if strand == '+' {
        'p'
    } else {
        'm'
    }
}

pub open spec fn digit_char(d: nat) -> char {
    if d == 0 {
        '0'
    } else if d == 1 {
        '1'
    } else if d == 2 {
        '2'
    } else if d == 3 {
        '3'
    } else if d == 4 {
        '4'
    } else if d == 5 {
        '5'
    } else if d == 6 {
        '6'
    } else if d == 7 {
        '7'
    } else if d == 8 {
        '8'
    } else {
        '9'
    }
}

/// Decimal digits of `n`, without leading zeros.
pub open spec fn decimal(n: nat) -> Seq<char>
    decreases n,
{
    if n < 10 {
        seq![digit_char(n)]
    } else {
        decimal(n / 10) + seq![digit_char(n % 10)]
    }
}

/// The label of offset `p` observed on `strand`.
pub open spec fn label_text(p: int, w: int, e: int, strand: char) -> Seq<char> {
    seq![part_code(p, w, e)] + decimal(relative_position(p, w, e) as nat) + seq![
        strand_label(strand),
    ]
}

/// Readable name of the part with code `part`.
pub open spec fn part_name(part: char) -> Seq<char> {
    if part == 's' {
        "Upstream"@
    } else if part == 'm' {
        "Target"@
    } else {
        "Downstream"@
    }
}

/// Readable name of the part of the window that holds offset `p`.
pub open spec fn region_name(p: int, w: int, e: int) -> Seq<char> {
    if p <= e {
        "Upstream"@
    } else if p <= e + w {
        "Target"@
    } else {
        "Downstream"@
    }
}

fn digit_str(d: u64) -> (r: &'static str)
    requires
        d < 10,
    ensures
        r@ == seq![digit_char(d as nat)],
{
    proof {
        reveal_strlit("0");
        reveal_strlit("1");
        reveal_strlit("2");
        reveal_strlit("3");
        reveal_strlit("4");
        reveal_strlit("5");
        reveal_strlit("6");
        reveal_strlit("7");
        reveal_strlit("8");
        reveal_strlit("9");
    }
    if d == 0 {
        "0"
    } else if d == 1 {
        "1"
    } else if d == 2 {
        "2"
    } else if d == 3 {
        "3"
    } else if d == 4 {
        "4"
    } else if d == 5 {
        "5"
    } else if d == 6 {
        "6"
    } else if d == 7 {
        "7"
    } else if d == 8 {
        "8"
    } else {
        "9"
    }
}

/// Appends the decimal digits of `n` to `out`.
pub fn push_decimal(out: &mut String, n: u64)
    ensures
        final(out)@ == old(out)@ + decimal(n as nat),
    decreases n,
{
    let ghost start = out@;
    if n >= 10 {
        push_decimal(out, n / 10);
    }
    out.append(digit_str(n % 10));
    assert(out@ =~= start + decimal(n as nat));
}

/// The label of an offset names its part and its position in that part, and
/// the offset is recovered from the two: upstream offsets keep their value,
/// target offsets lose the extension, downstream offsets lose the extension
/// and the width.
pub proof fn lemma_label_round_trip(p: int, w: int, e: int, strand: char)
    requires
        valid_offset(p, w, e),
    ensures
        1 <= p <= e ==> part_code(p, w, e) == 's' && relative_position(p, w, e) == p,
        e < p <= e + w ==> part_code(p, w, e) == 'm' && relative_position(p, w, e) == p - e,
        e + w < p <= 2 * e + w ==> part_code(p, w, e) == 'e' && relative_position(p, w, e) == p
            - e - w,
        relative_position(p, w, e) >= 1,
        offset_of(part_code(p, w, e), relative_position(p, w, e), w, e) == p,
        label_text(p, w, e, strand) == seq![part_code(p, w, e)] + decimal(
            relative_position(p, w, e) as nat,
        ) + seq![strand_label(strand)],
{
}

/// The region name of an offset is the readable name of its part code.
pub proof fn lemma_region_matches_part(p: int, w: int, e: int)
    requires
        valid_offset(p, w, e),
    ensures
        region_name(p, w, e) == part_name(part_code(p, w, e)),
{
}

} // verus!
