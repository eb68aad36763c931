//! Coordinate keys: a chromosome, a 1-based position and a strand code.

use vstd::prelude::*;

verus! {

/// Strand code of the plus strand.
pub const PLUS: u8 = 0;

/// Strand code of the minus strand.
pub const MINUS: u8 = 1;

/// The mathematical value of a key: chromosome name, position, strand code.
pub type KeyView = (Seq<char>, i64, u8);

/// Why a key could not be extended.
#[derive(Debug, Clone, Copy, PartialEq, Eq, Structural)]
pub enum KeyError {
    /// The key's strand code is neither plus nor minus.
    UnexpectedStrand(u8),
    /// The window end `tpl - extension` or `tpl + extension` leaves the `i64` range.
    PositionOverflow { tpl: i64, extension: i64 },
}

/// Whether `x` is a value of `i64`.
pub open spec fn in_i64(x: int) -> bool {
    i64::MIN <= x <= i64::MAX
}

/// Number of positions in the closed range `[left, right]`.
pub open spec fn span_len(left: int, right: int) -> nat {
    if left <= right {
        (right - left + 1) as nat
    } else {
        0
    }
}

/// Both strands of each position of `[left, left + n)`, by increasing position,
/// plus before minus.
pub open spec fn span_up(chrom: Seq<char>, left: int, n: nat) -> Seq<KeyView> {
    Seq::new(2 * n, |j: int| (chrom, (left + j / 2) as i64, (j % 2) as u8))
}

/// Both strands of each position of `(right - n, right]`, by decreasing
/// position, minus before plus.
pub open spec fn span_down(chrom: Seq<char>, right: int, n: nat) -> Seq<KeyView> {
    Seq::new(2 * n, |j: int| (chrom, (right - j / 2) as i64, (1 - j % 2) as u8))
}

/// The values of a sequence of keys.
pub open spec fn keys_view(v: Seq<IpdSummaryKey>) -> Seq<KeyView> {
    v.map_values(|k: IpdSummaryKey| k@)
}

/// Extension that ignores the strand: `[tpl - up, tpl + down]` by increasing position.
pub open spec fn spec_extend_without_strand(k: KeyView, up: int, down: int) -> Seq<KeyView> {
    span_up(k.0, k.1 - up, span_len(k.1 - up, k.1 + down))
}

/// Whether the extension that ignores the strand stays in the `i64` range.
pub open spec fn extend_without_strand_ok(k: KeyView, up: int, down: int) -> bool {
    in_i64(k.1 - up) && in_i64(k.1 + down)
}

/// Length towards lower positions of the strand-respecting extension.
pub open spec fn left_len(k: KeyView, up: int, down: int) -> int {
    if k.2 == PLUS {
        up
    } else {
        down
    }
}

/// Length towards higher positions of the strand-respecting extension.
pub open spec fn right_len(k: KeyView, up: int, down: int) -> int {
    if k.2 == PLUS {
        down
    } else {
        up
    }
}

/// Strand-respecting extension: upstream `up` and downstream `down` along the
/// key's strand, listed from upstream to downstream.
pub open spec fn spec_extend(k: KeyView, up: int, down: int) -> Seq<KeyView> {
    let left = k.1 - left_len(k, up, down);
    let right = k.1 + right_len(k, up, down);
    if k.2 == PLUS {
        span_up(k.0, left, span_len(left, right))
    } else {
        span_down(k.0, right, span_len(left, right))
    }
}

/// The error that the strand-respecting extension reports, if any.
pub open spec fn extend_error(k: KeyView, up: int, down: int) -> Option<KeyError> {
    if k.2 > MINUS {
        Some(KeyError::UnexpectedStrand(k.2))
    } else if !in_i64(k.1 - left_len(k, up, down)) {
        Some(KeyError::PositionOverflow { tpl: k.1, extension: left_len(k, up, down) as i64 })
    } else if !in_i64(k.1 + right_len(k, up, down)) {
        Some(KeyError::PositionOverflow { tpl: k.1, extension: right_len(k, up, down) as i64 })
    } else {
        None
    }
}

/// Keys of the window around an occurrence whose leftmost target base is
/// `k`: `extension` bases on each side of a target of `width` bases, from
/// upstream to downstream along the occurrence's strand.
pub open spec fn spec_window(k: KeyView, width: int, extension: int) -> Seq<KeyView> {
    let keys = spec_extend_without_strand(k, extension, extension + width - 1);
    if k.2 == PLUS {
        keys
    } else {
        keys.reverse()
    }
}

/// The error that the window expansion reports, if any.
pub open spec fn window_error(k: KeyView, width: int, extension: int) -> Option<KeyError> {
    if k.2 > MINUS {
        Some(KeyError::UnexpectedStrand(k.2))
    } else if !in_i64(k.1 - extension) {
        Some(KeyError::PositionOverflow { tpl: k.1, extension: extension as i64 })
    } else if !in_i64(k.1 + extension + width - 1) {
        Some(KeyError::PositionOverflow { tpl: k.1, extension: (extension + width - 1) as i64 })
    } else {
        None
    }
}

/// Whether `2 * extension + width`, the length of a window, fits in an `i64`.
pub open spec fn region_fits(width: int, extension: int) -> bool {
    in_i64(extension * 2) && in_i64(extension * 2 + width)
}

/// Why an occurrence could not be turned into a key.
#[derive(Debug, Clone, Copy, PartialEq, Eq, Structural)]
pub enum OccurrenceError {
    /// The strand is neither `+` nor `-`.
    UnexpectedStrandChar(char),
    /// The 0-based start is `i64::MAX`, which has no 1-based position.
    StartOverflow(i64),
}

/// Strand code of a strand character, if it is one.
pub open spec fn strand_code(c: char) -> Option<u8> {
    if c == '+' {
        Some(PLUS)
    } else if c == '-' {
        Some(MINUS)
    } else {
        None
    }
}

/// The error that turning `occ` into a key reports, if any.
pub open spec fn occurrence_error(occ: MergedOcc) -> Option<OccurrenceError> {
    if strand_code(occ.strand).is_none() {
        Some(OccurrenceError::UnexpectedStrandChar(occ.strand))
    } else if occ.start == i64::MAX {
        Some(OccurrenceError::StartOverflow(occ.start))
    } else {
        None
    }
}

/// The key of the leftmost target base of `occ`.
pub open spec fn occurrence_key(occ: MergedOcc) -> KeyView {
    (occ.ref_name@, (occ.start + 1) as i64, if occ.strand == '-' {
        MINUS
    } else {
        PLUS
    })
}

/// A target occurrence: chromosome, 0-based leftmost start whatever the
/// strand, and strand character.
#[derive(Debug)]
pub struct MergedOcc {
    pub ref_name: String,
    pub start: i64,
    pub strand: char,
}

/// A position on one strand of one chromosome.
#[derive(Debug)]
pub struct IpdSummaryKey {
    /// Chromosome name.
    pub ref_name: String,
    /// 1-based position.
    pub tpl: i64,
    /// Strand: 0 = plus, 1 = minus.
    pub strand: u8,
}

impl View for IpdSummaryKey {
    type V = KeyView;

    open spec fn view(&self) -> KeyView {
        (self.ref_name@, self.tpl, self.strand)
    }
}

impl PartialEq for IpdSummaryKey {
    fn eq(&self, o: &IpdSummaryKey) -> (r: bool)
        ensures
            r == (self@ == o@),
    {
        self.tpl == o.tpl && self.strand == o.strand && self.ref_name == o.ref_name
    }
}

impl vstd::std_specs::cmp::PartialEqSpecImpl for IpdSummaryKey {
    open spec fn obeys_eq_spec() -> bool {
        true
    }

    open spec fn eq_spec(&self, o: &IpdSummaryKey) -> bool {
        self@ == o@
    }
}

impl IpdSummaryKey {
    pub fn new(ref_name: String, tpl: i64, strand: u8) -> (r: Self)
        ensures
            r@ == (ref_name@, tpl, strand),
    {
        IpdSummaryKey { ref_name, tpl, strand }
    }

    /// A key at `tpl` on `strand`, on the chromosome of `self`.
    pub fn at(&self, tpl: i64, strand: u8) -> (r: Self)
        ensures
            r@ == (self.ref_name@, tpl, strand),
    {
        IpdSummaryKey { ref_name: self.ref_name.clone(), tpl, strand }
    }

    /// The same key.
    pub fn duplicate(&self) -> (r: Self)
        ensures
            r@ == self@,
    {
        self.at(self.tpl, self.strand)
    }

    /// The key at the same position on the other strand.
    pub fn opposite(&self) -> (r: Self)
        requires
            self.strand <= 1,
        ensures
            r@ == (self.ref_name@, self.tpl, (1 - self.strand) as u8),
    {
        let strand: u8 = if self.strand == PLUS {
            MINUS
        } else {
            PLUS
        };
        self.at(self.tpl, strand)
    }

    /// The key of the leftmost target base of an occurrence: its 0-based start
    /// becomes a 1-based position and its strand character a strand code.
    pub fn from_occurrence(occ: MergedOcc) -> (r: Result<Self, OccurrenceError>)
        ensures
            match r {
                Ok(k) => occurrence_error(occ).is_none() && k@ == occurrence_key(occ),
                Err(e) => occurrence_error(occ) == Some(e),
            },
    {
        let strand: u8 = if occ.strand == '+' {
            PLUS
        } else if occ.strand == '-' {
            MINUS
        } else {
            return Err(OccurrenceError::UnexpectedStrandChar(occ.strand));
        };
        if occ.start == i64::MAX {
            return Err(OccurrenceError::StartOverflow(occ.start));
        }
        Ok(IpdSummaryKey { ref_name: occ.ref_name, tpl: occ.start + 1, strand })
    }

    /// Both strands of every position of `[left, right]`, by increasing position.
    fn span_up(&self, left: i64, right: i64) -> (r: Vec<IpdSummaryKey>)
        ensures
            keys_view(r@) == span_up(self.ref_name@, left as int, span_len(left as int, right as int)),
    {
        let ghost chrom = self.ref_name@;
        let mut keys: Vec<IpdSummaryKey> = Vec::new();
        if left <= right {
            let mut p: i64 = left;
            loop
                invariant_except_break
                    keys_view(keys@) == span_up(chrom, left as int, (p - left) as nat),
                invariant
                    left <= p <= right,
                    chrom == self.ref_name@,
                ensures
                    keys_view(keys@) == span_up(chrom, left as int, (right - left + 1) as nat),
                decreases right - p,
            {
                let ghost before = keys@;
                keys.push(self.at(p, PLUS));
                keys.push(self.at(p, MINUS));
                let ghost n = (p - left) as nat;
                assert(keys_view(keys@) =~= keys_view(before).push((chrom, p, PLUS)).push(
                    (chrom, p, MINUS),
                ));
                assert(span_up(chrom, left as int, n + 1) =~= span_up(chrom, left as int, n).push(
                    (chrom, p, PLUS),
                ).push((chrom, p, MINUS)));
                if p == right {
                    break;
                }
                p = p + 1;
            }
        } else {
            assert(keys_view(keys@) =~= span_up(chrom, left as int, 0));
        }
        keys
    }

    /// Both strands of every position of `[left, right]`, by decreasing position.
    fn span_down(&self, left: i64, right: i64) -> (r: Vec<IpdSummaryKey>)
        ensures
            keys_view(r@) == span_down(
                self.ref_name@,
                right as int,
                span_len(left as int, right as int),
            ),
    {
        let ghost chrom = self.ref_name@;
        let mut keys: Vec<IpdSummaryKey> = Vec::new();
        if left <= right {
            let mut p: i64 = right;
            loop
                invariant_except_break
                    keys_view(keys@) == span_down(chrom, right as int, (right - p) as nat),
                invariant
                    left <= p <= right,
                    chrom == self.ref_name@,
                ensures
                    keys_view(keys@) == span_down(chrom, right as int, (right - left + 1) as nat),
                decreases p - left,
            {
                let ghost before = keys@;
                keys.push(self.at(p, MINUS));
                keys.push(self.at(p, PLUS));
                let ghost n = (right - p) as nat;
                assert(keys_view(keys@) =~= keys_view(before).push((chrom, p, MINUS)).push(
                    (chrom, p, PLUS),
                ));
                assert(span_down(chrom, right as int, n + 1) =~= span_down(
                    chrom,
                    right as int,
                    n,
                ).push((chrom, p, MINUS)).push((chrom, p, PLUS)));
                if p == left {
                    break;
                }
                p = p - 1;
            }
        } else {
            assert(keys_view(keys@) =~= span_down(chrom, right as int, 0));
        }
        keys
    }

    /// Extends the key by `up` positions upstream and `down` downstream along
    /// its own strand. For a minus-strand key upstream lies at higher positions,
    /// so the keys come by decreasing position, minus strand first.
    pub fn extend(&self, up: i64, down: i64) -> (r: Result<Vec<IpdSummaryKey>, KeyError>)
        ensures
            match r {
                Ok(keys) => extend_error(self@, up as int, down as int).is_none() && keys_view(keys@)
                    == spec_extend(self@, up as int, down as int),
                Err(e) => extend_error(self@, up as int, down as int) == Some(e),
            },
    {
        let (left_ext, right_ext) = if self.strand == PLUS {
            (up, down)
        } else if self.strand == MINUS {
            (down, up)
        } else {
            return Err(KeyError::UnexpectedStrand(self.strand));
        };
        let left = match self.tpl.checked_sub(left_ext) {
            Some(p) => p,
            None => return Err(KeyError::PositionOverflow { tpl: self.tpl, extension: left_ext }),
        };
        let right = match self.tpl.checked_add(right_ext) {
            Some(p) => p,
            None => return Err(KeyError::PositionOverflow { tpl: self.tpl, extension: right_ext }),
        };
        if self.strand == PLUS {
            Ok(self.span_up(left, right))
        } else {
            Ok(self.span_down(left, right))
        }
    }

    /// Extends the key to `[tpl - up, tpl + down]` whatever its strand; the keys
    /// come by increasing position, plus strand first.
    pub fn extend_without_strand(&self, up: i64, down: i64) -> (r: Result<
        Vec<IpdSummaryKey>,
        KeyError,
    >)
        ensures
            match r {
                Ok(keys) => extend_without_strand_ok(self@, up as int, down as int) && keys_view(
                    keys@,
                ) == spec_extend_without_strand(self@, up as int, down as int),
                Err(e) => !extend_without_strand_ok(self@, up as int, down as int) && e
                    == (KeyError::PositionOverflow {
                        tpl: self.tpl,
                        extension: if in_i64(self.tpl - up) {
                            down
                        } else {
                            up
                        },
                    }),
            },
    {
        let left = match self.tpl.checked_sub(up) {
            Some(p) => p,
            None => return Err(KeyError::PositionOverflow { tpl: self.tpl, extension: up }),
        };
        let right = match self.tpl.checked_add(down) {
            Some(p) => p,
            None => return Err(KeyError::PositionOverflow { tpl: self.tpl, extension: down }),
        };
        Ok(self.span_up(left, right))
    }

    /// The keys of the window around the occurrence whose leftmost target base
    /// is `self`: the positions `[tpl - extension, tpl + extension + width - 1]`
    /// on both strands, plus strand first; for a minus-strand occurrence the
    /// whole sequence is reversed, so that it runs from upstream to downstream.
    pub fn window_keys(&self, width: i64, extension: i64) -> (r: Result<
        Vec<IpdSummaryKey>,
        KeyError,
    >)
        requires
            width >= 1,
            extension >= 0,
            region_fits(width as int, extension as int),
        ensures
            match r {
                Ok(keys) => window_error(self@, width as int, extension as int).is_none()
                    && keys_view(keys@) == spec_window(self@, width as int, extension as int)
                    && keys@.len() == (2 * extension + width) * 2,
                Err(e) => window_error(self@, width as int, extension as int) == Some(e),
            },
    {
        if self.strand > MINUS {
            return Err(KeyError::UnexpectedStrand(self.strand));
        }
        let down = extension + width - 1;
        let keys = self.extend_without_strand(extension, down)?;
        if self.strand == PLUS {
            Ok(keys)
        } else {
            let r = reversed(keys);
            assert(keys_view(r@) =~= spec_window(self@, width as int, extension as int));
            Ok(r)
        }
    }
}

/// The keys of `keys` in the opposite order.
fn reversed(keys: Vec<IpdSummaryKey>) -> (r: Vec<IpdSummaryKey>)
    ensures
        r@ == keys@.reverse(),
        keys_view(r@) == keys_view(keys@).reverse(),
{
    let ghost orig = keys@;
    let mut rest = keys;
    let mut out: Vec<IpdSummaryKey> = Vec::new();
    while rest.len() > 0
        invariant
            rest@.len() + out@.len() == orig.len(),
            rest@ == orig.subrange(0, rest@.len() as int),
            out@ == orig.subrange(rest@.len() as int, orig.len() as int).reverse(),
        decreases rest@.len(),
    {
        match rest.pop() {
            Some(k) => {
                out.push(k);
            },
            None => {},
        }
        assert(out@ =~= orig.subrange(rest@.len() as int, orig.len() as int).reverse());
        assert(rest@ =~= orig.subrange(0, rest@.len() as int));
    }
    assert(out@ =~= orig.reverse());
    assert(keys_view(out@) =~= keys_view(orig).reverse());
    out
}

/// Extending along the strand agrees with extending whatever the strand: on
/// the plus strand both give the same keys, on the minus strand the one is
/// the other reversed. On the minus strand this needs `up == down`, since the
/// strand-respecting extension swaps the two lengths there.
pub proof fn lemma_extend_matches_reversal(k: KeyView, up: int, down: int)
    requires
        k.2 == PLUS || (k.2 == MINUS && up == down),
    ensures
        extend_error(k, up, down).is_none() == extend_without_strand_ok(k, up, down),
        k.2 == PLUS ==> spec_extend(k, up, down) == spec_extend_without_strand(k, up, down),
        k.2 == MINUS ==> spec_extend(k, up, down) == spec_extend_without_strand(
            k,
            up,
            down,
        ).reverse(),
{
    if k.2 == MINUS {
        let a = spec_extend(k, up, down);
        let b = spec_extend_without_strand(k, up, down).reverse();
        assert(a.len() == b.len());
        assert forall|j: int| 0 <= j < a.len() implies a[j] == b[j] by {
            let n = span_len(k.1 - up, k.1 + down);
            let i = 2 * n - 1 - j;
            assert(i / 2 == n - 1 - j / 2);
            assert(i % 2 == 1 - j % 2);
        }
        assert(a =~= b);
    }
}

} // verus!
