//! Kinetics tables: from a coordinate key to the record measured there.
//!
//! Two backends answer the same question. [`KineticsRows`] is a map built row
//! by row; [`KineticsHdf5`] holds, per chromosome, parallel columns indexed by
//! `(position - 1) * 2 + strand`. Both are total: a key they do not hold
//! resolves to the missing record.

use vstd::prelude::*;
use vstd::hash_map::{HashMapWithView, StringHashMap};
use crate::key::{IpdSummaryKey, KeyView, MINUS};
use crate::record::{IpdSummaryValue, missing_value, is_finite_bits, finite_bits};

verus! {

broadcast use vstd::std_specs::hash::group_hash_axioms;

/// What a table with contents `m` answers for `k`.
pub open spec fn resolve(m: Map<KeyView, IpdSummaryValue>, k: KeyView) -> IpdSummaryValue {
    if m.contains_key(k) {
        m[k]
    } else {
        missing_value()
    }
}

/// Why a table could not be built.
#[derive(Debug, Clone, Copy, PartialEq, Eq, Structural)]
pub enum TableError {
    /// A row's strand code is neither plus nor minus.
    UnexpectedStrand(u8),
    /// The columns of a chromosome differ in length.
    ColumnLengthMismatch,
    /// The covered entry at this index is not the position and strand that
    /// its index stands for.
    MisplacedRecord(usize),
}

/// Kinetics rows held in maps: per chromosome, one map per strand from
/// position to record.
pub struct KineticsRows {
    chrom_ids: StringHashMap<usize>,
    strands: Vec<HashMapWithView<i64, IpdSummaryValue>>,
}

impl KineticsRows {
    pub closed spec fn wf(&self) -> bool {
        &&& self.strands@.len() % 2 == 0
        &&& self.strands@.len() <= usize::MAX
        &&& forall|c: Seq<char>| #[trigger]
            self.chrom_ids@.contains_key(c) ==> 2 * self.chrom_ids@[c] + 1 < self.strands@.len()
        &&& forall|c1: Seq<char>, c2: Seq<char>|
            #![trigger self.chrom_ids@[c1], self.chrom_ids@[c2]]
            self.chrom_ids@.contains_key(c1) && self.chrom_ids@.contains_key(c2) && c1 != c2
                ==> self.chrom_ids@[c1] != self.chrom_ids@[c2]
    }

    closed spec fn slot(&self, k: KeyView) -> int {
        2 * self.chrom_ids@[k.0] + k.2
    }

    closed spec fn holds(&self, k: KeyView) -> bool {
        self.chrom_ids@.contains_key(k.0) && k.2 <= MINUS && self.strands@[self.slot(
            k,
        )]@.contains_key(k.1)
    }

    /// Every row held, by key.
    pub closed spec fn view(&self) -> Map<KeyView, IpdSummaryValue> {
        Map::new(|k: KeyView| self.holds(k), |k: KeyView| self.strands@[self.slot(k)]@[k.1])
    }

    pub fn new() -> (r: Self)
        ensures
            r.wf(),
            r.view() == Map::<KeyView, IpdSummaryValue>::empty(),
    {
        let r = KineticsRows { chrom_ids: StringHashMap::new(), strands: Vec::new() };
        assert(r.view() =~= Map::<KeyView, IpdSummaryValue>::empty());
        r
    }

    /// Adds a row; a later row for the same key replaces the earlier one.
    pub fn insert(&mut self, key: IpdSummaryKey, value: IpdSummaryValue) -> (r: Result<
        (),
        TableError,
    >)
        requires
            old(self).wf(),
        ensures
            final(self).wf(),
            match r {
                Ok(()) => key.strand <= MINUS && final(self).view() == old(self).view().insert(
                    key@,
                    value,
                ),
                Err(e) => key.strand > MINUS && e == TableError::UnexpectedStrand(key.strand)
                    && final(self).view() == old(self).view(),
            },
    {
        if key.strand > MINUS {
            return Err(TableError::UnexpectedStrand(key.strand));
        }
        let ghost before = *self;
        let id: usize = match self.chrom_ids.get(key.ref_name.as_str()) {
            Some(id) => *id,
            None => {
                let id = self.strands.len() / 2;
                self.strands.push(HashMapWithView::new());
                self.strands.push(HashMapWithView::new());
                assert(self.strands@.len() == self.strands.len());
                self.chrom_ids.insert(key.ref_name.clone(), id);
                id
            },
        };
        let ghost middle = *self;
        assert(middle.wf());
        assert(middle.view() =~= before.view()) by {
            assert forall|k: KeyView| #[trigger] middle.holds(k) == before.holds(k) by {
                if k.0 != key.ref_name@ && before.chrom_ids@.contains_key(k.0) {
                    assert(middle.chrom_ids@[k.0] == before.chrom_ids@[k.0]);
                }
            }
        }
        let slot = 2 * id + key.strand as usize;
        self.strands[slot].insert(key.tpl, value);
        assert(self.view() =~= before.view().insert(key@, value)) by {
            assert forall|k: KeyView| k != key@ implies #[trigger] self.holds(k) == middle.holds(k)
                && (self.holds(k) ==> self.strands@[self.slot(k)]@[k.1]
                == middle.strands@[middle.slot(k)]@[k.1]) by {
                if k.0 != key@.0 && middle.chrom_ids@.contains_key(k.0) {
                    assert(middle.chrom_ids@[k.0] != middle.chrom_ids@[key@.0]);
                }
            }
            assert(self.holds(key@));
        }
        Ok(())
    }

    /// The record held for `key`, or the missing record.
    pub fn lookup(&self, key: &IpdSummaryKey) -> (r: IpdSummaryValue)
        requires
            self.wf(),
        ensures
            r == resolve(self.view(), key@),
            !self.view().contains_key(key@) ==> r == missing_value(),
    {
        if key.strand > MINUS {
            return IpdSummaryValue::default();
        }
        match self.chrom_ids.get(key.ref_name.as_str()) {
            Some(id) => {
                let slot = 2 * *id + key.strand as usize;
                match self.strands[slot].get(&key.tpl) {
                    Some(v) => *v,
                    None => IpdSummaryValue::default(),
                }
            },
            None => IpdSummaryValue::default(),
        }
    }
}

/// Index of the entry for position `tpl` on `strand` in a chromosome's columns.
pub open spec fn entry_index(tpl: int, strand: int) -> int {
    (tpl - 1) * 2 + strand
}

/// The columns of one chromosome, as a columnar container stores them:
/// parallel arrays whose entry `(tpl - 1) * 2 + strand` describes position
/// `tpl` on `strand`. Float measurements are bit patterns; a fraction that is
/// not finite means that the model has none there.
#[derive(Debug)]
pub struct KineticsColumns {
    pub tpl: Vec<u32>,
    pub strand: Vec<u8>,
    pub base: Vec<Option<char>>,
    pub score: Vec<u32>,
    pub t_mean: Vec<u32>,
    pub t_err: Vec<u32>,
    pub model_prediction: Vec<u32>,
    pub ipd_ratio: Vec<u32>,
    pub coverage: Vec<u32>,
    pub frac: Vec<u32>,
    pub frac_low: Vec<u32>,
    pub frac_up: Vec<u32>,
}

impl KineticsColumns {
    pub open spec fn len(&self) -> int {
        self.tpl@.len() as int
    }

    pub open spec fn same_lengths(&self) -> bool {
        &&& self.strand@.len() == self.len()
        &&& self.base@.len() == self.len()
        &&& self.score@.len() == self.len()
        &&& self.t_mean@.len() == self.len()
        &&& self.t_err@.len() == self.len()
        &&& self.model_prediction@.len() == self.len()
        &&& self.ipd_ratio@.len() == self.len()
        &&& self.coverage@.len() == self.len()
        &&& self.frac@.len() == self.len()
        &&& self.frac_low@.len() == self.len()
        &&& self.frac_up@.len() == self.len()
    }

    /// Whether entry `i` holds data.
    pub open spec fn covered(&self, i: int) -> bool {
        0 <= i < self.len() && self.coverage@[i] > 0
    }

    /// Whether entry `i`, if it holds data, is the position and strand that
    /// its index stands for.
    pub open spec fn placed(&self, i: int) -> bool {
        self.covered(i) ==> self.tpl@[i] == i / 2 + 1 && self.strand@[i] == i % 2
    }

    /// The record of entry `i`.
    pub open spec fn record_at(&self, i: int) -> IpdSummaryValue {
        let has_frac = is_finite_bits(self.frac@[i]);
        IpdSummaryValue {
            base: self.base@[i],
            score: self.score@[i],
            t_mean: self.t_mean@[i],
            t_err: self.t_err@[i],
            model_prediction: self.model_prediction@[i],
            ipd_ratio: self.ipd_ratio@[i],
            coverage: self.coverage@[i],
            frac: if has_frac {
                Some(self.frac@[i])
            } else {
                None
            },
            frac_low: if has_frac {
                Some(self.frac_low@[i])
            } else {
                None
            },
            frac_up: if has_frac {
                Some(self.frac_up@[i])
            } else {
                None
            },
        }
    }

    /// The records held, by position and strand: the covered entries, each
    /// under the key that its index stands for.
    pub open spec fn view(&self) -> Map<(i64, u8), IpdSummaryValue> {
        Map::new(
            |ps: (i64, u8)| ps.1 <= MINUS && self.covered(entry_index(ps.0 as int, ps.1 as int)),
            |ps: (i64, u8)| self.record_at(entry_index(ps.0 as int, ps.1 as int)),
        )
    }
}

/// The kinetics of one chromosome in columns whose covered entries are
/// checked to stand where their position and strand say.
pub struct ChrKineticsHdf5 {
    cols: KineticsColumns,
}

impl ChrKineticsHdf5 {
    pub closed spec fn columns(&self) -> KineticsColumns {
        self.cols
    }

    pub open spec fn wf(&self) -> bool {
        &&& self.columns().same_lengths()
        &&& forall|i: int| #[trigger] self.columns().placed(i)
    }

    pub open spec fn view(&self) -> Map<(i64, u8), IpdSummaryValue> {
        self.columns().view()
    }

    /// Checks the columns and holds them. The columns must have one length,
    /// and each covered entry must be the position and strand of its index;
    /// the first entry that is not is reported.
    pub fn new(cols: KineticsColumns) -> (r: Result<Self, TableError>)
        ensures
            match r {
                Ok(c) => c.wf() && c.columns() == cols,
                Err(TableError::ColumnLengthMismatch) => !cols.same_lengths(),
                Err(TableError::MisplacedRecord(i)) => cols.same_lengths() && !cols.placed(i as int)
                    && forall|j: int| 0 <= j < i ==> #[trigger] cols.placed(j),
                Err(TableError::UnexpectedStrand(_)) => false,
            },
    {
        let n = cols.tpl.len();
        if cols.strand.len() != n || cols.base.len() != n || cols.score.len() != n
            || cols.t_mean.len() != n || cols.t_err.len() != n || cols.model_prediction.len() != n
            || cols.ipd_ratio.len() != n || cols.coverage.len() != n || cols.frac.len() != n
            || cols.frac_low.len() != n || cols.frac_up.len() != n {
            return Err(TableError::ColumnLengthMismatch);
        }
        let mut i: usize = 0;
        while i < n
            invariant
                n == cols.len(),
                cols.same_lengths(),
                i <= n,
                forall|j: int| 0 <= j < i ==> #[trigger] cols.placed(j),
            decreases n - i,
        {
            if cols.coverage[i] > 0 && (cols.tpl[i] as usize != i / 2 + 1 || cols.strand[i]
                as usize != i % 2) {
                return Err(TableError::MisplacedRecord(i));
            }
            i = i + 1;
        }
        let r = ChrKineticsHdf5 { cols };
        assert forall|j: int| #[trigger] r.columns().placed(j) by {
            if 0 <= j < n {
                assert(cols.placed(j));
            }
        }
        Ok(r)
    }

    /// The record at the key's position and strand, or the missing record;
    /// the key's chromosome is not looked at.
    pub fn get_ipd_summary_value(&self, key: &IpdSummaryKey) -> (r: IpdSummaryValue)
        requires
            self.wf(),
        ensures
            r == (if self.view().contains_key((key.tpl, key.strand)) {
                self.view()[(key.tpl, key.strand)]
            } else {
                missing_value()
            }),
    {
        if key.strand > MINUS || key.tpl < 1 {
            return IpdSummaryValue::default();
        }
        let wide: u64 = (key.tpl - 1) as u64 * 2 + key.strand as u64;
        if wide >= self.cols.coverage.len() as u64 {
            return IpdSummaryValue::default();
        }
        let i = wide as usize;
        if self.cols.coverage[i] == 0 {
            return IpdSummaryValue::default();
        }
        let c = &self.cols;
        let has_frac = finite_bits(c.frac[i]);
        IpdSummaryValue {
            base: c.base[i],
            score: c.score[i],
            t_mean: c.t_mean[i],
            t_err: c.t_err[i],
            model_prediction: c.model_prediction[i],
            ipd_ratio: c.ipd_ratio[i],
            coverage: c.coverage[i],
            frac: if has_frac {
                Some(c.frac[i])
            } else {
                None
            },
            frac_low: if has_frac {
                Some(c.frac_low[i])
            } else {
                None
            },
            frac_up: if has_frac {
                Some(c.frac_up[i])
            } else {
                None
            },
        }
    }
}

/// Columnar kinetics of every chromosome, by chromosome name.
pub struct KineticsHdf5 {
    chroms: StringHashMap<ChrKineticsHdf5>,
}

impl KineticsHdf5 {
    pub closed spec fn wf(&self) -> bool {
        forall|c: Seq<char>| #[trigger]
            self.chroms@.contains_key(c) ==> self.chroms@[c].wf()
    }

    /// The chromosomes held, each with its columns.
    pub closed spec fn chromosomes(&self) -> Map<Seq<char>, ChrKineticsHdf5> {
        self.chroms@
    }

    /// Every record held, by key.
    pub open spec fn view(&self) -> Map<KeyView, IpdSummaryValue> {
        Map::new(
            |k: KeyView|
                self.chromosomes().contains_key(k.0) && self.chromosomes()[k.0].view().contains_key(
                    (k.1, k.2),
                ),
            |k: KeyView| self.chromosomes()[k.0].view()[(k.1, k.2)],
        )
    }

    pub fn new() -> (r: Self)
        ensures
            r.wf(),
            r.chromosomes() == Map::<Seq<char>, ChrKineticsHdf5>::empty(),
    {
        KineticsHdf5 { chroms: StringHashMap::new() }
    }

    /// Holds `chr` as the columns of chromosome `name`, in place of any earlier.
    pub fn insert(&mut self, name: String, chr: ChrKineticsHdf5)
        requires
            old(self).wf(),
            chr.wf(),
        ensures
            final(self).wf(),
            final(self).chromosomes() == old(self).chromosomes().insert(name@, chr),
    {
        self.chroms.insert(name, chr);
    }

    /// The record held for `key`, or the missing record; a chromosome that is
    /// not held has the missing record everywhere.
    pub fn lookup(&self, key: &IpdSummaryKey) -> (r: IpdSummaryValue)
        requires
            self.wf(),
        ensures
            r == resolve(self.view(), key@),
            !self.view().contains_key(key@) ==> r == missing_value(),
    {
        match self.chroms.get(key.ref_name.as_str()) {
            Some(chr) => chr.get_ipd_summary_value(key),
            None => IpdSummaryValue::default(),
        }
    }
}

/// Whether chromosome `k.0` of `t` has a covered entry that stores position
/// `k.1` and strand `k.2` in its own columns.
pub open spec fn stores(t: &KineticsHdf5, k: KeyView) -> bool {
    t.chromosomes().contains_key(k.0) && exists|i: int| #[trigger]
        t.chromosomes()[k.0].columns().covered(i) && t.chromosomes()[k.0].columns().tpl@[i]
            == k.1 && t.chromosomes()[k.0].columns().strand@[i] == k.2
}

/// The record of the covered entry that stores `k` in `t`.
pub open spec fn stored_record(t: &KineticsHdf5, k: KeyView) -> IpdSummaryValue {
    t.chromosomes()[k.0].columns().record_at(entry_index(k.1 as int, k.2 as int))
}

/// Both backends answer alike on the same data. Where a row table holds
/// exactly the keys that the columns store, each with the record stored for
/// it, every key resolves to the same record in both.
pub proof fn lemma_backends_agree(rows: &KineticsRows, cols: &KineticsHdf5, k: KeyView)
    requires
        rows.wf(),
        cols.wf(),
        forall|q: KeyView| #[trigger] rows.view().contains_key(q) == stores(cols, q),
        forall|q: KeyView| #[trigger] stores(cols, q) ==> rows.view()[q] == stored_record(cols, q),
    ensures
        resolve(rows.view(), k) == resolve(cols.view(), k),
{
    if cols.chromosomes().contains_key(k.0) {
        let c = cols.chromosomes()[k.0].columns();
        let i = entry_index(k.1 as int, k.2 as int);
        assert(cols.chromosomes()[k.0].wf());
        if stores(cols, k) {
            let j = choose|j: int| #[trigger]
                c.covered(j) && c.tpl@[j] == k.1 && c.strand@[j] == k.2;
            assert(c.placed(j));
            assert(j == i);
            assert(cols.view().contains_key(k));
        }
        if cols.view().contains_key(k) {
            assert(c.placed(i));
            assert(c.covered(i));
            assert(stores(cols, k));
        }
    }
}

/// A kinetics table of either backend.
pub enum KineticsTable {
    Rows(KineticsRows),
    Hdf5(KineticsHdf5),
}

impl KineticsTable {
    pub open spec fn wf(&self) -> bool {
        match self {
            KineticsTable::Rows(t) => t.wf(),
            KineticsTable::Hdf5(t) => t.wf(),
        }
    }

    pub open spec fn view(&self) -> Map<KeyView, IpdSummaryValue> {
        match self {
            KineticsTable::Rows(t) => t.view(),
            KineticsTable::Hdf5(t) => t.view(),
        }
    }

    /// The record held for `key`, or the missing record.
    pub fn lookup(&self, key: &IpdSummaryKey) -> (r: IpdSummaryValue)
        requires
            self.wf(),
        ensures
            r == resolve(self.view(), key@),
            !self.view().contains_key(key@) ==> r == missing_value(),
    {
        match self {
            KineticsTable::Rows(t) => t.lookup(key),
            KineticsTable::Hdf5(t) => t.lookup(key),
        }
    }
}

} // verus!
