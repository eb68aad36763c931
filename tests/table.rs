use kinetics_window::key::IpdSummaryKey;
use kinetics_window::record::{finite_bits, IpdSummary, IpdSummaryValue};
use kinetics_window::table::{
    ChrKineticsHdf5, KineticsColumns, KineticsHdf5, KineticsRows, KineticsTable, TableError,
};

fn value(base: char, t_mean: f32, coverage: u32) -> IpdSummaryValue {
    IpdSummaryValue {
        base: Some(base),
        score: 30,
        t_mean: t_mean.to_bits(),
        t_err: 0.5f32.to_bits(),
        model_prediction: 0.9f32.to_bits(),
        ipd_ratio: 1.25f32.to_bits(),
        coverage,
        frac: None,
        frac_low: None,
        frac_up: None,
    }
}

fn key(c: &str, p: i64, s: u8) -> IpdSummaryKey {
    IpdSummaryKey::new(c.to_string(), p, s)
}

/// Columns of one chromosome with positions 1..=n covered on both strands,
/// entry i having mean i as float.
fn columns(n: u32) -> KineticsColumns {
    let len = (2 * n) as usize;
    let mut c = KineticsColumns {
        tpl: vec![],
        strand: vec![],
        base: vec![],
        score: vec![],
        t_mean: vec![],
        t_err: vec![],
        model_prediction: vec![],
        ipd_ratio: vec![],
        coverage: vec![],
        frac: vec![],
        frac_low: vec![],
        frac_up: vec![],
    };
    for i in 0..len {
        c.tpl.push((i / 2 + 1) as u32);
        c.strand.push((i % 2) as u8);
        c.base.push(Some('A'));
        c.score.push(30);
        c.t_mean.push((i as f32).to_bits());
        c.t_err.push(0.5f32.to_bits());
        c.model_prediction.push(0.9f32.to_bits());
        c.ipd_ratio.push(1.25f32.to_bits());
        c.coverage.push(12);
        c.frac.push(f32::NAN.to_bits());
        c.frac_low.push(f32::NAN.to_bits());
        c.frac_up.push(f32::NAN.to_bits());
    }
    c
}

#[test]
fn finite_bits_matches_float() {
    for x in [0.0f32, 1.0, -2.5, f32::MAX, f32::MIN_POSITIVE, 1e-45] {
        assert!(finite_bits(x.to_bits()));
    }
    for x in [f32::NAN, f32::INFINITY, f32::NEG_INFINITY] {
        assert!(!finite_bits(x.to_bits()));
    }
}

#[test]
fn default_value_is_all_missing() {
    let d = IpdSummaryValue::default();
    assert_eq!(d.base, None);
    assert_eq!(d.score, 0);
    assert_eq!(d.t_mean, 0.0f32.to_bits());
    assert_eq!(d.coverage, 0);
    assert_eq!(d.frac, None);
    assert_eq!(d.frac_low, None);
    assert_eq!(d.frac_up, None);
}

#[test]
fn row_splits_into_key_and_value() {
    let row = IpdSummary {
        ref_name: "chr3".to_string(),
        tpl: 42,
        strand: 1,
        base: Some('G'),
        score: 7,
        t_mean: 1.5f32.to_bits(),
        t_err: 0.5f32.to_bits(),
        model_prediction: 0.9f32.to_bits(),
        ipd_ratio: 1.25f32.to_bits(),
        coverage: 9,
        frac: Some(0.3f32.to_bits()),
        frac_low: Some(0.2f32.to_bits()),
        frac_up: Some(0.4f32.to_bits()),
    };
    let (k, v) = row.into_pair();
    assert_eq!(k, key("chr3", 42, 1));
    assert_eq!(v.base, Some('G'));
    assert_eq!(v.score, 7);
    assert_eq!(v.t_mean, 1.5f32.to_bits());
    assert_eq!(v.coverage, 9);
    assert_eq!(v.frac, Some(0.3f32.to_bits()));
    assert_eq!(v.frac_up, Some(0.4f32.to_bits()));
}

#[test]
fn rows_lookup_finds_inserted_and_defaults_otherwise() {
    let mut t = KineticsRows::new();
    t.insert(key("chr1", 100, 0), value('A', 2.0, 10)).unwrap();
    t.insert(key("chr1", 100, 1), value('T', 3.0, 11)).unwrap();
    t.insert(key("chr2", 100, 0), value('C', 4.0, 12)).unwrap();
    assert_eq!(t.lookup(&key("chr1", 100, 0)), value('A', 2.0, 10));
    assert_eq!(t.lookup(&key("chr1", 100, 1)), value('T', 3.0, 11));
    assert_eq!(t.lookup(&key("chr2", 100, 0)), value('C', 4.0, 12));
    assert_eq!(t.lookup(&key("chr2", 100, 1)), IpdSummaryValue::default());
    assert_eq!(t.lookup(&key("chr1", 101, 0)), IpdSummaryValue::default());
    assert_eq!(t.lookup(&key("chr9", 100, 0)), IpdSummaryValue::default());
    assert_eq!(t.lookup(&key("chr1", 100, 2)), IpdSummaryValue::default());
}

#[test]
fn rows_later_insert_replaces() {
    let mut t = KineticsRows::new();
    t.insert(key("chr1", 5, 0), value('A', 2.0, 10)).unwrap();
    t.insert(key("chr1", 5, 0), value('G', 6.0, 3)).unwrap();
    assert_eq!(t.lookup(&key("chr1", 5, 0)), value('G', 6.0, 3));
}

#[test]
fn rows_reject_unknown_strand() {
    let mut t = KineticsRows::new();
    assert_eq!(t.insert(key("chr1", 5, 3), value('A', 2.0, 10)), Err(TableError::UnexpectedStrand(3)));
    assert_eq!(t.lookup(&key("chr1", 5, 3)), IpdSummaryValue::default());
}

#[test]
fn empty_tables_give_default() {
    let rows = KineticsTable::Rows(KineticsRows::new());
    let cols = KineticsTable::Hdf5(KineticsHdf5::new());
    let k = key("chr1", 1, 0);
    assert_eq!(rows.lookup(&k), IpdSummaryValue::default());
    assert_eq!(cols.lookup(&k), IpdSummaryValue::default());
}

#[test]
fn columns_lookup_by_index() {
    let chr = ChrKineticsHdf5::new(columns(3)).unwrap();
    let v = chr.get_ipd_summary_value(&key("any", 2, 1));
    assert_eq!(v.t_mean, 3.0f32.to_bits());
    assert_eq!(v.coverage, 12);
    assert_eq!(v.base, Some('A'));
    assert_eq!(v.frac, None);
    assert_eq!(chr.get_ipd_summary_value(&key("any", 1, 0)).t_mean, 0.0f32.to_bits());
    assert_eq!(chr.get_ipd_summary_value(&key("any", 4, 0)), IpdSummaryValue::default());
    assert_eq!(chr.get_ipd_summary_value(&key("any", 0, 1)), IpdSummaryValue::default());
    assert_eq!(chr.get_ipd_summary_value(&key("any", i64::MIN, 1)), IpdSummaryValue::default());
    assert_eq!(chr.get_ipd_summary_value(&key("any", i64::MAX, 1)), IpdSummaryValue::default());
}

#[test]
fn columns_uncovered_entry_is_default() {
    let mut c = columns(2);
    c.coverage[1] = 0;
    c.tpl[1] = 0;
    let chr = ChrKineticsHdf5::new(c).unwrap();
    assert_eq!(chr.get_ipd_summary_value(&key("c", 1, 1)), IpdSummaryValue::default());
}

#[test]
fn columns_finite_fraction_is_present() {
    let mut c = columns(1);
    c.frac[0] = 0.75f32.to_bits();
    c.frac_low[0] = 0.5f32.to_bits();
    c.frac_up[0] = 0.9f32.to_bits();
    c.frac_low[1] = 0.5f32.to_bits();
    let chr = ChrKineticsHdf5::new(c).unwrap();
    let v = chr.get_ipd_summary_value(&key("c", 1, 0));
    assert_eq!(v.frac, Some(0.75f32.to_bits()));
    assert_eq!(v.frac_low, Some(0.5f32.to_bits()));
    assert_eq!(v.frac_up, Some(0.9f32.to_bits()));
    let w = chr.get_ipd_summary_value(&key("c", 1, 1));
    assert_eq!(w.frac, None);
    assert_eq!(w.frac_low, None);
}

#[test]
fn columns_validation_errors() {
    let mut c = columns(2);
    c.score.pop();
    assert!(matches!(ChrKineticsHdf5::new(c), Err(TableError::ColumnLengthMismatch)));
    let mut c = columns(2);
    c.tpl[2] = 5;
    c.strand[3] = 0;
    assert!(matches!(ChrKineticsHdf5::new(c), Err(TableError::MisplacedRecord(2))));
    let mut c = columns(2);
    c.strand[3] = 0;
    assert!(matches!(ChrKineticsHdf5::new(c), Err(TableError::MisplacedRecord(3))));
}

#[test]
fn columns_missing_chromosome_is_default() {
    let mut t = KineticsHdf5::new();
    t.insert("chr1".to_string(), ChrKineticsHdf5::new(columns(2)).unwrap());
    assert_eq!(t.lookup(&key("chr1", 2, 0)).t_mean, 2.0f32.to_bits());
    assert_eq!(t.lookup(&key("chr2", 2, 0)), IpdSummaryValue::default());
}

#[test]
fn both_backends_agree_on_same_data() {
    let c = columns(4);
    let mut rows = KineticsRows::new();
    for i in 0..c.tpl.len() {
        let v = IpdSummaryValue {
            base: c.base[i],
            score: c.score[i],
            t_mean: c.t_mean[i],
            t_err: c.t_err[i],
            model_prediction: c.model_prediction[i],
            ipd_ratio: c.ipd_ratio[i],
            coverage: c.coverage[i],
            frac: None,
            frac_low: None,
            frac_up: None,
        };
        rows.insert(key("chrM", c.tpl[i] as i64, c.strand[i]), v).unwrap();
    }
    let mut cols = KineticsHdf5::new();
    cols.insert("chrM".to_string(), ChrKineticsHdf5::new(c).unwrap());
    let rows = KineticsTable::Rows(rows);
    let cols = KineticsTable::Hdf5(cols);
    for chrom in ["chrM", "chrX"] {
        for p in -1..8 {
            for s in 0..3u8 {
                let k = key(chrom, p, s);
                assert_eq!(rows.lookup(&k), cols.lookup(&k), "{:?}", k);
            }
        }
    }
}
