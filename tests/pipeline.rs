use kinetics_window::key::{IpdSummaryKey, KeyError, MergedOcc, OccurrenceError};
use kinetics_window::output::TargetIpdRich;
use kinetics_window::pipeline::{target_rows, CollectError};
use kinetics_window::record::IpdSummaryValue;
use kinetics_window::table::{KineticsRows, KineticsTable};

fn value(t_mean: f32, coverage: u32) -> IpdSummaryValue {
    IpdSummaryValue {
        base: Some('C'),
        score: 20,
        t_mean: t_mean.to_bits(),
        t_err: 0.1f32.to_bits(),
        model_prediction: 0.8f32.to_bits(),
        ipd_ratio: 2.0f32.to_bits(),
        coverage,
        frac: None,
        frac_low: None,
        frac_up: None,
    }
}

/// chr1 positions 99..=101 on both strands; mean = position + strand / 10.
fn table() -> KineticsTable {
    let mut t = KineticsRows::new();
    for p in 99..=101i64 {
        for s in 0..2u8 {
            let k = IpdSummaryKey::new("chr1".to_string(), p, s);
            t.insert(k, value(p as f32 + s as f32 / 10.0, 5)).unwrap();
        }
    }
    KineticsTable::Rows(t)
}

fn occ(start: i64, strand: char) -> MergedOcc {
    MergedOcc { ref_name: "chr1".to_string(), start, strand }
}

fn summary(rows: &[TargetIpdRich]) -> Vec<(i64, char, String, i64, u8, String)> {
    rows.iter()
        .map(|r| (r.position, r.strand, r.label.clone(), r.ref_position, r.ref_strand, r.region.clone()))
        .collect()
}

#[test]
fn plus_strand_occurrence_rows() {
    let rows = target_rows(1, occ(99, '+'), 1, 1, &table()).unwrap();
    assert_eq!(rows.len(), 6);
    let expected = vec![
        (1, '+', "s1p".to_string(), 99, 0, "Upstream".to_string()),
        (1, '-', "s1m".to_string(), 99, 1, "Upstream".to_string()),
        (2, '+', "m1p".to_string(), 100, 0, "Target".to_string()),
        (2, '-', "m1m".to_string(), 100, 1, "Target".to_string()),
        (3, '+', "e1p".to_string(), 101, 0, "Downstream".to_string()),
        (3, '-', "e1m".to_string(), 101, 1, "Downstream".to_string()),
    ];
    assert_eq!(summary(&rows), expected);
    assert_eq!(rows[2].value, 100.0f32.to_bits());
    assert_eq!(rows[3].value, 100.1f32.to_bits());
    for r in &rows {
        assert_eq!(r.src, 1);
        assert_eq!(r.ref_chr, "chr1");
        assert_eq!(r.coverage, 5);
        assert_eq!(r.base, Some('C'));
    }
}

#[test]
fn minus_strand_occurrence_rows() {
    let rows = target_rows(2, occ(99, '-'), 1, 1, &table()).unwrap();
    assert_eq!(rows.len(), 6);
    let expected = vec![
        (1, '+', "s1p".to_string(), 101, 1, "Upstream".to_string()),
        (1, '-', "s1m".to_string(), 101, 0, "Upstream".to_string()),
        (2, '+', "m1p".to_string(), 100, 1, "Target".to_string()),
        (2, '-', "m1m".to_string(), 100, 0, "Target".to_string()),
        (3, '+', "e1p".to_string(), 99, 1, "Downstream".to_string()),
        (3, '-', "e1m".to_string(), 99, 0, "Downstream".to_string()),
    ];
    assert_eq!(summary(&rows), expected);
    assert_eq!(rows[0].value, 101.1f32.to_bits());
    assert_eq!(rows[5].value, 99.0f32.to_bits());
    assert!(rows.iter().all(|r| r.src == 2));
}

#[test]
fn positions_without_data_get_missing_record() {
    let rows = target_rows(1, occ(100, '+'), 2, 1, &table()).unwrap();
    assert_eq!(rows.len(), 8);
    // window is 100..=103; 102 and 103 are not in the table
    for r in &rows[4..] {
        assert_eq!(r.coverage, 0);
        assert_eq!(r.value, 0);
        assert_eq!(r.base, None);
    }
    assert_eq!(rows[7].label, "e1m");
    assert_eq!(rows[7].ref_position, 103);
}

#[test]
fn wide_window_row_count() {
    let rows = target_rows(3, occ(1000, '-'), 5, 3, &table()).unwrap();
    assert_eq!(rows.len() as i64, (2 * 3 + 5) * 2);
    assert_eq!(rows[0].ref_position, 1001 + 4 + 3);
    assert_eq!(rows[rows.len() - 1].ref_position, 1001 - 3);
}

#[test]
fn bad_occurrence_strand_is_an_error() {
    let r = target_rows(1, occ(5, '*'), 1, 1, &table());
    assert!(matches!(r, Err(CollectError::Occurrence(OccurrenceError::UnexpectedStrandChar('*')))));
}

#[test]
fn window_overflow_is_an_error() {
    let r = target_rows(1, occ(i64::MAX - 2, '+'), 1, 5, &table());
    assert!(matches!(
        r,
        Err(CollectError::Key(KeyError::PositionOverflow { tpl, extension: 5 })) if tpl == i64::MAX - 1
    ));
    let r = target_rows(1, occ(i64::MIN, '-'), 1, 2, &table());
    assert!(matches!(
        r,
        Err(CollectError::Key(KeyError::PositionOverflow { tpl, extension: 2 })) if tpl == i64::MIN + 1
    ));
}
