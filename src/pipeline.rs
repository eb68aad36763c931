//! The rows of one occurrence: its window expanded, each key resolved in a
//! kinetics table, each offset labelled.

use vstd::prelude::*;
use crate::key::{
    IpdSummaryKey, KeyError, MergedOcc, OccurrenceError, keys_view, occurrence_error,
    occurrence_key, region_fits, spec_window, window_error,
};
use crate::output::TargetIpdRich;
use crate::table::{KineticsTable, resolve};

verus! {

/// Why the rows of an occurrence could not be produced.
#[derive(Debug, Clone, Copy, PartialEq, Eq, Structural)]
pub enum CollectError {
    Occurrence(OccurrenceError),
    Key(KeyError),
}

/// Observation strand of the `j`-th key of a window: keys alternate between
/// the occurrence's own strand and the other one.
pub open spec fn row_strand(j: int) -> char {
    if j % 2 == 0 {
        '+'
    } else {
        '-'
    }
}

/// The rows of occurrence number `src` (counted from 1): one per key of its
/// window, in window order, each with the record that `table` holds there.
pub fn target_rows(
    src: i64,
    occ: MergedOcc,
    width: i64,
    extension: i64,
    table: &KineticsTable,
) -> (r: Result<Vec<TargetIpdRich>, CollectError>)
    requires
        width >= 1,
        extension >= 0,
        region_fits(width as int, extension as int),
        table.wf(),
    ensures
        match r {
            Ok(rows) => {
                let keys = spec_window(occurrence_key(occ), width as int, extension as int);
                &&& occurrence_error(occ).is_none()
                &&& window_error(occurrence_key(occ), width as int, extension as int).is_none()
                &&& rows@.len() == (2 * extension + width) * 2
                &&& forall|j: int|
                    0 <= j < rows@.len() ==> #[trigger] rows@[j].describes(
                        j / 2 + 1,
                        row_strand(j),
                        src as int,
                        width as int,
                        extension as int,
                        keys[j],
                        resolve(table.view(), keys[j]),
                    )
            },
            Err(CollectError::Occurrence(e)) => occurrence_error(occ) == Some(e),
            Err(CollectError::Key(e)) => occurrence_error(occ).is_none() && window_error(
                occurrence_key(occ),
                width as int,
                extension as int,
            ) == Some(e),
        },
{
    let ghost occ_key = occurrence_key(occ);
    let key = match IpdSummaryKey::from_occurrence(occ) {
        Ok(k) => k,
        Err(e) => return Err(CollectError::Occurrence(e)),
    };
    let keys = match key.window_keys(width, extension) {
        Ok(v) => v,
        Err(e) => return Err(CollectError::Key(e)),
    };
    let ghost kv = keys_view(keys@);
    assert(kv == spec_window(occ_key, width as int, extension as int));
    let n = keys.len();
    let mut rows: Vec<TargetIpdRich> = Vec::new();
    let mut j: usize = 0;
    while j < n
        invariant
            n == keys@.len(),
            n == (2 * extension + width) * 2,
            region_fits(width as int, extension as int),
            width >= 1,
            extension >= 0,
            j <= n,
            rows@.len() == j,
            table.wf(),
            kv == keys_view(keys@),
            forall|i: int|
                0 <= i < j ==> #[trigger] rows@[i].describes(
                    i / 2 + 1,
                    row_strand(i),
                    src as int,
                    width as int,
                    extension as int,
                    kv[i],
                    resolve(table.view(), kv[i]),
                ),
        decreases n - j,
    {
        let k = &keys[j];
        assert(k@ == kv[j as int]);
        let value = table.lookup(k);
        let strand = if j % 2 == 0 {
            '+'
        } else {
            '-'
        };
        let position = (j / 2 + 1) as i64;
        rows.push(TargetIpdRich::new(position, strand, src, width, extension, k.duplicate(), &value));
        j = j + 1;
    }
    Ok(rows)
}

} // verus!
