//! Output records: one per window offset and observation strand.

use vstd::prelude::*;
use crate::key::{IpdSummaryKey, KeyView, region_fits};
use crate::label::{
    label_text, region_name, valid_offset, push_decimal,
};
use crate::record::IpdSummaryValue;

verus! {

/// Why a window length cannot be used.
#[derive(Debug, Clone)]
pub struct RegionOverflow {
    pub message: String,
}

pub open spec fn region_overflow_message() -> Seq<char> {
    "Total region length exceeds u64"@
}

impl Default for RegionOverflow {
    fn default() -> (r: Self)
        ensures
            r.message@ == region_overflow_message(),
    {
        let mut message = String::new();
        message.append("Total region length exceeds u64");
        RegionOverflow { message }
    }
}

/// The length `2 * extension + width` of every window, or `RegionOverflow`
/// where it does not fit in an `i64`.
pub fn region_length(width: i64, extension: i64) -> (r: Result<i64, RegionOverflow>)
    ensures
        match r {
            Ok(n) => region_fits(width as int, extension as int) && n == 2 * extension + width,
            Err(e) => !region_fits(width as int, extension as int) && e.message@
                == region_overflow_message(),
        },
{
    match extension.checked_mul(2) {
        Some(twice) => match twice.checked_add(width) {
            Some(n) => Ok(n),
            None => Err(RegionOverflow::default()),
        },
        None => Err(RegionOverflow::default()),
    }
}

/// The value at one window offset, with its label.
#[derive(Debug)]
pub struct TargetIpd {
    pub position: i64,
    pub strand: char,
    /// Float bits of the mean inter-pulse duration.
    pub value: u32,
    pub label: String,
    pub src: i64,
}

impl TargetIpd {
    /// The label of offset `position` of a window observed on `strand`.
    pub fn create_label(position: i64, region_width: i64, region_extension: i64, strand: char) -> (r:
        String)
        requires
            valid_offset(position as int, region_width as int, region_extension as int),
            region_fits(region_width as int, region_extension as int),
            strand == '+' || strand == '-',
        ensures
            r@ == label_text(
                position as int,
                region_width as int,
                region_extension as int,
                strand,
            ),
    {
        proof {
            reveal_strlit("s");
            reveal_strlit("m");
            reveal_strlit("e");
            reveal_strlit("p");
        }
        let (part, rel): (&str, i64) = if position <= region_extension {
            ("s", position)
        } else if position <= region_extension + region_width {
            ("m", position - region_extension)
        } else {
            ("e", position - region_extension - region_width)
        };
        let mut out = String::new();
        out.append(part);
        push_decimal(&mut out, rel as u64);
        out.append(
            if strand == '+' {
                "p"
            } else {
                "m"
            },
        );
        out
    }

    pub fn new(
        position: i64,
        strand: char,
        value: u32,
        src: i64,
        region_width: i64,
        region_extension: i64,
    ) -> (r: Self)
        requires
            valid_offset(position as int, region_width as int, region_extension as int),
            region_fits(region_width as int, region_extension as int),
            strand == '+' || strand == '-',
        ensures
            r.position == position,
            r.strand == strand,
            r.value == value,
            r.src == src,
            r.label@ == label_text(
                position as int,
                region_width as int,
                region_extension as int,
                strand,
            ),
    {
        TargetIpd {
            position,
            strand,
            value,
            label: Self::create_label(position, region_width, region_extension, strand),
            src,
        }
    }
}

/// One output row: a window offset on one observation strand, its label and
/// region, the record found there and the absolute key it was read from.
#[derive(Debug)]
pub struct TargetIpdRich {
    /// Offset in the window, from 1, along the occurrence's strand.
    pub position: i64,
    /// Observation strand relative to the occurrence.
    pub strand: char,
    /// Float bits of the mean inter-pulse duration.
    pub value: u32,
    pub label: String,
    /// 1-based index of the occurrence.
    pub src: i64,
    pub base: Option<char>,
    pub score: u32,
    pub t_err: u32,
    pub model_prediction: u32,
    pub ipd_ratio: u32,
    pub coverage: u32,
    pub ref_chr: String,
    pub ref_position: i64,
    pub ref_strand: u8,
    pub region: String,
}

impl TargetIpdRich {
    /// Whether this row is offset `position` on `strand` of the window of
    /// occurrence `src`, read from key `k` holding record `v`.
    pub open spec fn describes(
        &self,
        position: int,
        strand: char,
        src: int,
        w: int,
        e: int,
        k: KeyView,
        v: IpdSummaryValue,
    ) -> bool {
        &&& self.position == position
        &&& self.strand == strand
        &&& self.value == v.t_mean
        &&& self.label@ == label_text(position, w, e, strand)
        &&& self.src == src
        &&& self.base == v.base
        &&& self.score == v.score
        &&& self.t_err == v.t_err
        &&& self.model_prediction == v.model_prediction
        &&& self.ipd_ratio == v.ipd_ratio
        &&& self.coverage == v.coverage
        &&& self.ref_chr@ == k.0
        &&& self.ref_position == k.1
        &&& self.ref_strand == k.2
        &&& self.region@ == region_name(position, w, e)
    }

    /// Readable name of the part of the window that holds offset `position`.
    pub fn create_region(position: i64, region_width: i64, region_extension: i64) -> (r: String)
        requires
            valid_offset(position as int, region_width as int, region_extension as int),
            region_fits(region_width as int, region_extension as int),
        ensures
            r@ == region_name(position as int, region_width as int, region_extension as int),
    {
        let mut out = String::new();
        if position <= region_extension {
            out.append("Upstream");
        } else if position <= region_extension + region_width {
            out.append("Target");
        } else {
            out.append("Downstream");
        }
        out
    }

    pub fn new(
        position: i64,
        strand: char,
        src: i64,
        region_width: i64,
        region_extension: i64,
        key: IpdSummaryKey,
        values: &IpdSummaryValue,
    ) -> (r: Self)
        requires
            valid_offset(position as int, region_width as int, region_extension as int),
            region_fits(region_width as int, region_extension as int),
            strand == '+' || strand == '-',
        ensures
            r.describes(
                position as int,
                strand,
                src as int,
                region_width as int,
                region_extension as int,
                key@,
                *values,
            ),
    {
        TargetIpdRich {
            position,
            strand,
            value: values.t_mean,
            label: TargetIpd::create_label(position, region_width, region_extension, strand),
            src,
            base: values.base,
            score: values.score,
            t_err: values.t_err,
            model_prediction: values.model_prediction,
            ipd_ratio: values.ipd_ratio,
            coverage: values.coverage,
            ref_chr: key.ref_name,
            ref_position: key.tpl,
            ref_strand: key.strand,
            region: Self::create_region(position, region_width, region_extension),
        }
    }
}

} // verus!
