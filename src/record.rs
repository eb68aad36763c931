//! Kinetics records: the measurements at one position of one strand.
//!
//! Measurements are 32-bit floats; they are carried as their IEEE-754 bit
//! patterns, which the library copies and never computes with.

use vstd::prelude::*;
use crate::key::{IpdSummaryKey, KeyView};

verus! {

/// Whether the 32-bit float with bit pattern `bits` is finite: its exponent
/// field is not all ones.
pub open spec fn is_finite_bits(bits: u32) -> bool {
    (bits >> 23u32) & 0xffu32 != 0xffu32
}

/// Whether the 32-bit float with bit pattern `bits` is finite.
pub fn finite_bits(bits: u32) -> (r: bool)
    ensures
        r == is_finite_bits(bits),
{
    (bits >> 23u32) & 0xffu32 != 0xffu32
}

/// What is known at one position of one strand. Absent fractions are
/// meaningful: the model had no estimate there.
#[derive(Debug, Clone, Copy, PartialEq, Eq, Structural)]
pub struct IpdSummaryValue {
    pub base: Option<char>,
    pub score: u32,
    /// Mean inter-pulse duration, as float bits.
    pub t_mean: u32,
    /// Its standard error, as float bits.
    pub t_err: u32,
    /// Model prediction, as float bits.
    pub model_prediction: u32,
    /// Observed over predicted, as float bits.
    pub ipd_ratio: u32,
    pub coverage: u32,
    pub frac: Option<u32>,
    pub frac_low: Option<u32>,
    pub frac_up: Option<u32>,
}

/// The record of a position with no data: every number zero (float bits of
/// `0.0`), no base, no fractions.
pub open spec fn missing_value() -> IpdSummaryValue {
    IpdSummaryValue {
        base: None,
        score: 0,
        t_mean: 0,
        t_err: 0,
        model_prediction: 0,
        ipd_ratio: 0,
        coverage: 0,
        frac: None,
        frac_low: None,
        frac_up: None,
    }
}

impl Default for IpdSummaryValue {
    fn default() -> (r: Self)
        ensures
            r == missing_value(),
    {
        IpdSummaryValue {
            base: None,
            score: 0,
            t_mean: 0,
            t_err: 0,
            model_prediction: 0,
            ipd_ratio: 0,
            coverage: 0,
            frac: None,
            frac_low: None,
            frac_up: None,
        }
    }
}

/// One row of a per-base kinetics table: a key and its record.
#[derive(Debug)]
pub struct IpdSummary {
    pub ref_name: String,
    /// 1-based position.
    pub tpl: i64,
    /// Strand: 0 = plus, 1 = minus.
    pub strand: u8,
    pub base: Option<char>,
    pub score: u32,
    pub t_mean: u32,
    pub t_err: u32,
    pub model_prediction: u32,
    pub ipd_ratio: u32,
    pub coverage: u32,
    pub frac: Option<u32>,
    pub frac_low: Option<u32>,
    pub frac_up: Option<u32>,
}

impl IpdSummary {
    pub open spec fn key_view(&self) -> KeyView {
        (self.ref_name@, self.tpl, self.strand)
    }

    pub open spec fn value_view(&self) -> IpdSummaryValue {
        IpdSummaryValue {
            base: self.base,
            score: self.score,
            t_mean: self.t_mean,
            t_err: self.t_err,
            model_prediction: self.model_prediction,
            ipd_ratio: self.ipd_ratio,
            coverage: self.coverage,
            frac: self.frac,
            frac_low: self.frac_low,
            frac_up: self.frac_up,
        }
    }

    /// Splits the row into its key and its record.
    pub fn into_pair(self) -> (r: (IpdSummaryKey, IpdSummaryValue))
        ensures
            r.0@ == self.key_view(),
            r.1 == self.value_view(),
    {
        (
            IpdSummaryKey::new(self.ref_name, self.tpl, self.strand),
            IpdSummaryValue {
                base: self.base,
                score: self.score,
                t_mean: self.t_mean,
                t_err: self.t_err,
                model_prediction: self.model_prediction,
                ipd_ratio: self.ipd_ratio,
                coverage: self.coverage,
                frac: self.frac,
                frac_low: self.frac_low,
                frac_up: self.frac_up,
            },
        )
    }
}

} // verus!
