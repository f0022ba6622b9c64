//! Rational scale factors converting raw sysfs integer units to standard
//! physical units.

use vstd::prelude::*;

verus! {

/// An immutable rational scale factor (numerator / denominator).
///
/// A raw sysfs value multiplied by `numer / denom` gives the value in the
/// standard physical unit; the denominator is never zero.
#[derive(Clone, Copy, Debug, Eq, PartialEq)]
pub struct Ratio {
    numer: u64,
    denom: u64,
}

impl Ratio {
    /// The numerator of the scale factor.
    pub closed spec fn spec_numer(self) -> u64 {
        self.numer
    }

    /// The denominator of the scale factor.
    pub closed spec fn spec_denom(self) -> u64 {
        self.denom
    }

    /// A ratio is well formed when its denominator is not zero.
    pub open spec fn wf(self) -> bool {
        self.spec_denom() != 0
    }

    /// The identity scale factor, 1 / 1.
    pub open spec fn spec_unity() -> Ratio {
        Ratio::new_spec(1, 1)
    }

    /// The milli scale factor, 1 / 1000.
    pub open spec fn spec_milli() -> Ratio {
        Ratio::new_spec(1, 1000)
    }

    /// The micro scale factor, 1 / 1000000.
    pub open spec fn spec_micro() -> Ratio {
        Ratio::new_spec(1, 1000000)
    }

    pub closed spec fn new_spec(numer: u64, denom: u64) -> Ratio {
        Ratio { numer, denom }
    }

    pub fn unity() -> (r: Ratio)
        ensures
            r == Ratio::spec_unity(),
            r.wf(),
    {
        Ratio { numer: 1, denom: 1 }
    }

    pub fn milli() -> (r: Ratio)
        ensures
            r == Ratio::spec_milli(),
            r.wf(),
    {
        Ratio { numer: 1, denom: 1000 }
    }

    pub fn micro() -> (r: Ratio)
        ensures
            r == Ratio::spec_micro(),
            r.wf(),
    {
        Ratio { numer: 1, denom: 1000000 }
    }

    /// Return the numerator.
    pub fn numer(&self) -> (r: u64)
        ensures
            r == self.spec_numer(),
    {
        self.numer
    }

    /// Return the denominator.
    pub fn denom(&self) -> (r: u64)
        ensures
            r == self.spec_denom(),
    {
        self.denom
    }
}

/// The three canonical ratios are pairwise distinct and well formed.
pub proof fn lemma_canonical_ratios_distinct()
    ensures
        Ratio::spec_unity().wf(),
        Ratio::spec_milli().wf(),
        Ratio::spec_micro().wf(),
        Ratio::spec_unity() != Ratio::spec_milli(),
        Ratio::spec_milli() != Ratio::spec_micro(),
        Ratio::spec_unity() != Ratio::spec_micro(),
{
}

} // verus!
