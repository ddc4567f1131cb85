//! Typed mass quantities.
//!
//! A mass is held in picograms, the canonical internal unit: every
//! supported source unit (grams, kilograms, thousandths of an ounce,
//! ounces, pounds) is a whole number of picograms, so conversions into
//! the canonical unit are exact.

use vstd::prelude::*;

verus! {

/// Picograms in one gram.
pub const PICOGRAMS_PER_GRAM: u64 = 1_000_000_000_000;

/// Picograms in one kilogram.
pub const PICOGRAMS_PER_KILOGRAM: u64 = 1_000_000_000_000_000;

/// Picograms in one thousandth of an international avoirdupois ounce
/// (one ounce is exactly 28.349523125 g).
pub const PICOGRAMS_PER_MILLIOUNCE: u64 = 28_349_523_125;

/// Picograms in one international avoirdupois ounce.
pub const PICOGRAMS_PER_OUNCE: u64 = 28_349_523_125_000;

/// Picograms in one international avoirdupois pound
/// (exactly 453.59237 g).
pub const PICOGRAMS_PER_POUND: u64 = 453_592_370_000_000;

/// A mass, held exactly as a whole number of picograms.
#[derive(Clone, Copy, Debug, PartialEq, Eq, Structural)]
pub struct Mass {
    /// The mass in picograms.
    pub picograms: u64,
}

impl Mass {
    /// A mass of exactly `picograms` picograms.
    pub fn from_picograms(picograms: u64) -> (r: Mass)
        ensures
            r.picograms == picograms,
    {
        Mass { picograms }
    }

    /// A mass of `grams` grams.
    pub fn from_grams(grams: u64) -> (r: Mass)
        requires
            grams * PICOGRAMS_PER_GRAM <= u64::MAX,
        ensures
            r.picograms == grams * PICOGRAMS_PER_GRAM,
    {
        Mass { picograms: grams * PICOGRAMS_PER_GRAM }
    }

    /// A mass of `kilograms` kilograms.
    pub fn from_kilograms(kilograms: u64) -> (r: Mass)
        requires
            kilograms * PICOGRAMS_PER_KILOGRAM <= u64::MAX,
        ensures
            r.picograms == kilograms * PICOGRAMS_PER_KILOGRAM,
    {
        Mass { picograms: kilograms * PICOGRAMS_PER_KILOGRAM }
    }

    /// A mass of `milliounces` thousandths of an ounce.
    pub fn from_milliounces(milliounces: u64) -> (r: Mass)
        requires
            milliounces * PICOGRAMS_PER_MILLIOUNCE <= u64::MAX,
        ensures
            r.picograms == milliounces * PICOGRAMS_PER_MILLIOUNCE,
    {
        Mass { picograms: milliounces * PICOGRAMS_PER_MILLIOUNCE }
    }

    /// A mass of `ounces` ounces.
    pub fn from_ounces(ounces: u64) -> (r: Mass)
        requires
            ounces * PICOGRAMS_PER_OUNCE <= u64::MAX,
        ensures
            r.picograms == ounces * PICOGRAMS_PER_OUNCE,
    {
        Mass { picograms: ounces * PICOGRAMS_PER_OUNCE }
    }

    /// A mass of `pounds` pounds.
    pub fn from_pounds(pounds: u64) -> (r: Mass)
        requires
            pounds * PICOGRAMS_PER_POUND <= u64::MAX,
        ensures
            r.picograms == pounds * PICOGRAMS_PER_POUND,
    {
        Mass { picograms: pounds * PICOGRAMS_PER_POUND }
    }

    /// The mass in picograms.
    pub fn as_picograms(&self) -> (r: u64)
        ensures
            r == self.picograms,
    {
        self.picograms
    }

    /// The mass in whole grams, rounded down.
    pub fn as_grams(&self) -> (r: u64)
        ensures
            r == self.picograms / PICOGRAMS_PER_GRAM,
    {
        self.picograms / PICOGRAMS_PER_GRAM
    }

    /// The sum of two masses.
    pub fn plus(self, other: Mass) -> (r: Mass)
        requires
            self.picograms + other.picograms <= u64::MAX,
        ensures
            r.picograms == self.picograms + other.picograms,
    {
        Mass { picograms: self.picograms + other.picograms }
    }
}

} // verus!
