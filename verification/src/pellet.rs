//! Pellets: the charged spheres the player steers into the acceptance band.
//!
//! A pellet's charge runs from fully blue to fully yellow. The charge itself
//! is kept by the caller; the rules here deal with the two ends of the scale
//! and with the band in the middle.

use vstd::prelude::*;

verus! {

/// An end of the charge scale.
#[derive(Clone, Copy, Debug, PartialEq, Eq, Structural)]
pub enum Polarity {
    /// The low end.
    Blue,
    /// The high end.
    Yellow,
}

impl Polarity {
    /// The end a new pellet starts at, decided by a coin: heads is blue.
    pub open spec fn spec_from_coin(heads: bool) -> Polarity {
        if heads {
            Polarity::Blue
        } else {
            Polarity::Yellow
        }
    }

    /// The end a new pellet starts at, decided by a coin: heads is blue.
    pub fn from_coin(heads: bool) -> (p: Polarity)
        ensures
            p == Polarity::spec_from_coin(heads),
    {
        match heads {
            true => Polarity::Blue,
            false => Polarity::Yellow,
        }
    }

    /// The other end.
    pub open spec fn spec_opposite(self) -> Polarity {
        match self {
            Polarity::Blue => Polarity::Yellow,
            Polarity::Yellow => Polarity::Blue,
        }
    }

    /// The other end.
    pub fn opposite(self) -> (p: Polarity)
        ensures
            p == self.spec_opposite(),
    {
        match self {
            Polarity::Blue => Polarity::Yellow,
            Polarity::Yellow => Polarity::Blue,
        }
    }
}

/// How a pellet is outlined.
#[derive(Clone, Copy, Debug, PartialEq, Eq, Structural)]
pub enum BandMark {
    /// The pellet is inside the band.
    Accepted,
    /// The pellet is outside the band.
    Rejected,
}

/// The outline of a pellet says whether it is inside the band.
pub fn band_mark(in_range: bool) -> (mark: BandMark)
    ensures
        mark == if in_range { BandMark::Accepted } else { BandMark::Rejected },
{
    if in_range {
        BandMark::Accepted
    } else {
        BandMark::Rejected
    }
}

} // verus!
