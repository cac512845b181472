//! Fixed-point physical quantities.
//!
//! The control laws compare measured values against thresholds and against
//! each other. Both kinds of quantity are held as whole numbers of a small
//! unit, so that every comparison is exact and every contract can speak of
//! mathematical integers.

use vstd::prelude::*;

verus! {

/// A plane angle, held as a whole number of thousandths of a degree.
#[derive(Clone, Copy, Debug, PartialEq, Eq, Structural)]
pub struct Angle {
    pub millidegrees: i32,
}

impl View for Angle {
    type V = int;

    /// The angle in thousandths of a degree.
    open spec fn view(&self) -> int {
        self.millidegrees as int
    }
}

/// The distance between two angles, in thousandths of a degree.
pub open spec fn angle_distance(a: int, b: int) -> int {
    if a >= b {
        a - b
    } else {
        b - a
    }
}

impl Angle {
    /// The angle of `millidegrees` thousandths of a degree.
    pub fn from_millidegrees(millidegrees: i32) -> (a: Angle)
        ensures
            a@ == millidegrees,
    {
        Angle { millidegrees }
    }

    /// The angle of `degrees` whole degrees.
    pub fn from_degrees(degrees: i16) -> (a: Angle)
        ensures
            a@ == degrees * 1000,
    {
        let wide: i32 = degrees as i32;
        Angle { millidegrees: wide * 1000 }
    }

    /// The angle in thousandths of a degree.
    pub fn millidegrees(&self) -> (m: i32)
        ensures
            m == self@,
    {
        self.millidegrees
    }

    /// How far apart two angles are, whichever is the larger.
    pub fn distance(&self, other: Angle) -> (d: u32)
        ensures
            d == angle_distance(self@, other@),
    {
        let a: i64 = self.millidegrees as i64;
        let b: i64 = other.millidegrees as i64;
        if a >= b {
            (a - b) as u32
        } else {
            (b - a) as u32
        }
    }
}

/// A speed, held as a whole number of thousandths of a knot.
#[derive(Clone, Copy, Debug, PartialEq, Eq, Structural)]
pub struct Velocity {
    pub milliknots: i32,
}

impl View for Velocity {
    type V = int;

    /// The speed in thousandths of a knot.
    open spec fn view(&self) -> int {
        self.milliknots as int
    }
}

impl Velocity {
    /// The speed of `milliknots` thousandths of a knot.
    pub fn from_milliknots(milliknots: i32) -> (v: Velocity)
        ensures
            v@ == milliknots,
    {
        Velocity { milliknots }
    }

    /// The speed of `knots` whole knots.
    pub fn from_knots(knots: i16) -> (v: Velocity)
        ensures
            v@ == knots * 1000,
    {
        let wide: i32 = knots as i32;
        Velocity { milliknots: wide * 1000 }
    }

    /// The speed in thousandths of a knot.
    pub fn milliknots(&self) -> (m: i32)
        ensures
            m == self@,
    {
        self.milliknots
    }
}

} // verus!
