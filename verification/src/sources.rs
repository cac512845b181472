//! What a control computer reads in each cycle, and from whom.
//!
//! The control laws are written against four capabilities: a memory of the
//! lever position, a pickoff unit that measures a surface, an air-data unit,
//! and a landing-gear unit. Each capability is a trait that has, for every
//! method, a specification function of the same name behind `spec_`. The
//! contracts of this crate speak of the specification function, and the
//! method has to return what it says: a source stands for one sample and,
//! asked twice, answers the same. For an implementation inside `verus!` that
//! is proved; one outside has to see to it itself.
//!
//! For each capability but the lever memory the module also holds a plain
//! record of one sample that has it.

use vstd::prelude::*;
use crate::arinc429::{Arinc429Word, SignStatus};
use crate::units::{Angle, Velocity};

verus! {

/// The values that the aircraft itself has of its airspeed and its angle of
/// attack. They stand in for the values of an air-data unit that were not
/// sent under normal operation.
#[derive(Clone, Copy, Debug, PartialEq, Eq, Structural)]
pub struct UpdateContext {
    pub indicated_airspeed: Velocity,
    pub alpha: Angle,
}

impl UpdateContext {
    /// The context that holds the two values.
    pub fn new(indicated_airspeed: Velocity, alpha: Angle) -> (c: Self)
        ensures
            c.indicated_airspeed == indicated_airspeed,
            c.alpha == alpha,
    {
        UpdateContext { indicated_airspeed, alpha }
    }

    /// The locally available airspeed.
    pub fn indicated_airspeed(&self) -> (v: Velocity)
        ensures
            v == self.indicated_airspeed,
    {
        self.indicated_airspeed
    }

    /// The locally available angle of attack.
    pub fn alpha(&self) -> (a: Angle)
        ensures
            a == self.alpha,
    {
        self.alpha
    }
}

/// A memory of the lever's detent, now and one cycle ago.
pub trait HandlePositionMemory {
    spec fn spec_position(&self) -> u8;

    spec fn spec_previous_position(&self) -> u8;

    /// The detent in which the lever stands.
    fn position(&self) -> (p: u8)
        ensures
            p == self.spec_position(),
    ;

    /// The detent in which the lever stood one cycle ago.
    fn previous_position(&self) -> (p: u8)
        ensures
            p == self.spec_previous_position(),
    ;
}

/// A unit that measures the angle of a surface.
pub trait PositionPickoffUnit {
    spec fn spec_angle(&self) -> Angle;

    /// The measured angle of the surface.
    fn angle(&self) -> (a: Angle)
        ensures
            a == self.spec_angle(),
    ;
}

/// A unit that computes airspeed and angle of attack, and qualifies both.
pub trait AirDataSource {
    spec fn spec_computed_airspeed(&self) -> Arinc429Word<Velocity>;

    spec fn spec_alpha(&self) -> Arinc429Word<Angle>;

    /// The computed airspeed, with its status.
    fn computed_airspeed(&self) -> (w: Arinc429Word<Velocity>)
        ensures
            w == self.spec_computed_airspeed(),
    ;

    /// The angle of attack, with its status.
    fn alpha(&self) -> (w: Arinc429Word<Angle>)
        ensures
            w == self.spec_alpha(),
    ;
}

/// A unit that senses whether the main landing gear is compressed.
pub trait LgciuSensors {
    spec fn spec_left_and_right_gear_compressed(&self, require_both: bool) -> bool;

    /// The compression of the left and the right main gear, taken together.
    /// The caller chooses how: with `require_both` both legs have to be
    /// compressed, without it one of them is enough.
    fn left_and_right_gear_compressed(&self, require_both: bool) -> (b: bool)
        ensures
            b == self.spec_left_and_right_gear_compressed(require_both),
    ;
}

/// The airspeed that a channel works with, in thousandths of a knot: that of
/// the air-data unit where it was sent under normal operation, else the
/// locally available one.
pub open spec fn resolved_airspeed<A: AirDataSource>(context: &UpdateContext, adiru: &A) -> int {
    adiru.spec_computed_airspeed().spec_resolve(context.indicated_airspeed)@
}

/// The angle of attack that a channel works with, in thousandths of a degree:
/// that of the air-data unit where it was sent under normal operation, else
/// the locally available one.
pub open spec fn resolved_alpha<A: AirDataSource>(context: &UpdateContext, adiru: &A) -> int {
    adiru.spec_alpha().spec_resolve(context.alpha)@
}

/// Selects the airspeed that a channel works with.
pub fn select_airspeed<A: AirDataSource>(context: &UpdateContext, adiru: &A) -> (v: Velocity)
    ensures
        v@ == resolved_airspeed(context, adiru),
{
    adiru.computed_airspeed().resolve(context.indicated_airspeed())
}

/// Selects the angle of attack that a channel works with.
pub fn select_alpha<A: AirDataSource>(context: &UpdateContext, adiru: &A) -> (a: Angle)
    ensures
        a@ == resolved_alpha(context, adiru),
{
    adiru.alpha().resolve(context.alpha())
}

/// What a channel works with is the air-data unit's value exactly where that
/// value was sent under normal operation. Where it was not, the locally
/// available value is used, and the value that the unit sent has no
/// influence.
pub proof fn lemma_resolved_air_data<A: AirDataSource>(context: &UpdateContext, adiru: &A)
    ensures
        resolved_airspeed(context, adiru) == (if adiru.spec_computed_airspeed().ssm
            == SignStatus::NormalOperation {
            adiru.spec_computed_airspeed().value@
        } else {
            context.indicated_airspeed@
        }),
        resolved_alpha(context, adiru) == (if adiru.spec_alpha().ssm
            == SignStatus::NormalOperation {
            adiru.spec_alpha().value@
        } else {
            context.alpha@
        }),
{
}

/// One measurement of a surface's angle.
#[derive(Clone, Copy, Debug, PartialEq, Eq, Structural)]
pub struct PickoffSample {
    pub angle: Angle,
}

impl PositionPickoffUnit for PickoffSample {
    open spec fn spec_angle(&self) -> Angle {
        self.angle
    }

    fn angle(&self) -> (a: Angle)
        ensures
            a == self.angle,
    {
        self.angle
    }
}

/// One transmission of an air-data unit.
#[derive(Clone, Copy, Debug, PartialEq, Eq)]
pub struct AirDataSample {
    pub computed_airspeed: Arinc429Word<Velocity>,
    pub alpha: Arinc429Word<Angle>,
}

impl AirDataSource for AirDataSample {
    open spec fn spec_computed_airspeed(&self) -> Arinc429Word<Velocity> {
        self.computed_airspeed
    }

    open spec fn spec_alpha(&self) -> Arinc429Word<Angle> {
        self.alpha
    }

    fn computed_airspeed(&self) -> (w: Arinc429Word<Velocity>)
        ensures
            w == self.computed_airspeed,
    {
        self.computed_airspeed
    }

    fn alpha(&self) -> (w: Arinc429Word<Angle>)
        ensures
            w == self.alpha,
    {
        self.alpha
    }
}

/// One reading of the compression of both main gear legs.
#[derive(Clone, Copy, Debug, PartialEq, Eq, Structural)]
pub struct GearSample {
    pub left_compressed: bool,
    pub right_compressed: bool,
}

impl LgciuSensors for GearSample {
    open spec fn spec_left_and_right_gear_compressed(&self, require_both: bool) -> bool {
        if require_both {
            self.left_compressed && self.right_compressed
        } else {
            self.left_compressed || self.right_compressed
        }
    }

    fn left_and_right_gear_compressed(&self, require_both: bool) -> (b: bool)
        ensures
            b == self.spec_left_and_right_gear_compressed(require_both),
    {
        if require_both {
            self.left_compressed && self.right_compressed
        } else {
            self.left_compressed || self.right_compressed
        }
    }
}

} // verus!
