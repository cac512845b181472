//! The discrete configurations of the high-lift surfaces and the surface
//! angles that each of them demands.

use vstd::prelude::*;
use crate::units::{angle_distance, Angle};

verus! {

/// A configuration of the high-lift surfaces.
#[derive(Clone, Copy, Debug, PartialEq, Eq, Structural)]
pub enum FlapsConf {
    Conf0,
    Conf1,
    Conf1F,
    Conf2,
    Conf3,
    ConfFull,
}

/// The refusal to make a configuration of an index that names none.
#[derive(Clone, Copy, Debug, PartialEq, Eq, Structural)]
pub struct InvalidDetent {
    /// The index that was refused.
    pub index: u16,
}

impl FlapsConf {
    /// The configuration that `index` names. The six configurations are
    /// numbered from 0 in the order of their declaration; no other index
    /// names one.
    pub open spec fn spec_from_index(index: u16) -> Result<FlapsConf, InvalidDetent> {
        if index == 0 {
            Ok(FlapsConf::Conf0)
        } else if index == 1 {
            Ok(FlapsConf::Conf1)
        } else if index == 2 {
            Ok(FlapsConf::Conf1F)
        } else if index == 3 {
            Ok(FlapsConf::Conf2)
        } else if index == 4 {
            Ok(FlapsConf::Conf3)
        } else if index == 5 {
            Ok(FlapsConf::ConfFull)
        } else {
            Err(InvalidDetent { index })
        }
    }

    /// Makes a configuration of its index, and refuses an index above 5
    /// with an error that carries it.
    pub fn from_index(index: u16) -> (r: Result<FlapsConf, InvalidDetent>)
        ensures
            r == Self::spec_from_index(index),
            r is Ok <==> index <= 5,
    {
        match index {
            0 => Ok(FlapsConf::Conf0),
            1 => Ok(FlapsConf::Conf1),
            2 => Ok(FlapsConf::Conf1F),
            3 => Ok(FlapsConf::Conf2),
            4 => Ok(FlapsConf::Conf3),
            5 => Ok(FlapsConf::ConfFull),
            _ => Err(InvalidDetent { index }),
        }
    }
}

/// The flap angle that a configuration demands, in thousandths of a degree.
pub open spec fn flaps_angle_of(conf: FlapsConf) -> int {
    match conf {
        FlapsConf::Conf0 => 0,
        FlapsConf::Conf1 => 0,
        FlapsConf::Conf1F => 10_000,
        FlapsConf::Conf2 => 15_000,
        FlapsConf::Conf3 => 20_000,
        FlapsConf::ConfFull => 40_000,
    }
}

/// The slat angle that a configuration demands, in thousandths of a degree.
pub open spec fn slats_angle_of(conf: FlapsConf) -> int {
    match conf {
        FlapsConf::Conf0 => 0,
        FlapsConf::Conf1 => 18_000,
        FlapsConf::Conf1F => 18_000,
        FlapsConf::Conf2 => 22_000,
        FlapsConf::Conf3 => 22_000,
        FlapsConf::ConfFull => 27_000,
    }
}

/// How far the measured angle of a surface may be from the demanded one and
/// still count as equal to it, in thousandths of a degree. At this distance
/// the two already count as different.
pub const EQUAL_ANGLE_DELTA_MILLIDEGREES: u32 = 10;

/// Whether a surface measured at `feedback` has yet to be driven to
/// `demanded`, both in thousandths of a degree.
pub open spec fn surface_to_be_driven(demanded: int, feedback: int) -> bool {
    angle_distance(demanded, feedback) >= 10
}

/// The flap angle that `flap_conf` demands.
pub fn demanded_flaps_angle_from_conf(flap_conf: FlapsConf) -> (a: Angle)
    ensures
        a@ == flaps_angle_of(flap_conf),
{
    match flap_conf {
        FlapsConf::Conf0 => Angle::from_degrees(0),
        FlapsConf::Conf1 => Angle::from_degrees(0),
        FlapsConf::Conf1F => Angle::from_degrees(10),
        FlapsConf::Conf2 => Angle::from_degrees(15),
        FlapsConf::Conf3 => Angle::from_degrees(20),
        FlapsConf::ConfFull => Angle::from_degrees(40),
    }
}

/// The slat angle that `flap_conf` demands.
pub fn demanded_slats_angle_from_conf(flap_conf: FlapsConf) -> (a: Angle)
    ensures
        a@ == slats_angle_of(flap_conf),
{
    match flap_conf {
        FlapsConf::Conf0 => Angle::from_degrees(0),
        FlapsConf::Conf1 => Angle::from_degrees(18),
        FlapsConf::Conf1F => Angle::from_degrees(18),
        FlapsConf::Conf2 => Angle::from_degrees(22),
        FlapsConf::Conf3 => Angle::from_degrees(22),
        FlapsConf::ConfFull => Angle::from_degrees(27),
    }
}

} // verus!
