//! The flaps channel of a control computer.
//!
//! The channel keeps a configuration from cycle to cycle. In each cycle it
//! looks at the lever's previous and current detent and at the airspeed, and
//! either moves to the configuration that the transition table gives or
//! stays where it is. The angle it demands of the flaps follows from the
//! configuration alone.

use vstd::prelude::*;
use crate::conf::{
    demanded_flaps_angle_from_conf, flaps_angle_of, surface_to_be_driven, FlapsConf,
    InvalidDetent, EQUAL_ANGLE_DELTA_MILLIDEGREES,
};
use crate::power::{ElectricalBusType, ElectricalBuses};
use crate::sources::{
    resolved_airspeed, select_airspeed, AirDataSource, HandlePositionMemory,
    PositionPickoffUnit, UpdateContext,
};
use crate::units::Angle;

verus! {

/// Up to this airspeed a lever that leaves detent 0 for detent 1 extends the
/// flaps. In thousandths of a knot.
pub const HANDLE_ONE_CONF_AIRSPEED_THRESHOLD_MILLIKNOTS: i32 = 100_000;

/// Above this airspeed a lever that rests in detent 1 has the flaps
/// retracted, and up to it a lever that comes back to detent 1 leaves them
/// extended. In thousandths of a knot.
pub const CONF1F_TO_CONF1_AIRSPEED_THRESHOLD_MILLIKNOTS: i32 = 210_000;

/// The configuration for a lever that stands in detent 1.
pub open spec fn flaps_configuration_in_detent_one(
    previous_position: u8,
    airspeed: int,
    retained: FlapsConf,
) -> FlapsConf {
    if previous_position == 0 {
        if airspeed <= 100_000 {
            FlapsConf::Conf1F
        } else {
            FlapsConf::Conf1
        }
    } else if previous_position == 1 {
        if airspeed > 210_000 {
            FlapsConf::Conf1
        } else {
            retained
        }
    } else {
        if airspeed <= 210_000 {
            FlapsConf::Conf1F
        } else {
            FlapsConf::Conf1
        }
    }
}

/// The transition table of the flaps channel: the configuration after a
/// cycle in which the lever went from `previous_position` to `position` at
/// `airspeed` (thousandths of a knot), for a channel that held `retained`.
///
/// A lever that has moved into a detent above 1 selects the configuration
/// whose index is one more than the detent; where there is none, the cycle is
/// refused.
pub open spec fn flaps_configuration(
    previous_position: u8,
    position: u8,
    airspeed: int,
    retained: FlapsConf,
) -> Result<FlapsConf, InvalidDetent> {
    if position == 1 {
        Ok(flaps_configuration_in_detent_one(previous_position, airspeed, retained))
    } else if position == 0 {
        Ok(FlapsConf::Conf0)
    } else if previous_position != position {
        FlapsConf::spec_from_index((position + 1) as u16)
    } else {
        Ok(retained)
    }
}

/// The lever movements that the flaps channel refuses: into a detent from
/// which no configuration can be made.
pub open spec fn flaps_detent_refused(previous_position: u8, position: u8) -> bool {
    position >= 5 && previous_position != position
}

/// The state of a flaps channel.
pub struct FlapsChannelView {
    pub is_powered: bool,
    pub powered_by: ElectricalBusType,
    /// The last measured flap angle, in thousandths of a degree.
    pub feedback_angle: int,
    /// The demanded flap angle, in thousandths of a degree.
    pub demanded_angle: int,
    pub calculated_conf: FlapsConf,
    pub sfcc_id: nat,
}

impl FlapsChannelView {
    /// A new channel: without power, retracted, and with the flaps measured
    /// at zero.
    pub open spec fn initial(powered_by: ElectricalBusType, sfcc_id: nat) -> FlapsChannelView {
        FlapsChannelView {
            is_powered: false,
            powered_by,
            feedback_angle: 0,
            demanded_angle: 0,
            calculated_conf: FlapsConf::Conf0,
            sfcc_id,
        }
    }

    /// The demanded angle is the one that the held configuration demands.
    pub open spec fn wf(self) -> bool {
        self.demanded_angle == flaps_angle_of(self.calculated_conf)
    }
}

/// What a flaps channel reads in one cycle.
pub struct FlapsInputs {
    pub previous_position: u8,
    pub position: u8,
    /// The airspeed to work with, in thousandths of a knot.
    pub airspeed: int,
    /// The measured flap angle, in thousandths of a degree.
    pub feedback: int,
}

/// What a flaps channel reads from its sources in one cycle.
pub open spec fn flaps_inputs<H: HandlePositionMemory, F: PositionPickoffUnit, A: AirDataSource>(
    context: &UpdateContext,
    flaps_handle: &H,
    feedback: &F,
    adiru: &A,
) -> FlapsInputs {
    FlapsInputs {
        previous_position: flaps_handle.spec_previous_position(),
        position: flaps_handle.spec_position(),
        airspeed: resolved_airspeed(context, adiru),
        feedback: feedback.spec_angle()@,
    }
}

/// One cycle of a flaps channel: the state after it, or the refusal of the
/// lever's detent.
pub open spec fn flaps_channel_step(pre: FlapsChannelView, inputs: FlapsInputs) -> Result<
    FlapsChannelView,
    InvalidDetent,
> {
    match flaps_configuration(
        inputs.previous_position,
        inputs.position,
        inputs.airspeed,
        pre.calculated_conf,
    ) {
        Ok(conf) => Ok(
            FlapsChannelView {
                feedback_angle: inputs.feedback,
                demanded_angle: flaps_angle_of(conf),
                calculated_conf: conf,
                ..pre
            },
        ),
        Err(e) => Err(e),
    }
}

/// The flaps channel of a control computer.
#[derive(Clone, Copy, Debug, PartialEq, Eq)]
pub struct FlapsChannel {
    is_powered: bool,
    powered_by: ElectricalBusType,
    feedback_angle: Angle,
    demanded_angle: Angle,
    calculated_conf: FlapsConf,
    sfcc_id: usize,
}

impl View for FlapsChannel {
    type V = FlapsChannelView;

    closed spec fn view(&self) -> FlapsChannelView {
        FlapsChannelView {
            is_powered: self.is_powered,
            powered_by: self.powered_by,
            feedback_angle: self.feedback_angle@,
            demanded_angle: self.demanded_angle@,
            calculated_conf: self.calculated_conf,
            sfcc_id: self.sfcc_id as nat,
        }
    }
}

impl FlapsChannel {
    /// A new channel of computer `sfcc_id`, supplied by `powered_by`.
    pub fn new(powered_by: ElectricalBusType, sfcc_id: usize) -> (c: Self)
        ensures
            c@ == FlapsChannelView::initial(powered_by, sfcc_id as nat),
            c@.wf(),
    {
        FlapsChannel {
            is_powered: false,
            powered_by,
            feedback_angle: Angle::from_degrees(0),
            demanded_angle: Angle::from_degrees(0),
            calculated_conf: FlapsConf::Conf0,
            sfcc_id,
        }
    }

    /// Runs one cycle. Where the lever's detent is refused the channel is
    /// left as it was.
    pub fn update<H: HandlePositionMemory, F: PositionPickoffUnit, A: AirDataSource>(
        &mut self,
        context: &UpdateContext,
        flaps_handle: &H,
        feedback: &F,
        adiru: &A,
    ) -> (r: Result<(), InvalidDetent>)
        ensures
            flaps_channel_step(old(self)@, flaps_inputs(context, flaps_handle, feedback, adiru))
                matches Ok(post) ==> r is Ok && final(self)@ == post,
            flaps_channel_step(old(self)@, flaps_inputs(context, flaps_handle, feedback, adiru))
                matches Err(e) ==> r == Err::<(), InvalidDetent>(e) && *final(self) == *old(self),
            r is Err <==> flaps_detent_refused(
                flaps_handle.spec_previous_position(),
                flaps_handle.spec_position(),
            ),
            r is Ok ==> final(self)@.wf(),
    {
        match self.generate_configuration(context, flaps_handle, adiru) {
            Ok(conf) => {
                self.receive_signal_fppu(feedback);
                self.calculated_conf = conf;
                self.demanded_angle = demanded_flaps_angle_from_conf(conf);
                Ok(())
            },
            Err(e) => Err(e),
        }
    }

    /// Whether the measured angle is less than a hundredth of a degree from
    /// the demanded one.
    fn feedback_equals_demanded(&self) -> (b: bool)
        ensures
            b == !surface_to_be_driven(self@.demanded_angle, self@.feedback_angle),
    {
        self.demanded_angle.distance(self.feedback_angle) < EQUAL_ANGLE_DELTA_MILLIDEGREES
    }

    /// Takes in the measured flap angle.
    pub fn receive_signal_fppu<F: PositionPickoffUnit>(&mut self, feedback: &F)
        ensures
            final(self)@ == (FlapsChannelView {
                feedback_angle: feedback.spec_angle()@,
                ..old(self)@
            }),
            old(self)@.wf() ==> final(self)@.wf(),
    {
        self.feedback_angle = feedback.angle();
    }

    /// Whether the flaps are to be driven: whether the measured angle is a
    /// hundredth of a degree or more from the demanded one.
    pub fn send_signal_to_motors(&self) -> (b: bool)
        ensures
            b == surface_to_be_driven(self@.demanded_angle, self@.feedback_angle),
    {
        !self.feedback_equals_demanded()
    }

    /// Looks the next configuration up in the transition table.
    pub fn generate_configuration<H: HandlePositionMemory, A: AirDataSource>(
        &self,
        context: &UpdateContext,
        flaps_handle: &H,
        adiru: &A,
    ) -> (r: Result<FlapsConf, InvalidDetent>)
        ensures
            r == flaps_configuration(
                flaps_handle.spec_previous_position(),
                flaps_handle.spec_position(),
                resolved_airspeed(context, adiru),
                self@.calculated_conf,
            ),
            r is Err <==> flaps_detent_refused(
                flaps_handle.spec_previous_position(),
                flaps_handle.spec_position(),
            ),
    {
        let computed_airspeed: i32 = select_airspeed(context, adiru).milliknots();
        match (flaps_handle.previous_position(), flaps_handle.position()) {
            (0, 1) if computed_airspeed <= HANDLE_ONE_CONF_AIRSPEED_THRESHOLD_MILLIKNOTS => {
                Ok(FlapsConf::Conf1F)
            },
            (0, 1) => Ok(FlapsConf::Conf1),
            (1, 1) if computed_airspeed > CONF1F_TO_CONF1_AIRSPEED_THRESHOLD_MILLIKNOTS => {
                Ok(FlapsConf::Conf1)
            },
            (1, 1) => Ok(self.calculated_conf),
            (_, 1) if computed_airspeed <= CONF1F_TO_CONF1_AIRSPEED_THRESHOLD_MILLIKNOTS => {
                Ok(FlapsConf::Conf1F)
            },
            (_, 1) => Ok(FlapsConf::Conf1),
            (_, 0) => Ok(FlapsConf::Conf0),
            (from, to) if from != to => {
                let detent: u16 = to as u16;
                FlapsConf::from_index(detent + 1)
            },
            (_, _) => Ok(self.calculated_conf),
        }
    }

    /// Takes in whether the supplying bus carries power.
    pub fn receive_power<B: ElectricalBuses>(&mut self, buses: &B)
        ensures
            final(self)@ == (FlapsChannelView {
                is_powered: buses.spec_is_powered(old(self)@.powered_by),
                ..old(self)@
            }),
            old(self)@.wf() ==> final(self)@.wf(),
    {
        self.is_powered = buses.is_powered(self.powered_by);
    }

    /// Whether the supplying bus carried power when the channel last took
    /// it in.
    pub fn is_powered(&self) -> (b: bool)
        ensures
            b == self@.is_powered,
    {
        self.is_powered
    }

    /// The bus that supplies the channel.
    pub fn powered_by(&self) -> (bus: ElectricalBusType)
        ensures
            bus == self@.powered_by,
    {
        self.powered_by
    }

    /// The flap angle as last measured.
    pub fn feedback_angle(&self) -> (a: Angle)
        ensures
            a@ == self@.feedback_angle,
    {
        self.feedback_angle
    }

    /// The flap angle that the channel demands.
    pub fn demanded_angle(&self) -> (a: Angle)
        ensures
            a@ == self@.demanded_angle,
    {
        self.demanded_angle
    }

    /// The configuration that the channel holds.
    pub fn calculated_conf(&self) -> (c: FlapsConf)
        ensures
            c == self@.calculated_conf,
    {
        self.calculated_conf
    }

    /// The number of the computer that the channel belongs to.
    pub fn sfcc_id(&self) -> (id: usize)
        ensures
            id == self@.sfcc_id,
    {
        self.sfcc_id
    }
}

/// The table refuses exactly the lever movements that `flaps_detent_refused`
/// names, and the error carries the index that names no configuration: one
/// more than the detent.
pub proof fn lemma_flaps_refusal(
    previous_position: u8,
    position: u8,
    airspeed: int,
    retained: FlapsConf,
)
    ensures
        flaps_configuration(previous_position, position, airspeed, retained) is Err
            <==> flaps_detent_refused(previous_position, position),
        flaps_detent_refused(previous_position, position) ==> flaps_configuration(
            previous_position,
            position,
            airspeed,
            retained,
        ) == Err::<FlapsConf, InvalidDetent>(InvalidDetent { index: (position + 1) as u16 }),
{
}

/// A cycle that is run again on what it read before changes nothing more.
pub proof fn lemma_flaps_channel_step_idempotent(pre: FlapsChannelView, inputs: FlapsInputs)
    ensures
        flaps_channel_step(pre, inputs) matches Ok(post) ==> flaps_channel_step(post, inputs)
            == Ok::<FlapsChannelView, InvalidDetent>(post),
{
}

/// A lever that has just reached detent 1 extends the flaps if the airspeed
/// is low enough: up to 100 kt where it comes out of detent 0, up to 210 kt
/// where it comes back from a detent above 1. Above that the flaps are left
/// in, or taken in.
pub proof fn lemma_flaps_lever_into_detent_one(pre: FlapsChannelView, inputs: FlapsInputs)
    requires
        inputs.position == 1,
        inputs.previous_position != 1,
    ensures
        inputs.previous_position == 0 && inputs.airspeed <= 100_000 ==> (flaps_channel_step(
            pre,
            inputs,
        ) matches Ok(post) && post.calculated_conf == FlapsConf::Conf1F && post.demanded_angle
            == 10_000),
        inputs.previous_position == 0 && inputs.airspeed > 100_000 ==> (flaps_channel_step(
            pre,
            inputs,
        ) matches Ok(post) && post.calculated_conf == FlapsConf::Conf1 && post.demanded_angle
            == 0),
        inputs.previous_position > 1 && inputs.airspeed <= 210_000 ==> (flaps_channel_step(
            pre,
            inputs,
        ) matches Ok(post) && post.calculated_conf == FlapsConf::Conf1F && post.demanded_angle
            == 10_000),
        inputs.previous_position > 1 && inputs.airspeed > 210_000 ==> (flaps_channel_step(
            pre,
            inputs,
        ) matches Ok(post) && post.calculated_conf == FlapsConf::Conf1 && post.demanded_angle
            == 0),
{
}

/// While the lever rests in detent 1, an airspeed above 210 kt retracts the
/// flaps, whatever configuration the channel held.
pub proof fn lemma_flaps_retract_above_threshold(pre: FlapsChannelView, inputs: FlapsInputs)
    requires
        inputs.previous_position == 1,
        inputs.position == 1,
        inputs.airspeed > 210_000,
    ensures
        flaps_channel_step(pre, inputs) matches Ok(post) && post.calculated_conf
            == FlapsConf::Conf1 && post.demanded_angle == 0,
{
}

/// While the lever rests in a detent and the airspeed does not exceed 210 kt,
/// the channel keeps its configuration; in detent 0 that configuration is the
/// retracted one.
pub proof fn lemma_flaps_lever_at_rest(pre: FlapsChannelView, inputs: FlapsInputs)
    requires
        inputs.previous_position == inputs.position,
        inputs.airspeed <= 210_000,
    ensures
        inputs.position == 0 ==> (flaps_channel_step(pre, inputs) matches Ok(post)
            && post.calculated_conf == FlapsConf::Conf0),
        inputs.position != 0 ==> (flaps_channel_step(pre, inputs) matches Ok(post)
            && post.calculated_conf == pre.calculated_conf),
{
}

/// After a cycle the flaps are to be driven exactly if the angle that the new
/// configuration demands is a hundredth of a degree or more from the angle
/// measured in that cycle.
pub proof fn lemma_flaps_drive_signal(pre: FlapsChannelView, inputs: FlapsInputs)
    ensures
        flaps_channel_step(pre, inputs) matches Ok(post) ==> post.wf() && (surface_to_be_driven(
            post.demanded_angle,
            post.feedback_angle,
        ) <==> flaps_angle_of(post.calculated_conf) - inputs.feedback >= 10 || inputs.feedback
            - flaps_angle_of(post.calculated_conf) >= 10),
{
}

} // verus!
