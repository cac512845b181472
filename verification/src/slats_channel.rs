//! The slats channel of a control computer, with its alpha lock.
//!
//! The slats follow the lever. The one exception is the alpha lock: while it
//! is engaged, a lever that is moved back to detent 0 does not retract the
//! slats. The lock has two triggers, low airspeed and high angle of attack,
//! each with a dead band between the value that sets it and the value that
//! clears it.

use vstd::prelude::*;
use crate::conf::{
    demanded_slats_angle_from_conf, slats_angle_of, surface_to_be_driven, FlapsConf,
    InvalidDetent, EQUAL_ANGLE_DELTA_MILLIDEGREES,
};
use crate::power::{ElectricalBusType, ElectricalBuses};
use crate::sources::{
    resolved_airspeed, resolved_alpha, select_airspeed, select_alpha, AirDataSource,
    HandlePositionMemory, PositionPickoffUnit, UpdateContext,
};
use crate::units::Angle;

verus! {

/// Below this airspeed the speed trigger is set. In thousandths of a knot.
pub const ALPHA_LOCK_ENGAGE_SPEED_MILLIKNOTS: i32 = 148_000;

/// Above this airspeed the speed trigger is cleared. In thousandths of a knot.
pub const ALPHA_LOCK_DISENGAGE_SPEED_MILLIKNOTS: i32 = 154_000;

/// Above this angle of attack the alpha trigger is set. In thousandths of a
/// degree.
pub const ALPHA_LOCK_ENGAGE_ALPHA_MILLIDEGREES: i32 = 8_600;

/// Below this angle of attack the alpha trigger is cleared. In thousandths of
/// a degree.
pub const ALPHA_LOCK_DISENGAGE_ALPHA_MILLIDEGREES: i32 = 7_600;

/// On the ground and below this airspeed the lock does not engage. In
/// thousandths of a knot.
pub const ALPHA_LOCK_INHIBIT_SPEED_MILLIKNOTS: i32 = 60_000;

/// The speed trigger after a cycle at `airspeed` (thousandths of a knot):
/// set below 148 kt, cleared above 154 kt, and in between as it was.
pub open spec fn speed_trigger(held: bool, airspeed: int) -> bool {
    if airspeed < 148_000 {
        true
    } else if airspeed > 154_000 {
        false
    } else {
        held
    }
}

/// The alpha trigger after a cycle at angle of attack `alpha` (thousandths of
/// a degree): set above 8.6°, cleared below 7.6°, and in between as it was.
pub open spec fn alpha_trigger(held: bool, alpha: int) -> bool {
    if alpha > 8_600 {
        true
    } else if alpha < 7_600 {
        false
    } else {
        held
    }
}

/// Whether a lock that is not engaged may engage: the lever is out of detent
/// 0, and the aircraft is not both on the ground and slower than 60 kt.
pub open spec fn alpha_lock_may_engage(position: u8, is_on_ground: bool, airspeed: int) -> bool {
    position > 0 && !(is_on_ground && airspeed < 60_000)
}

/// The lock after a cycle, from what it was and the two triggers as they
/// have become. A lock that is engaged stays so for as long as a trigger is
/// set, whatever the lever and the ground say.
pub open spec fn alpha_lock(held: bool, triggered: bool, may_engage: bool) -> bool {
    if held {
        triggered
    } else {
        triggered && may_engage
    }
}

/// The slat configuration for a lever in detent 0: retracted, unless the
/// slats are held.
pub open spec fn slats_conf_at_zero(held: bool) -> FlapsConf {
    if held {
        FlapsConf::Conf1
    } else {
        FlapsConf::Conf0
    }
}

/// The slat configuration for a lever that went from `previous_position` to
/// `position`, under the alpha lock as it stands after this cycle's check.
///
/// A lever out of detent 0 selects the configuration whose index is the
/// detent; where there is none, the cycle is refused. A lever in detent 0
/// retracts the slats, but in the cycle in which it arrives there the lock,
/// if engaged, holds them. The configuration held before plays no part.
pub open spec fn slats_configuration(
    previous_position: u8,
    position: u8,
    alpha_lock_engaged: bool,
) -> Result<FlapsConf, InvalidDetent> {
    if position != 0 {
        FlapsConf::spec_from_index(position as u16)
    } else {
        Ok(slats_conf_at_zero(alpha_lock_engaged && previous_position > 0))
    }
}

/// The lever positions that the slats channel refuses.
pub open spec fn slats_detent_refused(position: u8) -> bool {
    position > 5
}

/// The state of a slats channel.
pub struct SlatsChannelView {
    pub is_powered: bool,
    pub powered_by: ElectricalBusType,
    /// The last measured slat angle, in thousandths of a degree.
    pub feedback_angle: int,
    /// The demanded slat angle, in thousandths of a degree.
    pub demanded_angle: int,
    pub calculated_conf: FlapsConf,
    pub is_on_ground: bool,
    pub alpha_lock_engaged: bool,
    pub alpha_lock_engaged_alpha: bool,
    pub alpha_lock_engaged_speed: bool,
    pub sfcc_id: nat,
}

impl SlatsChannelView {
    /// A new channel: without power, retracted, on the ground, the lock and
    /// its triggers clear, and with the slats measured at zero.
    pub open spec fn initial(powered_by: ElectricalBusType, sfcc_id: nat) -> SlatsChannelView {
        SlatsChannelView {
            is_powered: false,
            powered_by,
            feedback_angle: 0,
            demanded_angle: 0,
            calculated_conf: FlapsConf::Conf0,
            is_on_ground: true,
            alpha_lock_engaged: false,
            alpha_lock_engaged_alpha: false,
            alpha_lock_engaged_speed: false,
            sfcc_id,
        }
    }

    /// The demanded angle is the one that the held configuration demands,
    /// and the lock is engaged only while one of its triggers is set.
    pub open spec fn wf(self) -> bool {
        &&& self.demanded_angle == slats_angle_of(self.calculated_conf)
        &&& self.alpha_lock_engaged ==> (self.alpha_lock_engaged_alpha
            || self.alpha_lock_engaged_speed)
    }
}

/// What a slats channel reads in one cycle.
pub struct SlatsInputs {
    pub previous_position: u8,
    pub position: u8,
    /// The airspeed to work with, in thousandths of a knot.
    pub airspeed: int,
    /// The angle of attack to work with, in thousandths of a degree.
    pub alpha: int,
    /// The measured slat angle, in thousandths of a degree.
    pub feedback: int,
    pub is_on_ground: bool,
}

/// What a slats channel reads from its sources in one cycle.
pub open spec fn slats_inputs<H: HandlePositionMemory, F: PositionPickoffUnit, A: AirDataSource>(
    context: &UpdateContext,
    flaps_handle: &H,
    feedback: &F,
    adiru: &A,
    is_on_ground: bool,
) -> SlatsInputs {
    SlatsInputs {
        previous_position: flaps_handle.spec_previous_position(),
        position: flaps_handle.spec_position(),
        airspeed: resolved_airspeed(context, adiru),
        alpha: resolved_alpha(context, adiru),
        feedback: feedback.spec_angle()@,
        is_on_ground,
    }
}

/// The channel after the check of its alpha lock: both triggers are brought
/// up to date first, then the lock itself.
pub open spec fn alpha_lock_checked(
    pre: SlatsChannelView,
    position: u8,
    airspeed: int,
    alpha: int,
) -> SlatsChannelView {
    let by_speed = speed_trigger(pre.alpha_lock_engaged_speed, airspeed);
    let by_alpha = alpha_trigger(pre.alpha_lock_engaged_alpha, alpha);
    SlatsChannelView {
        alpha_lock_engaged: alpha_lock(
            pre.alpha_lock_engaged,
            by_alpha || by_speed,
            alpha_lock_may_engage(position, pre.is_on_ground, airspeed),
        ),
        alpha_lock_engaged_alpha: by_alpha,
        alpha_lock_engaged_speed: by_speed,
        ..pre
    }
}

/// One cycle of a slats channel: the state after it, or the refusal of the
/// lever's detent. The ground state that the cycle is given is the one that
/// the check of the lock sees.
pub open spec fn slats_channel_step(pre: SlatsChannelView, inputs: SlatsInputs) -> Result<
    SlatsChannelView,
    InvalidDetent,
> {
    let checked = alpha_lock_checked(
        SlatsChannelView {
            feedback_angle: inputs.feedback,
            is_on_ground: inputs.is_on_ground,
            ..pre
        },
        inputs.position,
        inputs.airspeed,
        inputs.alpha,
    );
    match slats_configuration(
        inputs.previous_position,
        inputs.position,
        checked.alpha_lock_engaged,
    ) {
        Ok(conf) => Ok(
            SlatsChannelView {
                demanded_angle: slats_angle_of(conf),
                calculated_conf: conf,
                ..checked
            },
        ),
        Err(e) => Err(e),
    }
}

/// The slats channel of a control computer.
#[derive(Clone, Copy, Debug, PartialEq, Eq)]
pub struct SlatsChannel {
    is_powered: bool,
    powered_by: ElectricalBusType,
    feedback_angle: Angle,
    demanded_angle: Angle,
    calculated_conf: FlapsConf,
    is_on_ground: bool,
    alpha_lock_engaged: bool,
    alpha_lock_engaged_alpha: bool,
    alpha_lock_engaged_speed: bool,
    sfcc_id: usize,
}

impl View for SlatsChannel {
    type V = SlatsChannelView;

    closed spec fn view(&self) -> SlatsChannelView {
        SlatsChannelView {
            is_powered: self.is_powered,
            powered_by: self.powered_by,
            feedback_angle: self.feedback_angle@,
            demanded_angle: self.demanded_angle@,
            calculated_conf: self.calculated_conf,
            is_on_ground: self.is_on_ground,
            alpha_lock_engaged: self.alpha_lock_engaged,
            alpha_lock_engaged_alpha: self.alpha_lock_engaged_alpha,
            alpha_lock_engaged_speed: self.alpha_lock_engaged_speed,
            sfcc_id: self.sfcc_id as nat,
        }
    }
}

impl SlatsChannel {
    /// A new channel of computer `sfcc_id`, supplied by `powered_by`.
    pub fn new(powered_by: ElectricalBusType, sfcc_id: usize) -> (c: Self)
        ensures
            c@ == SlatsChannelView::initial(powered_by, sfcc_id as nat),
            c@.wf(),
    {
        SlatsChannel {
            is_powered: false,
            powered_by,
            feedback_angle: Angle::from_degrees(0),
            demanded_angle: Angle::from_degrees(0),
            calculated_conf: FlapsConf::Conf0,
            is_on_ground: true,
            alpha_lock_engaged: false,
            alpha_lock_engaged_alpha: false,
            alpha_lock_engaged_speed: false,
            sfcc_id,
        }
    }

    /// Runs one cycle. The cycle is worked out on a copy, which takes the
    /// channel's place only if the lever's detent is accepted: where it is
    /// refused the channel is left as it was.
    pub fn update<H: HandlePositionMemory, F: PositionPickoffUnit, A: AirDataSource>(
        &mut self,
        context: &UpdateContext,
        flaps_handle: &H,
        feedback: &F,
        adiru: &A,
        is_on_ground: bool,
    ) -> (r: Result<(), InvalidDetent>)
        ensures
            slats_channel_step(
                old(self)@,
                slats_inputs(context, flaps_handle, feedback, adiru, is_on_ground),
            ) matches Ok(post) ==> r is Ok && final(self)@ == post,
            slats_channel_step(
                old(self)@,
                slats_inputs(context, flaps_handle, feedback, adiru, is_on_ground),
            ) matches Err(e) ==> r == Err::<(), InvalidDetent>(e) && *final(self) == *old(self),
            r is Err <==> slats_detent_refused(flaps_handle.spec_position()),
            r is Ok ==> final(self)@.wf(),
    {
        let mut next = *self;
        next.receive_signal_fppu(feedback);
        next.update_is_on_ground(is_on_ground);
        next.alpha_lock_check(context, flaps_handle, adiru);
        match next.generate_configuration(flaps_handle) {
            Ok(conf) => {
                next.calculated_conf = conf;
                next.demanded_angle = demanded_slats_angle_from_conf(conf);
                *self = next;
                Ok(())
            },
            Err(e) => Err(e),
        }
    }

    /// Takes in whether the aircraft is on the ground.
    pub fn update_is_on_ground(&mut self, is_on_ground: bool)
        ensures
            final(self)@ == (SlatsChannelView { is_on_ground, ..old(self)@ }),
            old(self)@.wf() ==> final(self)@.wf(),
    {
        self.is_on_ground = is_on_ground;
    }

    /// Whether the measured angle is less than a hundredth of a degree from
    /// the demanded one.
    fn feedback_equals_demanded(&self) -> (b: bool)
        ensures
            b == !surface_to_be_driven(self@.demanded_angle, self@.feedback_angle),
    {
        self.demanded_angle.distance(self.feedback_angle) < EQUAL_ANGLE_DELTA_MILLIDEGREES
    }

    /// Brings the two triggers of the alpha lock up to date, and then the
    /// lock itself.
    pub fn alpha_lock_check<H: HandlePositionMemory, A: AirDataSource>(
        &mut self,
        context: &UpdateContext,
        flaps_handle: &H,
        adiru: &A,
    )
        ensures
            final(self)@ == alpha_lock_checked(
                old(self)@,
                flaps_handle.spec_position(),
                resolved_airspeed(context, adiru),
                resolved_alpha(context, adiru),
            ),
            old(self)@.wf() ==> final(self)@.wf(),
    {
        let airspeed: i32 = select_airspeed(context, adiru).milliknots();
        let alpha: i32 = select_alpha(context, adiru).millidegrees();

        match self.alpha_lock_engaged_speed {
            true => if airspeed > ALPHA_LOCK_DISENGAGE_SPEED_MILLIKNOTS {
                self.alpha_lock_engaged_speed = false;
            },
            false => if airspeed < ALPHA_LOCK_ENGAGE_SPEED_MILLIKNOTS {
                self.alpha_lock_engaged_speed = true;
            },
        }

        match self.alpha_lock_engaged_alpha {
            true => if alpha < ALPHA_LOCK_DISENGAGE_ALPHA_MILLIDEGREES {
                self.alpha_lock_engaged_alpha = false;
            },
            false => if alpha > ALPHA_LOCK_ENGAGE_ALPHA_MILLIDEGREES {
                self.alpha_lock_engaged_alpha = true;
            },
        }

        match self.alpha_lock_engaged {
            false => if (self.alpha_lock_engaged_alpha || self.alpha_lock_engaged_speed)
                && flaps_handle.position() > 0 && !(self.is_on_ground && airspeed
                < ALPHA_LOCK_INHIBIT_SPEED_MILLIKNOTS) {
                self.alpha_lock_engaged = true;
            },
            true => {
                self.alpha_lock_engaged = self.alpha_lock_engaged_speed
                    || self.alpha_lock_engaged_alpha;
            },
        }
    }

    /// Takes in the measured slat angle.
    pub fn receive_signal_fppu<F: PositionPickoffUnit>(&mut self, feedback: &F)
        ensures
            final(self)@ == (SlatsChannelView {
                feedback_angle: feedback.spec_angle()@,
                ..old(self)@
            }),
            old(self)@.wf() ==> final(self)@.wf(),
    {
        self.feedback_angle = feedback.angle();
    }

    /// Whether the slats are to be driven: whether the measured angle is a
    /// hundredth of a degree or more from the demanded one.
    pub fn send_signal_to_motors(&self) -> (b: bool)
        ensures
            b == surface_to_be_driven(self@.demanded_angle, self@.feedback_angle),
    {
        !self.feedback_equals_demanded()
    }

    /// Looks the next configuration up, under the alpha lock as it stands.
    pub fn generate_configuration<H: HandlePositionMemory>(&self, flaps_handle: &H) -> (r: Result<
        FlapsConf,
        InvalidDetent,
    >)
        ensures
            r == slats_configuration(
                flaps_handle.spec_previous_position(),
                flaps_handle.spec_position(),
                self@.alpha_lock_engaged,
            ),
            r is Err <==> slats_detent_refused(flaps_handle.spec_position()),
    {
        match (flaps_handle.previous_position(), flaps_handle.position()) {
            (_, to) if to != 0 => FlapsConf::from_index(to as u16),
            (from, 0) if self.alpha_lock_engaged && from > 0 => Ok(FlapsConf::Conf1),
            (_, 0) => Ok(FlapsConf::Conf0),
            // The arms above leave no lever position over.
            (_, _) => Ok(self.calculated_conf),
        }
    }

    /// Takes in whether the supplying bus carries power.
    pub fn receive_power<B: ElectricalBuses>(&mut self, buses: &B)
        ensures
            final(self)@ == (SlatsChannelView {
                is_powered: buses.spec_is_powered(old(self)@.powered_by),
                ..old(self)@
            }),
            old(self)@.wf() ==> final(self)@.wf(),
    {
        self.is_powered = buses.is_powered(self.powered_by);
    }

    /// Whether the supplying bus carried power when the channel last took
    /// it in.
    pub fn is_powered(&self) -> (b: bool)
        ensures
            b == self@.is_powered,
    {
        self.is_powered
    }

    /// The bus that supplies the channel.
    pub fn powered_by(&self) -> (bus: ElectricalBusType)
        ensures
            bus == self@.powered_by,
    {
        self.powered_by
    }

    /// The slat angle as last measured.
    pub fn feedback_angle(&self) -> (a: Angle)
        ensures
            a@ == self@.feedback_angle,
    {
        self.feedback_angle
    }

    /// The slat angle that the channel demands.
    pub fn demanded_angle(&self) -> (a: Angle)
        ensures
            a@ == self@.demanded_angle,
    {
        self.demanded_angle
    }

    /// The configuration that the channel holds.
    pub fn calculated_conf(&self) -> (c: FlapsConf)
        ensures
            c == self@.calculated_conf,
    {
        self.calculated_conf
    }

    /// Whether the aircraft was on the ground when the channel last took
    /// that in.
    pub fn is_on_ground(&self) -> (b: bool)
        ensures
            b == self@.is_on_ground,
    {
        self.is_on_ground
    }

    /// Whether the alpha lock is engaged.
    pub fn alpha_lock_engaged(&self) -> (b: bool)
        ensures
            b == self@.alpha_lock_engaged,
    {
        self.alpha_lock_engaged
    }

    /// Whether the alpha trigger of the lock is set.
    pub fn alpha_lock_engaged_alpha(&self) -> (b: bool)
        ensures
            b == self@.alpha_lock_engaged_alpha,
    {
        self.alpha_lock_engaged_alpha
    }

    /// Whether the speed trigger of the lock is set.
    pub fn alpha_lock_engaged_speed(&self) -> (b: bool)
        ensures
            b == self@.alpha_lock_engaged_speed,
    {
        self.alpha_lock_engaged_speed
    }

    /// The number of the computer that the channel belongs to.
    pub fn sfcc_id(&self) -> (id: usize)
        ensures
            id == self@.sfcc_id,
    {
        self.sfcc_id
    }
}

/// A cycle that is run again on what it read before changes nothing more:
/// neither the configuration, nor the demanded angle, nor the lock or its
/// triggers.
pub proof fn lemma_slats_channel_step_idempotent(pre: SlatsChannelView, inputs: SlatsInputs)
    ensures
        slats_channel_step(pre, inputs) matches Ok(post) ==> slats_channel_step(post, inputs)
            == Ok::<SlatsChannelView, InvalidDetent>(post),
{
}

/// Every check of the lock leaves it engaged only with a trigger set.
pub proof fn lemma_alpha_lock_needs_trigger(
    pre: SlatsChannelView,
    position: u8,
    airspeed: int,
    alpha: int,
)
    ensures
        ({
            let post = alpha_lock_checked(pre, position, airspeed, alpha);
            post.alpha_lock_engaged ==> (post.alpha_lock_engaged_alpha
                || post.alpha_lock_engaged_speed)
        }),
{
}

/// A lock that is not engaged engages in a check exactly if a trigger is
/// then set, the lever is out of detent 0, and the aircraft is not both on
/// the ground and slower than 60 kt.
pub proof fn lemma_alpha_lock_engagement(
    pre: SlatsChannelView,
    position: u8,
    airspeed: int,
    alpha: int,
)
    requires
        !pre.alpha_lock_engaged,
    ensures
        ({
            let post = alpha_lock_checked(pre, position, airspeed, alpha);
            post.alpha_lock_engaged <==> (post.alpha_lock_engaged_alpha
                || post.alpha_lock_engaged_speed) && position > 0 && !(pre.is_on_ground
                && airspeed < 60_000)
        }),
{
}

/// An angle of attack above 8.6° engages the lock, or keeps it engaged,
/// where the lever is out of detent 0 and the aircraft is not both on the
/// ground and slower than 60 kt.
pub proof fn lemma_alpha_lock_engages_on_high_alpha(
    pre: SlatsChannelView,
    position: u8,
    airspeed: int,
    alpha: int,
)
    requires
        alpha > 8_600,
        position > 0,
        !(pre.is_on_ground && airspeed < 60_000),
    ensures
        alpha_lock_checked(pre, position, airspeed, alpha).alpha_lock_engaged,
        alpha_lock_checked(pre, position, airspeed, alpha).alpha_lock_engaged_alpha,
{
}

/// A lock that is engaged follows its triggers: after a check it is engaged
/// exactly if one of them is set. Neither the lever nor the ground state
/// has a say.
pub proof fn lemma_engaged_alpha_lock_tracks_triggers(
    pre: SlatsChannelView,
    position: u8,
    airspeed: int,
    alpha: int,
)
    requires
        pre.alpha_lock_engaged,
    ensures
        ({
            let post = alpha_lock_checked(pre, position, airspeed, alpha);
            post.alpha_lock_engaged == (post.alpha_lock_engaged_alpha
                || post.alpha_lock_engaged_speed)
        }),
{
}

/// A lock that is engaged stays so while the angle of attack has not fallen
/// below 7.6° and the airspeed has not risen above 154 kt: the trigger that
/// held it is still set.
pub proof fn lemma_alpha_lock_stays_engaged(
    pre: SlatsChannelView,
    position: u8,
    airspeed: int,
    alpha: int,
)
    requires
        pre.wf(),
        pre.alpha_lock_engaged,
        alpha >= 7_600,
        airspeed <= 154_000,
    ensures
        alpha_lock_checked(pre, position, airspeed, alpha).alpha_lock_engaged,
{
}

/// A lock that the alpha trigger holds stays engaged when the angle of
/// attack drops back, for as long as it has not fallen below 7.6°, at any
/// airspeed.
pub proof fn lemma_alpha_lock_outlasts_alpha(
    pre: SlatsChannelView,
    position: u8,
    airspeed: int,
    alpha: int,
)
    requires
        pre.alpha_lock_engaged,
        pre.alpha_lock_engaged_alpha,
        alpha >= 7_600,
    ensures
        alpha_lock_checked(pre, position, airspeed, alpha).alpha_lock_engaged,
{
}

/// An angle of attack below 7.6° together with an airspeed above 154 kt
/// clears both triggers and with them the lock.
pub proof fn lemma_alpha_lock_releases(
    pre: SlatsChannelView,
    position: u8,
    airspeed: int,
    alpha: int,
)
    requires
        alpha < 7_600,
        airspeed > 154_000,
    ensures
        ({
            let post = alpha_lock_checked(pre, position, airspeed, alpha);
            !post.alpha_lock_engaged && !post.alpha_lock_engaged_alpha
                && !post.alpha_lock_engaged_speed
        }),
{
}

/// A lever in detent 0 retracts the slats, unless it has just come out of
/// another detent and the lock is engaged after this cycle's check: then the
/// slats are held at 18°.
pub proof fn lemma_slats_lever_at_zero(pre: SlatsChannelView, inputs: SlatsInputs)
    requires
        inputs.position == 0,
    ensures
        slats_channel_step(pre, inputs) matches Ok(post)
            && post.calculated_conf == slats_conf_at_zero(
                post.alpha_lock_engaged && inputs.previous_position > 0,
            )
            && post.demanded_angle == slats_angle_of(post.calculated_conf),
        slats_angle_of(FlapsConf::Conf1) == 18_000,
        slats_angle_of(FlapsConf::Conf0) == 0,
{
}

/// After a cycle the slats are to be driven exactly if the angle that the new
/// configuration demands is a hundredth of a degree or more from the angle
/// measured in that cycle.
pub proof fn lemma_slats_drive_signal(pre: SlatsChannelView, inputs: SlatsInputs)
    ensures
        slats_channel_step(pre, inputs) matches Ok(post) ==> post.wf() && (surface_to_be_driven(
            post.demanded_angle,
            post.feedback_angle,
        ) <==> slats_angle_of(post.calculated_conf) - inputs.feedback >= 10 || inputs.feedback
            - slats_angle_of(post.calculated_conf) >= 10),
{
}

} // verus!
