//! One slats/flaps control computer: a flaps channel, a slats channel and
//! the ground state that the computer takes from its landing-gear unit.

use vstd::prelude::*;
use crate::arinc429::{Arinc429Word, SignStatus};
use crate::conf::{slats_angle_of, surface_to_be_driven, FlapsConf, InvalidDetent};
use crate::flaps_channel::{
    flaps_channel_step, flaps_detent_refused, FlapsChannel, FlapsChannelView, FlapsInputs,
};
use crate::power::{ElectricalBusType, ElectricalBuses};
use crate::slats_channel::{
    slats_channel_step, slats_conf_at_zero, slats_detent_refused, SlatsChannel, SlatsChannelView,
    SlatsInputs,
};
use crate::sources::{
    resolved_airspeed, resolved_alpha, AirDataSource, HandlePositionMemory, LgciuSensors,
    PositionPickoffUnit, UpdateContext,
};
use crate::units::Angle;

verus! {

/// The state of a control computer.
pub struct SfccView {
    pub flaps_channel: FlapsChannelView,
    pub slats_channel: SlatsChannelView,
    pub is_on_ground: bool,
    pub sfcc_id: nat,
}

impl SfccView {
    /// A new computer: on the ground, with a new channel on each of the two
    /// buses.
    pub open spec fn initial(
        sfcc_id: nat,
        flaps_channel_bus: ElectricalBusType,
        slats_channel_bus: ElectricalBusType,
    ) -> SfccView {
        SfccView {
            flaps_channel: FlapsChannelView::initial(flaps_channel_bus, sfcc_id),
            slats_channel: SlatsChannelView::initial(slats_channel_bus, sfcc_id),
            is_on_ground: true,
            sfcc_id,
        }
    }

    /// Both channels are well formed, both bear the number of the computer,
    /// and the slats channel has the ground state that the computer has.
    pub open spec fn wf(self) -> bool {
        &&& self.flaps_channel.wf()
        &&& self.slats_channel.wf()
        &&& self.flaps_channel.sfcc_id == self.sfcc_id
        &&& self.slats_channel.sfcc_id == self.sfcc_id
        &&& self.slats_channel.is_on_ground == self.is_on_ground
    }
}

/// What a control computer reads in one cycle.
pub struct SfccInputs {
    pub previous_position: u8,
    pub position: u8,
    /// The airspeed for the flaps channel, in thousandths of a knot.
    pub flaps_airspeed: int,
    /// The airspeed for the slats channel, in thousandths of a knot.
    pub slats_airspeed: int,
    /// The angle of attack, in thousandths of a degree.
    pub alpha: int,
    /// Whether a leg of the main gear is compressed.
    pub is_on_ground: bool,
    /// The measured flap angle, in thousandths of a degree.
    pub flaps_feedback: int,
    /// The measured slat angle, in thousandths of a degree.
    pub slats_feedback: int,
}

impl SfccInputs {
    /// The part that the flaps channel reads.
    pub open spec fn flaps(self) -> FlapsInputs {
        FlapsInputs {
            previous_position: self.previous_position,
            position: self.position,
            airspeed: self.flaps_airspeed,
            feedback: self.flaps_feedback,
        }
    }

    /// The part that the slats channel reads.
    pub open spec fn slats(self) -> SlatsInputs {
        SlatsInputs {
            previous_position: self.previous_position,
            position: self.position,
            airspeed: self.slats_airspeed,
            alpha: self.alpha,
            feedback: self.slats_feedback,
            is_on_ground: self.is_on_ground,
        }
    }
}

/// What a control computer reads from its sources in one cycle. The flaps
/// channel works with the first air-data unit, the slats channel with the
/// second; the aircraft counts as on the ground when one leg of the main
/// gear is compressed.
pub open spec fn sfcc_inputs<
    H: HandlePositionMemory,
    A: AirDataSource,
    L: LgciuSensors,
    FF: PositionPickoffUnit,
    SF: PositionPickoffUnit,
>(
    context: &UpdateContext,
    flaps_handle: &H,
    adirus: [&A; 2],
    lgciu: &L,
    flaps_fppu: &FF,
    slats_fppu: &SF,
) -> SfccInputs {
    SfccInputs {
        previous_position: flaps_handle.spec_previous_position(),
        position: flaps_handle.spec_position(),
        flaps_airspeed: resolved_airspeed(context, adirus[0]),
        slats_airspeed: resolved_airspeed(context, adirus[1]),
        alpha: resolved_alpha(context, adirus[1]),
        is_on_ground: lgciu.spec_left_and_right_gear_compressed(false),
        flaps_feedback: flaps_fppu.spec_angle()@,
        slats_feedback: slats_fppu.spec_angle()@,
    }
}

/// The lever movements that a control computer refuses: those that one of
/// its channels refuses.
pub open spec fn sfcc_detent_refused(previous_position: u8, position: u8) -> bool {
    flaps_detent_refused(previous_position, position) || slats_detent_refused(position)
}

/// One cycle of a control computer: the ground state is taken in, then the
/// flaps channel runs, then the slats channel, which sees the new ground
/// state. A refusal by either channel refuses the whole cycle.
pub open spec fn sfcc_step(pre: SfccView, inputs: SfccInputs) -> Result<SfccView, InvalidDetent> {
    match flaps_channel_step(pre.flaps_channel, inputs.flaps()) {
        Ok(flaps_channel) => match slats_channel_step(pre.slats_channel, inputs.slats()) {
            Ok(slats_channel) => Ok(
                SfccView {
                    flaps_channel,
                    slats_channel,
                    is_on_ground: inputs.is_on_ground,
                    ..pre
                },
            ),
            Err(e) => Err(e),
        },
        Err(e) => Err(e),
    }
}

/// A computer after it took in which buses carry power.
pub open spec fn powered<B: ElectricalBuses>(pre: SfccView, buses: &B) -> SfccView {
    SfccView {
        flaps_channel: FlapsChannelView {
            is_powered: buses.spec_is_powered(pre.flaps_channel.powered_by),
            ..pre.flaps_channel
        },
        slats_channel: SlatsChannelView {
            is_powered: buses.spec_is_powered(pre.slats_channel.powered_by),
            ..pre.slats_channel
        },
        ..pre
    }
}

/// What a control computer puts out after a cycle.
#[derive(Clone, Copy, Debug, PartialEq, Eq, Structural)]
pub struct SfccOutputs {
    pub flaps_demanded_angle: Angle,
    pub slats_demanded_angle: Angle,
    pub alpha_lock_engaged: bool,
    /// Whether the flaps are to be driven.
    pub flaps_signal_to_motors: bool,
    /// Whether the slats are to be driven.
    pub slats_signal_to_motors: bool,
}

/// What a control computer puts out, with the angles in thousandths of a
/// degree.
pub struct SfccOutputsView {
    pub flaps_demanded_angle: int,
    pub slats_demanded_angle: int,
    pub alpha_lock_engaged: bool,
    pub flaps_signal_to_motors: bool,
    pub slats_signal_to_motors: bool,
}

impl View for SfccOutputs {
    type V = SfccOutputsView;

    open spec fn view(&self) -> SfccOutputsView {
        SfccOutputsView {
            flaps_demanded_angle: self.flaps_demanded_angle@,
            slats_demanded_angle: self.slats_demanded_angle@,
            alpha_lock_engaged: self.alpha_lock_engaged,
            flaps_signal_to_motors: self.flaps_signal_to_motors,
            slats_signal_to_motors: self.slats_signal_to_motors,
        }
    }
}

/// What a computer in state `state` puts out: both demanded angles, the
/// alpha lock, and for each surface whether it is to be driven.
pub open spec fn sfcc_outputs(state: SfccView) -> SfccOutputsView {
    SfccOutputsView {
        flaps_demanded_angle: state.flaps_channel.demanded_angle,
        slats_demanded_angle: state.slats_channel.demanded_angle,
        alpha_lock_engaged: state.slats_channel.alpha_lock_engaged,
        flaps_signal_to_motors: surface_to_be_driven(
            state.flaps_channel.demanded_angle,
            state.flaps_channel.feedback_angle,
        ),
        slats_signal_to_motors: surface_to_be_driven(
            state.slats_channel.demanded_angle,
            state.slats_channel.feedback_angle,
        ),
    }
}

/// A slats/flaps control computer.
#[derive(Clone, Copy, Debug, PartialEq, Eq)]
pub struct SlatsFlapsControlComputer {
    flaps_channel: FlapsChannel,
    slats_channel: SlatsChannel,
    is_on_ground: bool,
    sfcc_id: usize,
}

impl View for SlatsFlapsControlComputer {
    type V = SfccView;

    closed spec fn view(&self) -> SfccView {
        SfccView {
            flaps_channel: self.flaps_channel@,
            slats_channel: self.slats_channel@,
            is_on_ground: self.is_on_ground,
            sfcc_id: self.sfcc_id as nat,
        }
    }
}

impl SlatsFlapsControlComputer {
    /// A new computer `sfcc_id`, its channels supplied by the two buses.
    pub fn new(
        sfcc_id: usize,
        flaps_channel_bus: ElectricalBusType,
        slats_channel_bus: ElectricalBusType,
    ) -> (c: Self)
        ensures
            c@ == SfccView::initial(sfcc_id as nat, flaps_channel_bus, slats_channel_bus),
            c@.wf(),
    {
        SlatsFlapsControlComputer {
            flaps_channel: FlapsChannel::new(flaps_channel_bus, sfcc_id),
            slats_channel: SlatsChannel::new(slats_channel_bus, sfcc_id),
            is_on_ground: true,
            sfcc_id,
        }
    }

    /// Runs one cycle of both channels. Both are worked out on copies, which
    /// take the channels' place only if the lever's detent is accepted by
    /// both: where it is refused the computer is left as it was.
    pub fn update<
        H: HandlePositionMemory,
        A: AirDataSource,
        L: LgciuSensors,
        FF: PositionPickoffUnit,
        SF: PositionPickoffUnit,
    >(
        &mut self,
        context: &UpdateContext,
        flaps_handle: &H,
        adirus: [&A; 2],
        lgciu: &L,
        flaps_fppu: &FF,
        slats_fppu: &SF,
    ) -> (r: Result<(), InvalidDetent>)
        ensures
            sfcc_step(
                old(self)@,
                sfcc_inputs(context, flaps_handle, adirus, lgciu, flaps_fppu, slats_fppu),
            ) matches Ok(post) ==> r is Ok && final(self)@ == post,
            sfcc_step(
                old(self)@,
                sfcc_inputs(context, flaps_handle, adirus, lgciu, flaps_fppu, slats_fppu),
            ) matches Err(e) ==> r == Err::<(), InvalidDetent>(e) && *final(self) == *old(self),
            r is Err <==> sfcc_detent_refused(
                flaps_handle.spec_previous_position(),
                flaps_handle.spec_position(),
            ),
            old(self)@.wf() ==> final(self)@.wf(),
    {
        let is_on_ground = lgciu.left_and_right_gear_compressed(false);
        let mut flaps_channel = self.flaps_channel;
        let mut slats_channel = self.slats_channel;
        match flaps_channel.update(context, flaps_handle, flaps_fppu, adirus[0]) {
            Ok(()) => {},
            Err(e) => {
                return Err(e);
            },
        }
        match slats_channel.update(context, flaps_handle, slats_fppu, adirus[1], is_on_ground) {
            Ok(()) => {},
            Err(e) => {
                return Err(e);
            },
        }
        self.is_on_ground = is_on_ground;
        self.flaps_channel = flaps_channel;
        self.slats_channel = slats_channel;
        Ok(())
    }

    /// Takes in, for each channel, whether its bus carries power.
    pub fn receive_power<B: ElectricalBuses>(&mut self, buses: &B)
        ensures
            final(self)@ == powered(old(self)@, buses),
            old(self)@.wf() ==> final(self)@.wf(),
    {
        self.flaps_channel.receive_power(buses);
        self.slats_channel.receive_power(buses);
    }

    /// What the computer puts out.
    pub fn outputs(&self) -> (o: SfccOutputs)
        ensures
            o@ == sfcc_outputs(self@),
    {
        SfccOutputs {
            flaps_demanded_angle: self.flaps_channel.demanded_angle(),
            slats_demanded_angle: self.slats_channel.demanded_angle(),
            alpha_lock_engaged: self.slats_channel.alpha_lock_engaged(),
            flaps_signal_to_motors: self.flaps_channel.send_signal_to_motors(),
            slats_signal_to_motors: self.slats_channel.send_signal_to_motors(),
        }
    }

    /// The flaps channel.
    pub fn flaps_channel(&self) -> (c: &FlapsChannel)
        ensures
            c@ == self@.flaps_channel,
    {
        &self.flaps_channel
    }

    /// The slats channel.
    pub fn slats_channel(&self) -> (c: &SlatsChannel)
        ensures
            c@ == self@.slats_channel,
    {
        &self.slats_channel
    }

    /// Whether the landing-gear unit reported the aircraft on the ground in
    /// the last cycle.
    pub fn is_on_ground(&self) -> (b: bool)
        ensures
            b == self@.is_on_ground,
    {
        self.is_on_ground
    }

    /// The number of the computer.
    pub fn sfcc_id(&self) -> (id: usize)
        ensures
            id == self@.sfcc_id,
    {
        self.sfcc_id
    }
}

/// What a computer carries from one cycle into the next: the configuration
/// of its flaps channel, and the alpha lock of its slats channel with both
/// triggers. The rest of its state is either read anew in each cycle or
/// plays no part in what the computer decides.
pub open spec fn sfcc_memory(state: SfccView) -> (FlapsConf, bool, bool, bool) {
    (
        state.flaps_channel.calculated_conf,
        state.slats_channel.alpha_lock_engaged,
        state.slats_channel.alpha_lock_engaged_alpha,
        state.slats_channel.alpha_lock_engaged_speed,
    )
}

/// A computer refuses exactly the lever movements that one of its channels
/// refuses.
pub proof fn lemma_sfcc_refusal(pre: SfccView, inputs: SfccInputs)
    ensures
        sfcc_step(pre, inputs) is Err <==> sfcc_detent_refused(
            inputs.previous_position,
            inputs.position,
        ),
{
}

/// A cycle that is run again on what it read before changes nothing more.
pub proof fn lemma_sfcc_step_idempotent(pre: SfccView, inputs: SfccInputs)
    ensures
        sfcc_step(pre, inputs) matches Ok(post) ==> sfcc_step(post, inputs) == Ok::<
            SfccView,
            InvalidDetent,
        >(post),
{
}

/// A lever in detent 0 retracts the flaps. It retracts the slats too, unless
/// it has just come out of another detent and the alpha lock is engaged
/// after this cycle's check: then the slats are held at 18°.
pub proof fn lemma_lever_at_zero(pre: SfccView, inputs: SfccInputs)
    requires
        inputs.position == 0,
    ensures
        sfcc_step(pre, inputs) matches Ok(post)
            && post.flaps_channel.calculated_conf == FlapsConf::Conf0
            && post.flaps_channel.demanded_angle == 0
            && post.slats_channel.calculated_conf == slats_conf_at_zero(
                post.slats_channel.alpha_lock_engaged && inputs.previous_position > 0,
            )
            && post.slats_channel.demanded_angle == slats_angle_of(
                post.slats_channel.calculated_conf,
            ),
        slats_angle_of(FlapsConf::Conf1) == 18_000,
        slats_angle_of(FlapsConf::Conf0) == 0,
{
}

/// Two computers that carry the same into a cycle and read the same in it
/// come out alike: either both refuse the lever's detent, with the same
/// error, or both put out the same and carry the same into the next cycle.
/// Which computer it is, which buses supply it and whether they carry power
/// makes no difference.
pub proof fn lemma_computers_decide_alike(first: SfccView, second: SfccView, inputs: SfccInputs)
    requires
        sfcc_memory(first) == sfcc_memory(second),
    ensures
        sfcc_step(first, inputs) matches Err(e) ==> sfcc_step(second, inputs) == Err::<
            SfccView,
            InvalidDetent,
        >(e),
        sfcc_step(first, inputs) matches Ok(first_post) ==> (sfcc_step(second, inputs) matches Ok(
            second_post,
        ) && sfcc_outputs(first_post) == sfcc_outputs(second_post) && sfcc_memory(first_post)
            == sfcc_memory(second_post)),
{
}

/// A computer after a run of cycles, given by what it read in each, in
/// order. A cycle that is refused leaves the computer as it was.
pub open spec fn sfcc_after(start: SfccView, cycles: Seq<SfccInputs>) -> SfccView
    decreases cycles.len(),
{
    if cycles.len() == 0 {
        start
    } else {
        let before = sfcc_after(start, cycles.drop_last());
        match sfcc_step(before, cycles.last()) {
            Ok(post) => post,
            Err(_) => before,
        }
    }
}

/// Two computers that put out the same, carry the same into a run of cycles
/// and read the same in each of them put out the same after it, however long
/// the run and whichever of its cycles are refused.
pub proof fn lemma_computers_alike_after_any_run(
    first: SfccView,
    second: SfccView,
    cycles: Seq<SfccInputs>,
)
    requires
        sfcc_memory(first) == sfcc_memory(second),
        sfcc_outputs(first) == sfcc_outputs(second),
    ensures
        sfcc_memory(sfcc_after(first, cycles)) == sfcc_memory(sfcc_after(second, cycles)),
        sfcc_outputs(sfcc_after(first, cycles)) == sfcc_outputs(sfcc_after(second, cycles)),
    decreases cycles.len(),
{
    if cycles.len() > 0 {
        lemma_computers_alike_after_any_run(first, second, cycles.drop_last());
        lemma_computers_decide_alike(
            sfcc_after(first, cycles.drop_last()),
            sfcc_after(second, cycles.drop_last()),
            cycles.last(),
        );
    }
}

/// A computer that is well formed before a run of cycles is so after it.
pub proof fn lemma_run_keeps_wf(start: SfccView, cycles: Seq<SfccInputs>)
    requires
        start.wf(),
    ensures
        sfcc_after(start, cycles).wf(),
    decreases cycles.len(),
{
    if cycles.len() > 0 {
        lemma_run_keeps_wf(start, cycles.drop_last());
    }
}

/// Any two new computers put out the same and carry the same into their
/// first cycle.
pub proof fn lemma_new_computers_alike(
    first_id: nat,
    first_flaps_bus: ElectricalBusType,
    first_slats_bus: ElectricalBusType,
    second_id: nat,
    second_flaps_bus: ElectricalBusType,
    second_slats_bus: ElectricalBusType,
)
    ensures
        sfcc_outputs(SfccView::initial(first_id, first_flaps_bus, first_slats_bus))
            == sfcc_outputs(SfccView::initial(second_id, second_flaps_bus, second_slats_bus)),
        sfcc_memory(SfccView::initial(first_id, first_flaps_bus, first_slats_bus))
            == sfcc_memory(SfccView::initial(second_id, second_flaps_bus, second_slats_bus)),
{
}

/// The state of the supply changes neither what a computer puts out nor
/// what it carries into the next cycle.
pub proof fn lemma_power_has_no_say<B: ElectricalBuses>(pre: SfccView, buses: &B)
    ensures
        sfcc_outputs(powered(pre, buses)) == sfcc_outputs(pre),
        sfcc_memory(powered(pre, buses)) == sfcc_memory(pre),
{
}

/// Air data that was not sent under normal operation plays no part in a
/// cycle. The computer reads what it would read from units that send the
/// locally available airspeed and angle of attack under normal operation,
/// and so decides and puts out the same.
pub proof fn lemma_invalid_air_data_is_replaced<
    H: HandlePositionMemory,
    A: AirDataSource,
    B: AirDataSource,
    L: LgciuSensors,
    FF: PositionPickoffUnit,
    SF: PositionPickoffUnit,
>(
    context: &UpdateContext,
    flaps_handle: &H,
    invalid: [&A; 2],
    valid: [&B; 2],
    lgciu: &L,
    flaps_fppu: &FF,
    slats_fppu: &SF,
)
    requires
        invalid[0].spec_computed_airspeed().ssm != SignStatus::NormalOperation,
        invalid[1].spec_computed_airspeed().ssm != SignStatus::NormalOperation,
        invalid[1].spec_alpha().ssm != SignStatus::NormalOperation,
        valid[0].spec_computed_airspeed() == (Arinc429Word {
            value: context.indicated_airspeed,
            ssm: SignStatus::NormalOperation,
        }),
        valid[1].spec_computed_airspeed() == (Arinc429Word {
            value: context.indicated_airspeed,
            ssm: SignStatus::NormalOperation,
        }),
        valid[1].spec_alpha() == (Arinc429Word {
            value: context.alpha,
            ssm: SignStatus::NormalOperation,
        }),
    ensures
        sfcc_inputs(context, flaps_handle, invalid, lgciu, flaps_fppu, slats_fppu) == sfcc_inputs(
            context,
            flaps_handle,
            valid,
            lgciu,
            flaps_fppu,
            slats_fppu,
        ),
        sfcc_inputs(
            context,
            flaps_handle,
            invalid,
            lgciu,
            flaps_fppu,
            slats_fppu,
        ).flaps_airspeed == context.indicated_airspeed@,
        sfcc_inputs(
            context,
            flaps_handle,
            invalid,
            lgciu,
            flaps_fppu,
            slats_fppu,
        ).slats_airspeed == context.indicated_airspeed@,
        sfcc_inputs(context, flaps_handle, invalid, lgciu, flaps_fppu, slats_fppu).alpha
            == context.alpha@,
{
}

} // verus!
