//! The electronic complex: two control computers that share one lever.
//!
//! The complex owns the memory of the lever and lends it to both computers
//! in each cycle. The computers do not talk to each other: each works the
//! cycle out for itself, with its own landing-gear unit and its own supply.

use vstd::prelude::*;
use crate::computer::{
    lemma_computers_decide_alike, lemma_sfcc_step_idempotent, powered, sfcc_detent_refused,
    sfcc_memory, sfcc_outputs, sfcc_step, SfccInputs, SfccView, SlatsFlapsControlComputer,
};
use crate::conf::InvalidDetent;
use crate::handle::FlapsHandle;
use crate::power::{ElectricalBusType, ElectricalBuses};
use crate::sources::{
    resolved_airspeed, resolved_alpha, AirDataSource, HandlePositionMemory, LgciuSensors,
    PositionPickoffUnit, UpdateContext,
};

verus! {

/// The state of the complex.
pub struct ComplexView {
    /// The first computer.
    pub sfcc_1: SfccView,
    /// The second computer.
    pub sfcc_2: SfccView,
    /// The detent in which the lever stood one cycle ago.
    pub previous_position: u8,
    /// The detent in which the lever stands.
    pub position: u8,
}

/// What the complex reads in one cycle, the lever aside.
pub struct ComplexInputs {
    /// The airspeed for the flaps channels, in thousandths of a knot.
    pub flaps_airspeed: int,
    /// The airspeed for the slats channels, in thousandths of a knot.
    pub slats_airspeed: int,
    /// The angle of attack, in thousandths of a degree.
    pub alpha: int,
    /// The ground state that the first computer's gear unit reports.
    pub is_on_ground_1: bool,
    /// The ground state that the second computer's gear unit reports.
    pub is_on_ground_2: bool,
    /// The measured flap angle, in thousandths of a degree.
    pub flaps_feedback: int,
    /// The measured slat angle, in thousandths of a degree.
    pub slats_feedback: int,
}

/// What the complex reads from its sources in one cycle.
pub open spec fn complex_inputs<
    A: AirDataSource,
    L: LgciuSensors,
    FF: PositionPickoffUnit,
    SF: PositionPickoffUnit,
>(
    context: &UpdateContext,
    adirus: [&A; 2],
    lgcius: [&L; 2],
    flaps_fppu: &FF,
    slats_fppu: &SF,
) -> ComplexInputs {
    ComplexInputs {
        flaps_airspeed: resolved_airspeed(context, adirus[0]),
        slats_airspeed: resolved_airspeed(context, adirus[1]),
        alpha: resolved_alpha(context, adirus[1]),
        is_on_ground_1: lgcius[0].spec_left_and_right_gear_compressed(false),
        is_on_ground_2: lgcius[1].spec_left_and_right_gear_compressed(false),
        flaps_feedback: flaps_fppu.spec_angle()@,
        slats_feedback: slats_fppu.spec_angle()@,
    }
}

impl ComplexView {
    /// A new complex: the lever in detent 0, the first computer on the
    /// essential bus and the second on the second normal bus.
    pub open spec fn initial() -> ComplexView {
        ComplexView {
            sfcc_1: SfccView::initial(
                1,
                ElectricalBusType::DirectCurrentEssential,
                ElectricalBusType::DirectCurrentEssential,
            ),
            sfcc_2: SfccView::initial(
                2,
                ElectricalBusType::DirectCurrent(2),
                ElectricalBusType::DirectCurrent(2),
            ),
            previous_position: 0,
            position: 0,
        }
    }

    /// Both computers are well formed.
    pub open spec fn wf(self) -> bool {
        self.sfcc_1.wf() && self.sfcc_2.wf()
    }

    /// What a computer of the complex reads in a cycle: the lever as the
    /// complex remembers it, the ground state that its own gear unit
    /// reports, and the rest as both computers get it.
    pub open spec fn sfcc_inputs(self, inputs: ComplexInputs, is_on_ground: bool) -> SfccInputs {
        SfccInputs {
            previous_position: self.previous_position,
            position: self.position,
            flaps_airspeed: inputs.flaps_airspeed,
            slats_airspeed: inputs.slats_airspeed,
            alpha: inputs.alpha,
            is_on_ground,
            flaps_feedback: inputs.flaps_feedback,
            slats_feedback: inputs.slats_feedback,
        }
    }
}

/// One cycle of the complex: the first computer runs, then the second, both
/// on the same lever memory. A refusal by either refuses the whole cycle.
pub open spec fn complex_step(pre: ComplexView, inputs: ComplexInputs) -> Result<
    ComplexView,
    InvalidDetent,
> {
    match sfcc_step(pre.sfcc_1, pre.sfcc_inputs(inputs, inputs.is_on_ground_1)) {
        Ok(sfcc_1) => match sfcc_step(pre.sfcc_2, pre.sfcc_inputs(inputs, inputs.is_on_ground_2)) {
            Ok(sfcc_2) => Ok(ComplexView { sfcc_1, sfcc_2, ..pre }),
            Err(e) => Err(e),
        },
        Err(e) => Err(e),
    }
}

/// The complex after the lever was read in detent `position`.
pub open spec fn complex_read(pre: ComplexView, position: u8) -> ComplexView {
    ComplexView { previous_position: pre.position, position, ..pre }
}

/// One whole cycle of the complex for a lever read in detent `position`: the
/// lever memory is refreshed, once, and then both computers run on it. Where
/// they refuse the detent, the lever memory has it all the same and the
/// computers are as they were.
pub open spec fn complex_cycle(pre: ComplexView, position: u8, inputs: ComplexInputs) -> ComplexView {
    let read = complex_read(pre, position);
    match complex_step(read, inputs) {
        Ok(post) => post,
        Err(_) => read,
    }
}

/// The electronic complex of the slats and flaps.
#[derive(Clone, Copy, Debug, PartialEq, Eq)]
pub struct SlatsFlapsElectronicComplex {
    sfcc: [SlatsFlapsControlComputer; 2],
    flaps_handle: FlapsHandle,
}

impl View for SlatsFlapsElectronicComplex {
    type V = ComplexView;

    closed spec fn view(&self) -> ComplexView {
        ComplexView {
            sfcc_1: self.sfcc[0]@,
            sfcc_2: self.sfcc[1]@,
            previous_position: self.flaps_handle.spec_previous_position(),
            position: self.flaps_handle.spec_position(),
        }
    }
}

impl SlatsFlapsElectronicComplex {
    /// A new complex.
    pub fn new() -> (c: Self)
        ensures
            c@ == ComplexView::initial(),
            c@.wf(),
    {
        SlatsFlapsElectronicComplex {
            sfcc: [
                SlatsFlapsControlComputer::new(
                    1,
                    ElectricalBusType::DirectCurrentEssential,
                    ElectricalBusType::DirectCurrentEssential,
                ),
                SlatsFlapsControlComputer::new(
                    2,
                    ElectricalBusType::DirectCurrent(2),
                    ElectricalBusType::DirectCurrent(2),
                ),
            ],
            flaps_handle: FlapsHandle::new(),
        }
    }

    /// Takes in the detent in which the lever was read in a new cycle.
    pub fn read(&mut self, position: u8)
        ensures
            final(self)@ == complex_read(old(self)@, position),
            old(self)@.wf() ==> final(self)@.wf(),
    {
        self.flaps_handle.read(position);
    }

    /// Runs one cycle of both computers on the lever as it was last read.
    /// Where the lever's detent is refused the complex is left as it was.
    pub fn update<A: AirDataSource, L: LgciuSensors, FF: PositionPickoffUnit, SF: PositionPickoffUnit>(
        &mut self,
        context: &UpdateContext,
        adirus: [&A; 2],
        lgcius: [&L; 2],
        flaps_fppu: &FF,
        slats_fppu: &SF,
    ) -> (r: Result<(), InvalidDetent>)
        ensures
            complex_step(
                old(self)@,
                complex_inputs(context, adirus, lgcius, flaps_fppu, slats_fppu),
            ) matches Ok(post) ==> r is Ok && final(self)@ == post,
            complex_step(
                old(self)@,
                complex_inputs(context, adirus, lgcius, flaps_fppu, slats_fppu),
            ) matches Err(e) ==> r == Err::<(), InvalidDetent>(e) && *final(self) == *old(self),
            r is Err <==> sfcc_detent_refused(old(self)@.previous_position, old(self)@.position),
            old(self)@.wf() ==> final(self)@.wf(),
    {
        let mut first = self.sfcc[0];
        let mut second = self.sfcc[1];
        match first.update(context, &self.flaps_handle, adirus, lgcius[0], flaps_fppu, slats_fppu) {
            Ok(()) => {},
            Err(e) => {
                return Err(e);
            },
        }
        match second.update(context, &self.flaps_handle, adirus, lgcius[1], flaps_fppu, slats_fppu) {
            Ok(()) => {},
            Err(e) => {
                return Err(e);
            },
        }
        self.sfcc = [first, second];
        Ok(())
    }

    /// Runs one whole cycle for a lever read in detent `position`: takes the
    /// detent in and then runs both computers on it. Where the detent is
    /// refused, the lever memory has it all the same and the computers are
    /// left as they were.
    pub fn cycle<A: AirDataSource, L: LgciuSensors, FF: PositionPickoffUnit, SF: PositionPickoffUnit>(
        &mut self,
        position: u8,
        context: &UpdateContext,
        adirus: [&A; 2],
        lgcius: [&L; 2],
        flaps_fppu: &FF,
        slats_fppu: &SF,
    ) -> (r: Result<(), InvalidDetent>)
        ensures
            final(self)@ == complex_cycle(
                old(self)@,
                position,
                complex_inputs(context, adirus, lgcius, flaps_fppu, slats_fppu),
            ),
            complex_step(
                complex_read(old(self)@, position),
                complex_inputs(context, adirus, lgcius, flaps_fppu, slats_fppu),
            ) matches Err(e) ==> r == Err::<(), InvalidDetent>(e),
            r is Err <==> sfcc_detent_refused(old(self)@.position, position),
            old(self)@.wf() ==> final(self)@.wf(),
    {
        self.read(position);
        self.update(context, adirus, lgcius, flaps_fppu, slats_fppu)
    }

    /// Takes in, for each channel of each computer, whether its bus carries
    /// power.
    pub fn receive_power<B: ElectricalBuses>(&mut self, buses: &B)
        ensures
            final(self)@ == (ComplexView {
                sfcc_1: powered(old(self)@.sfcc_1, buses),
                sfcc_2: powered(old(self)@.sfcc_2, buses),
                ..old(self)@
            }),
            old(self)@.wf() ==> final(self)@.wf(),
    {
        self.sfcc[0].receive_power(buses);
        self.sfcc[1].receive_power(buses);
    }

    /// The computer at `index`, the first at 0 and the second at 1.
    pub fn sfcc(&self, index: usize) -> (c: Option<&SlatsFlapsControlComputer>)
        ensures
            index == 0 ==> c is Some && c->0@ == self@.sfcc_1,
            index == 1 ==> c is Some && c->0@ == self@.sfcc_2,
            index > 1 ==> c is None,
    {
        if index < 2 {
            Some(&self.sfcc[index])
        } else {
            None
        }
    }

    /// The memory of the lever.
    pub fn flaps_handle(&self) -> (h: &FlapsHandle)
        ensures
            h.spec_previous_position() == self@.previous_position,
            h.spec_position() == self@.position,
    {
        &self.flaps_handle
    }
}

/// The complex refuses exactly the lever movements that a computer refuses.
pub proof fn lemma_complex_refusal(pre: ComplexView, inputs: ComplexInputs)
    ensures
        complex_step(pre, inputs) is Err <==> sfcc_detent_refused(
            pre.previous_position,
            pre.position,
        ),
{
}

/// A cycle that is run again on what it read before changes nothing more.
pub proof fn lemma_complex_step_idempotent(pre: ComplexView, inputs: ComplexInputs)
    ensures
        complex_step(pre, inputs) matches Ok(post) ==> complex_step(post, inputs) == Ok::<
            ComplexView,
            InvalidDetent,
        >(post),
{
    lemma_sfcc_step_idempotent(pre.sfcc_1, pre.sfcc_inputs(inputs, inputs.is_on_ground_1));
    lemma_sfcc_step_idempotent(pre.sfcc_2, pre.sfcc_inputs(inputs, inputs.is_on_ground_2));
}

/// The two computers of a new complex put out the same and carry the same
/// into their first cycle.
pub proof fn lemma_new_complex_computers_alike()
    ensures
        sfcc_outputs(ComplexView::initial().sfcc_1) == sfcc_outputs(ComplexView::initial().sfcc_2),
        sfcc_memory(ComplexView::initial().sfcc_1) == sfcc_memory(ComplexView::initial().sfcc_2),
{
}

/// A cycle of the host: the detent in which the lever is read, and what the
/// complex reads besides.
pub struct ComplexCycle {
    pub position: u8,
    pub inputs: ComplexInputs,
}

/// The complex after a run of whole cycles, in order.
pub open spec fn complex_after(start: ComplexView, cycles: Seq<ComplexCycle>) -> ComplexView
    decreases cycles.len(),
{
    if cycles.len() == 0 {
        start
    } else {
        complex_cycle(
            complex_after(start, cycles.drop_last()),
            cycles.last().position,
            cycles.last().inputs,
        )
    }
}

/// For as long as the two gear units report the same, the two computers of a
/// complex put out the same: after any run of whole cycles from a new
/// complex, however long, and whichever of its cycles are refused.
pub proof fn lemma_complex_computers_alike_after_any_run(cycles: Seq<ComplexCycle>)
    requires
        forall|i: int|
            0 <= i < cycles.len() ==> (#[trigger] cycles[i]).inputs.is_on_ground_1
                == cycles[i].inputs.is_on_ground_2,
    ensures
        sfcc_outputs(complex_after(ComplexView::initial(), cycles).sfcc_1) == sfcc_outputs(
            complex_after(ComplexView::initial(), cycles).sfcc_2,
        ),
        sfcc_memory(complex_after(ComplexView::initial(), cycles).sfcc_1) == sfcc_memory(
            complex_after(ComplexView::initial(), cycles).sfcc_2,
        ),
        complex_after(ComplexView::initial(), cycles).wf(),
    decreases cycles.len(),
{
    if cycles.len() > 0 {
        let earlier = cycles.drop_last();
        lemma_complex_computers_alike_after_any_run(earlier);
        let read = complex_read(
            complex_after(ComplexView::initial(), earlier),
            cycles.last().position,
        );
        lemma_computers_decide_alike(
            read.sfcc_1,
            read.sfcc_2,
            read.sfcc_inputs(cycles.last().inputs, cycles.last().inputs.is_on_ground_1),
        );
    }
}

/// Two computers of a complex that carry the same into a cycle, and whose
/// gear units report the same in it, put out the same after it and carry
/// the same into the next. Reading the lever and taking in the state of the
/// supply leave that as it is.
pub proof fn lemma_complex_computers_stay_alike<B: ElectricalBuses>(
    pre: ComplexView,
    inputs: ComplexInputs,
    position: u8,
    buses: &B,
)
    requires
        sfcc_memory(pre.sfcc_1) == sfcc_memory(pre.sfcc_2),
        inputs.is_on_ground_1 == inputs.is_on_ground_2,
    ensures
        complex_step(pre, inputs) matches Ok(post) ==> sfcc_outputs(post.sfcc_1) == sfcc_outputs(
            post.sfcc_2,
        ) && sfcc_memory(post.sfcc_1) == sfcc_memory(post.sfcc_2),
        sfcc_memory(complex_read(pre, position).sfcc_1) == sfcc_memory(
            complex_read(pre, position).sfcc_2,
        ),
        sfcc_memory(powered(pre.sfcc_1, buses)) == sfcc_memory(powered(pre.sfcc_2, buses)),
{
    lemma_computers_decide_alike(
        pre.sfcc_1,
        pre.sfcc_2,
        pre.sfcc_inputs(inputs, inputs.is_on_ground_1),
    );
}

} // verus!
