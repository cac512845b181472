use sfcc::arinc429::{Arinc429Word, SignStatus};
use sfcc::complex::SlatsFlapsElectronicComplex;
use sfcc::computer::SlatsFlapsControlComputer;
use sfcc::conf::{FlapsConf, InvalidDetent};
use sfcc::power::{BusStates, ElectricalBusType};
use sfcc::sources::{
    AirDataSample, GearSample, HandlePositionMemory, LgciuSensors, PickoffSample,
    PositionPickoffUnit, UpdateContext,
};
use sfcc::units::{Angle, Velocity};

struct SfccTestFppu {
    feedback_angle: Angle,
}

impl SfccTestFppu {
    fn new() -> Self {
        Self { feedback_angle: Angle::from_degrees(0) }
    }
}

impl PositionPickoffUnit for SfccTestFppu {
    fn spec_angle(&self) -> Angle {
        self.feedback_angle
    }

    fn angle(&self) -> Angle {
        self.feedback_angle
    }
}

struct TestLgciu {
    on_ground: bool,
}

impl LgciuSensors for TestLgciu {
    fn spec_left_and_right_gear_compressed(&self, _require_both: bool) -> bool {
        self.on_ground
    }

    fn left_and_right_gear_compressed(&self, _require_both: bool) -> bool {
        self.on_ground
    }
}

struct TestAircraft {
    sf_electronic_complex: SlatsFlapsElectronicComplex,
    lgcius: [TestLgciu; 2],
    adirus: [AirDataSample; 2],
    context: UpdateContext,
    slats_fppu: SfccTestFppu,
    flaps_fppu: SfccTestFppu,
}

impl TestAircraft {
    fn new(on_ground: bool) -> Self {
        let no_data = AirDataSample {
            computed_airspeed: Arinc429Word::new(Velocity::from_knots(0), SignStatus::NoComputedData),
            alpha: Arinc429Word::new(Angle::from_degrees(0), SignStatus::NoComputedData),
        };
        Self {
            sf_electronic_complex: SlatsFlapsElectronicComplex::new(),
            lgcius: [TestLgciu { on_ground }, TestLgciu { on_ground }],
            adirus: [no_data, no_data],
            context: UpdateContext::new(Velocity::from_knots(0), Angle::from_degrees(0)),
            slats_fppu: SfccTestFppu::new(),
            flaps_fppu: SfccTestFppu::new(),
        }
    }

    fn set_flaps_handle_position(&mut self, position: u8) {
        self.sf_electronic_complex.read(position);
    }

    fn set_indicated_airspeed(&mut self, knots: i16) {
        self.context = UpdateContext::new(Velocity::from_knots(knots), self.context.alpha());
    }

    fn set_alpha(&mut self, millidegrees: i32) {
        self.context = UpdateContext::new(
            self.context.indicated_airspeed(),
            Angle::from_millidegrees(millidegrees),
        );
    }

    fn run_one_tick(&mut self) -> Result<(), InvalidDetent> {
        self.sf_electronic_complex.update(
            &self.context,
            [&self.adirus[0], &self.adirus[1]],
            [&self.lgcius[0], &self.lgcius[1]],
            &self.flaps_fppu,
            &self.slats_fppu,
        )
    }

    fn sfcc(&self, sfcc_id: usize) -> &SlatsFlapsControlComputer {
        match self.sf_electronic_complex.sfcc(sfcc_id) {
            Some(computer) => computer,
            None => panic!("the complex has two computers"),
        }
    }

    fn test_conf(
        &self,
        handle_pos: u8,
        flaps_demanded_angle: i32,
        slats_demanded_angle: i32,
        slats_conf: FlapsConf,
        flaps_conf: FlapsConf,
        sfcc_id: usize,
    ) {
        assert_eq!(self.sf_electronic_complex.flaps_handle().position(), handle_pos);
        let computer = self.sfcc(sfcc_id);
        assert_eq!(computer.flaps_channel().demanded_angle().millidegrees(), flaps_demanded_angle);
        assert_eq!(computer.slats_channel().demanded_angle().millidegrees(), slats_demanded_angle);
        assert_eq!(computer.flaps_channel().calculated_conf(), flaps_conf);
        assert_eq!(computer.slats_channel().calculated_conf(), slats_conf);
    }
}

#[test]
fn dummy_test() {
    assert!(1 == 1)
}

#[test]
fn a_new_complex_has_two_computers_on_their_buses() {
    let complex = SlatsFlapsElectronicComplex::new();
    let first = complex.sfcc(0).unwrap();
    let second = complex.sfcc(1).unwrap();
    assert!(complex.sfcc(2).is_none());
    assert!(complex.sfcc(usize::MAX).is_none());
    assert_eq!(first.sfcc_id(), 1);
    assert_eq!(second.sfcc_id(), 2);
    assert_eq!(first.flaps_channel().powered_by(), ElectricalBusType::DirectCurrentEssential);
    assert_eq!(first.slats_channel().powered_by(), ElectricalBusType::DirectCurrentEssential);
    assert_eq!(second.flaps_channel().powered_by(), ElectricalBusType::DirectCurrent(2));
    assert_eq!(second.slats_channel().powered_by(), ElectricalBusType::DirectCurrent(2));
    assert_eq!(complex.flaps_handle().position(), 0);
    assert_eq!(complex.flaps_handle().previous_position(), 0);
    assert_eq!(first.outputs(), second.outputs());
    assert!(first.is_on_ground());
    assert!(second.is_on_ground());
}

#[test]
fn the_complex_follows_the_lever_through_its_detents() {
    let mut aircraft = TestAircraft::new(true);
    aircraft.set_indicated_airspeed(90);
    for sfcc_id in 0..2 {
        aircraft.test_conf(0, 0, 0, FlapsConf::Conf0, FlapsConf::Conf0, sfcc_id);
    }
    aircraft.set_flaps_handle_position(1);
    assert_eq!(aircraft.run_one_tick(), Ok(()));
    for sfcc_id in 0..2 {
        aircraft.test_conf(1, 10_000, 18_000, FlapsConf::Conf1, FlapsConf::Conf1F, sfcc_id);
    }
    aircraft.set_flaps_handle_position(2);
    assert_eq!(aircraft.run_one_tick(), Ok(()));
    for sfcc_id in 0..2 {
        aircraft.test_conf(2, 15_000, 18_000, FlapsConf::Conf1F, FlapsConf::Conf2, sfcc_id);
    }
    aircraft.set_flaps_handle_position(3);
    assert_eq!(aircraft.run_one_tick(), Ok(()));
    for sfcc_id in 0..2 {
        aircraft.test_conf(3, 20_000, 22_000, FlapsConf::Conf2, FlapsConf::Conf3, sfcc_id);
    }
    aircraft.set_flaps_handle_position(4);
    assert_eq!(aircraft.run_one_tick(), Ok(()));
    for sfcc_id in 0..2 {
        aircraft.test_conf(4, 40_000, 22_000, FlapsConf::Conf3, FlapsConf::ConfFull, sfcc_id);
    }
    aircraft.set_flaps_handle_position(4);
    assert_eq!(aircraft.run_one_tick(), Ok(()));
    for sfcc_id in 0..2 {
        aircraft.test_conf(4, 40_000, 22_000, FlapsConf::Conf3, FlapsConf::ConfFull, sfcc_id);
    }
    aircraft.set_flaps_handle_position(0);
    assert_eq!(aircraft.run_one_tick(), Ok(()));
    for sfcc_id in 0..2 {
        aircraft.test_conf(0, 0, 18_000, FlapsConf::Conf1, FlapsConf::Conf0, sfcc_id);
    }
    aircraft.set_flaps_handle_position(0);
    assert_eq!(aircraft.run_one_tick(), Ok(()));
    for sfcc_id in 0..2 {
        aircraft.test_conf(0, 0, 0, FlapsConf::Conf0, FlapsConf::Conf0, sfcc_id);
    }
}

#[test]
fn lever_to_one_in_flight_at_220_knots_extends_the_slats_alone() {
    let mut aircraft = TestAircraft::new(false);
    aircraft.set_indicated_airspeed(220);
    aircraft.set_flaps_handle_position(1);
    assert_eq!(aircraft.run_one_tick(), Ok(()));
    for sfcc_id in 0..2 {
        aircraft.test_conf(1, 0, 18_000, FlapsConf::Conf1, FlapsConf::Conf1, sfcc_id);
        assert!(!aircraft.sfcc(sfcc_id).outputs().alpha_lock_engaged);
        assert!(!aircraft.sfcc(sfcc_id).outputs().flaps_signal_to_motors);
        assert!(aircraft.sfcc(sfcc_id).outputs().slats_signal_to_motors);
    }
    aircraft.set_flaps_handle_position(0);
    assert_eq!(aircraft.run_one_tick(), Ok(()));
    for sfcc_id in 0..2 {
        aircraft.test_conf(0, 0, 0, FlapsConf::Conf0, FlapsConf::Conf0, sfcc_id);
    }
}

#[test]
fn the_alpha_lock_holds_the_slats_through_a_retraction() {
    let mut aircraft = TestAircraft::new(false);
    aircraft.set_indicated_airspeed(200);
    aircraft.set_flaps_handle_position(1);
    assert_eq!(aircraft.run_one_tick(), Ok(()));
    aircraft.set_alpha(8_700);
    aircraft.set_flaps_handle_position(1);
    assert_eq!(aircraft.run_one_tick(), Ok(()));
    for sfcc_id in 0..2 {
        assert!(aircraft.sfcc(sfcc_id).outputs().alpha_lock_engaged);
    }
    aircraft.set_alpha(8_000);
    aircraft.set_flaps_handle_position(0);
    assert_eq!(aircraft.run_one_tick(), Ok(()));
    for sfcc_id in 0..2 {
        assert!(aircraft.sfcc(sfcc_id).outputs().alpha_lock_engaged);
        aircraft.test_conf(0, 0, 18_000, FlapsConf::Conf1, FlapsConf::Conf0, sfcc_id);
    }
    aircraft.set_alpha(7_000);
    aircraft.set_flaps_handle_position(0);
    assert_eq!(aircraft.run_one_tick(), Ok(()));
    for sfcc_id in 0..2 {
        assert!(!aircraft.sfcc(sfcc_id).outputs().alpha_lock_engaged);
        aircraft.test_conf(0, 0, 0, FlapsConf::Conf0, FlapsConf::Conf0, sfcc_id);
    }
}

#[test]
fn both_computers_of_the_complex_put_out_the_same_while_their_gear_units_agree() {
    let mut aircraft = TestAircraft::new(true);
    let script: [(u8, i16, i32); 9] = [
        (1, 40, 0),
        (1, 120, 3_000),
        (2, 160, 9_000),
        (2, 160, 8_000),
        (6, 160, 8_000),
        (0, 160, 8_000),
        (0, 160, 7_000),
        (1, 230, 7_000),
        (1, 205, 7_000),
    ];
    for (position, knots, millidegrees) in script {
        aircraft.set_flaps_handle_position(position);
        aircraft.set_indicated_airspeed(knots);
        aircraft.set_alpha(millidegrees);
        let result = aircraft.run_one_tick();
        assert_eq!(result.is_err(), position == 6);
        assert_eq!(aircraft.sfcc(0).outputs(), aircraft.sfcc(1).outputs());
    }
    assert_eq!(aircraft.sfcc(0).outputs().flaps_demanded_angle.millidegrees(), 0);
    assert_eq!(aircraft.sfcc(0).outputs().slats_demanded_angle.millidegrees(), 18_000);
}

#[test]
fn each_computer_of_the_complex_hears_its_own_gear_unit() {
    let mut aircraft = TestAircraft::new(true);
    aircraft.lgcius[1].on_ground = false;
    aircraft.set_indicated_airspeed(50);
    aircraft.set_flaps_handle_position(1);
    assert_eq!(aircraft.run_one_tick(), Ok(()));
    assert!(aircraft.sfcc(0).is_on_ground());
    assert!(!aircraft.sfcc(1).is_on_ground());
    assert!(!aircraft.sfcc(0).outputs().alpha_lock_engaged);
    assert!(aircraft.sfcc(1).outputs().alpha_lock_engaged);
    aircraft.set_flaps_handle_position(0);
    assert_eq!(aircraft.run_one_tick(), Ok(()));
    aircraft.test_conf(0, 0, 0, FlapsConf::Conf0, FlapsConf::Conf0, 0);
    aircraft.test_conf(0, 0, 18_000, FlapsConf::Conf1, FlapsConf::Conf0, 1);
}

#[test]
fn a_refused_detent_leaves_both_computers_as_they_were() {
    let mut aircraft = TestAircraft::new(false);
    aircraft.set_indicated_airspeed(90);
    aircraft.set_flaps_handle_position(4);
    assert_eq!(aircraft.run_one_tick(), Ok(()));
    let before = aircraft.sf_electronic_complex;
    aircraft.set_flaps_handle_position(5);
    aircraft.flaps_fppu.feedback_angle = Angle::from_degrees(40);
    let read = aircraft.sf_electronic_complex;
    assert_eq!(aircraft.run_one_tick(), Err(InvalidDetent { index: 6 }));
    assert_eq!(aircraft.sf_electronic_complex, read);
    assert_eq!(aircraft.sfcc(0), before.sfcc(0).unwrap());
    assert_eq!(aircraft.sfcc(1), before.sfcc(1).unwrap());
    for sfcc_id in 0..2 {
        aircraft.test_conf(5, 40_000, 22_000, FlapsConf::Conf3, FlapsConf::ConfFull, sfcc_id);
        assert_eq!(aircraft.sfcc(sfcc_id).flaps_channel().feedback_angle().millidegrees(), 0);
    }
    aircraft.set_flaps_handle_position(5);
    assert_eq!(aircraft.run_one_tick(), Ok(()));
    for sfcc_id in 0..2 {
        aircraft.test_conf(5, 40_000, 27_000, FlapsConf::ConfFull, FlapsConf::ConfFull, sfcc_id);
        assert_eq!(aircraft.sfcc(sfcc_id).flaps_channel().feedback_angle().millidegrees(), 40_000);
    }
    aircraft.set_flaps_handle_position(6);
    assert_eq!(aircraft.run_one_tick(), Err(InvalidDetent { index: 7 }));
    aircraft.set_flaps_handle_position(6);
    assert_eq!(aircraft.run_one_tick(), Err(InvalidDetent { index: 6 }));
    aircraft.set_flaps_handle_position(3);
    assert_eq!(aircraft.run_one_tick(), Ok(()));
    for sfcc_id in 0..2 {
        aircraft.test_conf(3, 20_000, 22_000, FlapsConf::Conf2, FlapsConf::Conf3, sfcc_id);
    }
}

#[test]
fn a_cycle_of_the_complex_run_again_changes_nothing() {
    let mut aircraft = TestAircraft::new(false);
    aircraft.set_indicated_airspeed(140);
    aircraft.set_alpha(9_000);
    aircraft.set_flaps_handle_position(1);
    assert_eq!(aircraft.run_one_tick(), Ok(()));
    let once = aircraft.sf_electronic_complex;
    assert_eq!(aircraft.run_one_tick(), Ok(()));
    assert_eq!(aircraft.sf_electronic_complex, once);
    assert_eq!(aircraft.run_one_tick(), Ok(()));
    assert_eq!(aircraft.sf_electronic_complex, once);
}

#[test]
fn the_complex_passes_the_state_of_the_supply_on_to_its_channels() {
    let mut complex = SlatsFlapsElectronicComplex::new();
    complex.receive_power(&BusStates {
        direct_current_1: false,
        direct_current_2: false,
        direct_current_essential: true,
    });
    assert!(complex.sfcc(0).unwrap().flaps_channel().is_powered());
    assert!(complex.sfcc(0).unwrap().slats_channel().is_powered());
    assert!(!complex.sfcc(1).unwrap().flaps_channel().is_powered());
    assert!(!complex.sfcc(1).unwrap().slats_channel().is_powered());
    complex.receive_power(&BusStates {
        direct_current_1: true,
        direct_current_2: true,
        direct_current_essential: false,
    });
    assert!(!complex.sfcc(0).unwrap().flaps_channel().is_powered());
    assert!(!complex.sfcc(0).unwrap().slats_channel().is_powered());
    assert!(complex.sfcc(1).unwrap().flaps_channel().is_powered());
    assert!(complex.sfcc(1).unwrap().slats_channel().is_powered());
    assert_eq!(complex.flaps_handle().position(), 0);
    assert_eq!(complex.sfcc(0).unwrap().outputs(), complex.sfcc(1).unwrap().outputs());
}

#[test]
fn the_samples_of_the_library_can_feed_the_complex() {
    let mut complex = SlatsFlapsElectronicComplex::new();
    let context = UpdateContext::new(Velocity::from_knots(300), Angle::from_degrees(20));
    let first = AirDataSample {
        computed_airspeed: Arinc429Word::new(Velocity::from_knots(90), SignStatus::NormalOperation),
        alpha: Arinc429Word::new(Angle::from_degrees(0), SignStatus::NormalOperation),
    };
    let second = AirDataSample {
        computed_airspeed: Arinc429Word::new(Velocity::from_knots(200), SignStatus::NormalOperation),
        alpha: Arinc429Word::new(Angle::from_degrees(0), SignStatus::NormalOperation),
    };
    let on_ground = GearSample { left_compressed: true, right_compressed: true };
    let in_flight = GearSample { left_compressed: false, right_compressed: false };
    let flaps = PickoffSample { angle: Angle::from_degrees(10) };
    let slats = PickoffSample { angle: Angle::from_degrees(18) };
    complex.read(1);
    let result = complex.update(&context, [&first, &second], [&on_ground, &in_flight], &flaps, &slats);
    assert_eq!(result, Ok(()));
    let one = complex.sfcc(0).unwrap();
    let two = complex.sfcc(1).unwrap();
    assert!(one.is_on_ground());
    assert!(!two.is_on_ground());
    assert_eq!(one.outputs(), two.outputs());
    assert_eq!(one.outputs().flaps_demanded_angle, Angle::from_degrees(10));
    assert_eq!(one.outputs().slats_demanded_angle, Angle::from_degrees(18));
    assert!(!one.outputs().alpha_lock_engaged);
    assert!(!one.outputs().flaps_signal_to_motors);
    assert!(!one.outputs().slats_signal_to_motors);
}

#[test]
fn a_whole_cycle_reads_the_lever_and_then_runs_both_computers() {
    let context = UpdateContext::new(Velocity::from_knots(90), Angle::from_degrees(0));
    let air = AirDataSample {
        computed_airspeed: Arinc429Word::new(Velocity::from_knots(0), SignStatus::FailureWarning),
        alpha: Arinc429Word::new(Angle::from_degrees(0), SignStatus::FailureWarning),
    };
    let gear = GearSample { left_compressed: false, right_compressed: false };
    let pickoff = PickoffSample { angle: Angle::from_degrees(0) };

    let mut whole = SlatsFlapsElectronicComplex::new();
    let mut stepwise = SlatsFlapsElectronicComplex::new();
    for position in [1, 1, 4, 5, 5, 9, 0, 0] {
        let result = whole.cycle(position, &context, [&air, &air], [&gear, &gear], &pickoff, &pickoff);
        stepwise.read(position);
        let expected = stepwise.update(&context, [&air, &air], [&gear, &gear], &pickoff, &pickoff);
        assert_eq!(result, expected);
        assert_eq!(whole, stepwise);
        assert_eq!(whole.flaps_handle().position(), position);
    }

    let mut complex = SlatsFlapsElectronicComplex::new();
    assert_eq!(complex.cycle(1, &context, [&air, &air], [&gear, &gear], &pickoff, &pickoff), Ok(()));
    assert_eq!(complex.sfcc(0).unwrap().flaps_channel().calculated_conf(), FlapsConf::Conf1F);
    assert_eq!(complex.sfcc(1).unwrap().slats_channel().calculated_conf(), FlapsConf::Conf1);
    assert_eq!(complex.cycle(4, &context, [&air, &air], [&gear, &gear], &pickoff, &pickoff), Ok(()));
    let before = complex;
    assert_eq!(
        complex.cycle(5, &context, [&air, &air], [&gear, &gear], &pickoff, &pickoff),
        Err(InvalidDetent { index: 6 })
    );
    assert_eq!(complex.flaps_handle().previous_position(), 4);
    assert_eq!(complex.flaps_handle().position(), 5);
    assert_eq!(complex.sfcc(0), before.sfcc(0));
    assert_eq!(complex.sfcc(1), before.sfcc(1));
    assert_eq!(complex.sfcc(0).unwrap().flaps_channel().calculated_conf(), FlapsConf::ConfFull);
}
