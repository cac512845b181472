use sfcc::arinc429::{Arinc429Word, SignStatus};
use sfcc::handle::FlapsHandle;
use sfcc::power::{BusStates, ElectricalBusType, ElectricalBuses};
use sfcc::sources::{
    select_airspeed, select_alpha, AirDataSample, AirDataSource, GearSample,
    HandlePositionMemory, LgciuSensors, PickoffSample, PositionPickoffUnit, UpdateContext,
};
use sfcc::units::{Angle, Velocity};

#[test]
fn a_new_lever_rests_in_detent_zero() {
    let handle = FlapsHandle::new();
    assert_eq!(handle.position(), 0);
    assert_eq!(handle.previous_position(), 0);
}

#[test]
fn the_lever_memory_keeps_one_step_of_history() {
    let mut handle = FlapsHandle::new();
    handle.read(1);
    assert_eq!((handle.previous_position(), handle.position()), (0, 1));
    handle.read(3);
    assert_eq!((handle.previous_position(), handle.position()), (1, 3));
    handle.read(3);
    assert_eq!((handle.previous_position(), handle.position()), (3, 3));
    handle.read(200);
    assert_eq!((handle.previous_position(), handle.position()), (3, 200));
}

#[test]
fn the_context_hands_out_what_it_was_given() {
    let context = UpdateContext::new(Velocity::from_knots(135), Angle::from_degrees(4));
    assert_eq!(context.indicated_airspeed(), Velocity::from_knots(135));
    assert_eq!(context.alpha(), Angle::from_degrees(4));
}

#[test]
fn samples_answer_with_what_they_hold() {
    let pickoff = PickoffSample { angle: Angle::from_millidegrees(9_990) };
    assert_eq!(pickoff.angle(), Angle::from_millidegrees(9_990));
    let air_data = AirDataSample {
        computed_airspeed: Arinc429Word::new(Velocity::from_knots(210), SignStatus::FunctionalTest),
        alpha: Arinc429Word::new(Angle::from_millidegrees(8_601), SignStatus::NormalOperation),
    };
    assert_eq!(air_data.computed_airspeed().value(), Velocity::from_knots(210));
    assert_eq!(air_data.computed_airspeed().ssm(), SignStatus::FunctionalTest);
    assert_eq!(air_data.alpha().value(), Angle::from_millidegrees(8_601));
    assert_eq!(air_data.alpha().ssm(), SignStatus::NormalOperation);
}

#[test]
fn airspeed_and_alpha_are_selected_one_by_one() {
    let context = UpdateContext::new(Velocity::from_knots(90), Angle::from_degrees(2));
    let air_data = AirDataSample {
        computed_airspeed: Arinc429Word::new(Velocity::from_knots(300), SignStatus::NoComputedData),
        alpha: Arinc429Word::new(Angle::from_degrees(9), SignStatus::NormalOperation),
    };
    assert_eq!(select_airspeed(&context, &air_data), Velocity::from_knots(90));
    assert_eq!(select_alpha(&context, &air_data), Angle::from_degrees(9));
    let air_data = AirDataSample {
        computed_airspeed: Arinc429Word::new(Velocity::from_knots(300), SignStatus::NormalOperation),
        alpha: Arinc429Word::new(Angle::from_degrees(9), SignStatus::FailureWarning),
    };
    assert_eq!(select_airspeed(&context, &air_data), Velocity::from_knots(300));
    assert_eq!(select_alpha(&context, &air_data), Angle::from_degrees(2));
}

#[test]
fn one_compressed_leg_is_enough_unless_both_are_asked_for() {
    let neither = GearSample { left_compressed: false, right_compressed: false };
    let left = GearSample { left_compressed: true, right_compressed: false };
    let right = GearSample { left_compressed: false, right_compressed: true };
    let both = GearSample { left_compressed: true, right_compressed: true };
    assert!(!neither.left_and_right_gear_compressed(false));
    assert!(left.left_and_right_gear_compressed(false));
    assert!(right.left_and_right_gear_compressed(false));
    assert!(both.left_and_right_gear_compressed(false));
    assert!(!neither.left_and_right_gear_compressed(true));
    assert!(!left.left_and_right_gear_compressed(true));
    assert!(!right.left_and_right_gear_compressed(true));
    assert!(both.left_and_right_gear_compressed(true));
}

#[test]
fn the_bus_states_answer_for_each_bus() {
    let buses = BusStates {
        direct_current_1: true,
        direct_current_2: false,
        direct_current_essential: true,
    };
    assert!(buses.is_powered(ElectricalBusType::DirectCurrent(1)));
    assert!(!buses.is_powered(ElectricalBusType::DirectCurrent(2)));
    assert!(buses.is_powered(ElectricalBusType::DirectCurrentEssential));
    assert!(!buses.is_powered(ElectricalBusType::DirectCurrent(0)));
    assert!(!buses.is_powered(ElectricalBusType::DirectCurrent(3)));
    let buses = BusStates {
        direct_current_1: false,
        direct_current_2: true,
        direct_current_essential: false,
    };
    assert!(!buses.is_powered(ElectricalBusType::DirectCurrent(1)));
    assert!(buses.is_powered(ElectricalBusType::DirectCurrent(2)));
    assert!(!buses.is_powered(ElectricalBusType::DirectCurrentEssential));
}
