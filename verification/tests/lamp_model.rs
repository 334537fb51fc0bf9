use hass_fast::lamp_simulator::{LampState, LampStatus, Range};
use hass_fast::widget_state::LampAbstractCommand;

fn model(brightness: Option<u32>, temperature: Option<u32>, status: LampStatus) -> LampState {
    LampState {
        brightness,
        temperature,
        temperature_range: Range::new(153, 500),
        status,
    }
}

#[test]
fn power_commands_are_idempotent() {
    let mut a = model(Some(5000), Some(2000), LampStatus::Off);
    a.apply_abstract_command(LampAbstractCommand::TurnOn);
    let once = a;
    a.apply_abstract_command(LampAbstractCommand::TurnOn);
    assert_eq!(a, once);
    assert_eq!(a.status, LampStatus::On);
    assert_eq!(a.brightness, Some(5000));
    assert_eq!(a.temperature, Some(2000));

    a.apply_abstract_command(LampAbstractCommand::TurnOff);
    let once_off = a;
    a.apply_abstract_command(LampAbstractCommand::TurnOff);
    assert_eq!(a, once_off);
    assert_eq!(a.status, LampStatus::Off);
    assert_eq!(a.brightness, Some(5000));
    assert_eq!(a.temperature, Some(2000));
}

#[test]
fn brightness_delta_clamps_to_bounds() {
    let mut a = model(Some(5000), Some(2000), LampStatus::On);
    a.apply_abstract_command(LampAbstractCommand::DeltaBrightness(i32::MAX));
    assert_eq!(a.brightness, Some(10000));
    a.apply_abstract_command(LampAbstractCommand::DeltaBrightness(i32::MAX));
    assert_eq!(a.brightness, Some(10000));
    a.apply_abstract_command(LampAbstractCommand::DeltaBrightness(i32::MIN));
    assert_eq!(a.brightness, Some(39));
    a.apply_abstract_command(LampAbstractCommand::DeltaBrightness(i32::MIN));
    assert_eq!(a.brightness, Some(39));
    a.apply_abstract_command(LampAbstractCommand::DeltaBrightness(1000));
    assert_eq!(a.brightness, Some(1039));
}

#[test]
fn temperature_delta_clamps_to_bounds() {
    let mut a = model(Some(5000), Some(2000), LampStatus::On);
    a.apply_abstract_command(LampAbstractCommand::DeltaTemperature(i32::MAX));
    assert_eq!(a.temperature, Some(10000));
    a.apply_abstract_command(LampAbstractCommand::DeltaTemperature(i32::MIN));
    assert_eq!(a.temperature, Some(0));
    a.apply_abstract_command(LampAbstractCommand::DeltaTemperature(-1000));
    assert_eq!(a.temperature, Some(0));
    a.apply_abstract_command(LampAbstractCommand::DeltaTemperature(1500));
    assert_eq!(a.temperature, Some(1500));
}

#[test]
fn delta_on_unknown_axis_is_a_noop() {
    let mut a = model(None, None, LampStatus::On);
    a.apply_abstract_command(LampAbstractCommand::DeltaBrightness(1000));
    a.apply_abstract_command(LampAbstractCommand::DeltaTemperature(-1000));
    assert_eq!(a.brightness, None);
    assert_eq!(a.temperature, None);
}

#[test]
fn fixed_temperature_maps_percentage_to_raw_units() {
    // 50% of the 347-unit span above 153, rounded: 153 + 174.
    let a = model(Some(5000), Some(5000), LampStatus::On);
    assert_eq!(a.get_fixed_temperature(), Some(327));
    let b = model(Some(5000), Some(0), LampStatus::On);
    assert_eq!(b.get_fixed_temperature(), Some(153));
    let c = model(Some(5000), Some(10000), LampStatus::On);
    assert_eq!(c.get_fixed_temperature(), Some(500));
    let unknown = model(Some(5000), None, LampStatus::On);
    assert_eq!(unknown.get_fixed_temperature(), None);
}

#[test]
fn from_on_reading_encodes_raw_values() {
    let range = Range::new(153, 500);
    let a = LampState::from_on_reading(255, 500, range);
    assert_eq!(a.status, LampStatus::On);
    assert_eq!(a.brightness, Some(10000));
    assert_eq!(a.temperature, Some(10000));

    let b = LampState::from_on_reading(0, 153, range);
    assert_eq!(b.brightness, Some(0));
    assert_eq!(b.temperature, Some(0));

    // 128 / 255 = 50.196%; 327 sits 174/347 of the way up the range.
    let c = LampState::from_on_reading(128, 327, range);
    assert_eq!(c.brightness, Some(5020));
    assert_eq!(c.temperature, Some(5014));
}

#[test]
fn from_off_reading_leaves_axes_unknown() {
    let a = LampState::from_off_reading(Range::new(153, 500));
    assert_eq!(a.status, LampStatus::Off);
    assert_eq!(a.brightness, None);
    assert_eq!(a.temperature, None);
}

#[test]
fn raw_temperature_round_trips_across_the_range() {
    let range = Range::new(153, 500);
    for raw in 153..=500u32 {
        let state = LampState::from_on_reading(128, raw, range);
        assert_eq!(state.get_fixed_temperature(), Some(raw));
    }
}
