use hass_fast::controller::{handle_event, translate_command};
use hass_fast::ipc_protocol::{encode_widget_data, Message};
use hass_fast::lamp::LampCommand;
use hass_fast::lamp_simulator::{LampState, LampStatus, Range};
use hass_fast::widget_state::{LampAbstractCommand, OnState, WidgetData, WidgetOnSubState, WidgetState};

fn model(brightness: Option<u32>, temperature: Option<u32>, status: LampStatus) -> LampState {
    LampState {
        brightness,
        temperature,
        temperature_range: Range::new(153, 500),
        status,
    }
}

#[test]
fn increase_while_showing_brightness() {
    let mut state = WidgetState::On(WidgetOnSubState::Brightness);
    let mut lamp = model(Some(5000), Some(2000), LampStatus::On);

    let out = handle_event(&mut state, &mut lamp, &Message::Increase);

    assert_eq!(state, WidgetState::On(WidgetOnSubState::Brightness));
    assert_eq!(lamp.brightness, Some(6000));
    assert_eq!(out.command, Some(LampCommand::OnWithBrightness(6000)));
    assert_eq!(out.payload, WidgetData::On(OnState::Brightness(6000)));
    assert_eq!(
        encode_widget_data(&out.payload),
        "{\"state\":\"on\",\"type\":\"brightness\",\"value\":60.0}"
    );
    assert!(!out.needs_resync);
}

#[test]
fn increase_while_off_changes_nothing() {
    let mut state = WidgetState::Off;
    let before = model(Some(5000), Some(2000), LampStatus::Off);
    let mut lamp = before;

    let out = handle_event(&mut state, &mut lamp, &Message::Increase);

    assert_eq!(state, WidgetState::Off);
    assert_eq!(lamp, before);
    assert_eq!(out.command, None);
    assert_eq!(out.payload, WidgetData::Off);
    assert!(!out.needs_resync);
}

#[test]
fn toggle_state_while_showing_temperature() {
    let mut state = WidgetState::On(WidgetOnSubState::Temperature);
    let mut lamp = model(Some(5000), Some(2000), LampStatus::On);

    let out = handle_event(&mut state, &mut lamp, &Message::ToggleState);

    assert_eq!(state, WidgetState::Off);
    assert_eq!(lamp.status, LampStatus::Off);
    assert_eq!(out.command, Some(LampCommand::Off));
    assert_eq!(out.payload, WidgetData::Off);
    assert_eq!(encode_widget_data(&out.payload), "{\"state\":\"off\"}");
}

#[test]
fn snapshot_while_brightness_unknown_shows_loading() {
    let state = WidgetState::On(WidgetOnSubState::Brightness);
    let lamp = model(None, Some(2000), LampStatus::On);

    let payload = state.with_data(&lamp);

    assert_eq!(payload, WidgetData::On(OnState::Loading));
    assert_eq!(
        encode_widget_data(&payload),
        "{\"state\":\"on\",\"type\":\"loading\"}"
    );
}

#[test]
fn turning_on_with_unknown_axes_requests_resync() {
    let mut state = WidgetState::Off;
    let mut lamp = model(None, None, LampStatus::Off);

    let out = handle_event(&mut state, &mut lamp, &Message::ToggleState);

    assert_eq!(state, WidgetState::On(WidgetOnSubState::Brightness));
    assert_eq!(lamp.status, LampStatus::On);
    assert_eq!(out.command, Some(LampCommand::On));
    assert_eq!(out.payload, WidgetData::On(OnState::Loading));
    assert!(out.needs_resync);
}

#[test]
fn either_unknown_axis_requests_resync() {
    let mut state = WidgetState::On(WidgetOnSubState::Brightness);
    let mut lamp = model(Some(5000), None, LampStatus::On);

    let out = handle_event(&mut state, &mut lamp, &Message::Increase);

    assert_eq!(out.payload, WidgetData::On(OnState::Brightness(6000)));
    assert!(out.needs_resync);
}

#[test]
fn delta_on_unknown_axis_sends_no_command() {
    let mut state = WidgetState::On(WidgetOnSubState::Brightness);
    let mut lamp = model(None, Some(2000), LampStatus::On);

    let out = handle_event(&mut state, &mut lamp, &Message::Increase);

    assert_eq!(lamp.brightness, None);
    assert_eq!(out.command, None);
    assert_eq!(out.payload, WidgetData::On(OnState::Loading));
    assert!(out.needs_resync);
}

#[test]
fn translation_reads_the_updated_model() {
    let lamp = model(Some(5000), Some(5000), LampStatus::On);
    assert_eq!(
        translate_command(LampAbstractCommand::TurnOn, &lamp),
        Some(LampCommand::On)
    );
    assert_eq!(
        translate_command(LampAbstractCommand::TurnOff, &lamp),
        Some(LampCommand::Off)
    );
    assert_eq!(
        translate_command(LampAbstractCommand::DeltaBrightness(1000), &lamp),
        Some(LampCommand::OnWithBrightness(5000))
    );
    assert_eq!(
        translate_command(LampAbstractCommand::DeltaTemperature(1000), &lamp),
        Some(LampCommand::OnWithTemperature(327))
    );
}
