//! The widget interaction state machine: which mode the display is in, how
//! one button event moves it, which abstract command it forwards, and the
//! projection of (state, model) into the payload a display client sees.

use vstd::prelude::*;

use crate::ipc_protocol::Message;
use crate::lamp_simulator::{LampState, LampStatus};

verus! {

/// One button press moves an axis by ten percent, in model units.
pub const BUTTON_STEP_UP: i32 = 1000;

/// The downward step of ten percent, in model units.
pub const BUTTON_STEP_DOWN: i32 = -1000;

/// The payload a display client is shown, as a closed sum: either off, or
/// on with the value of the axis being adjusted, or on with the value not
/// yet known.
#[derive(Debug, Clone, Copy, PartialEq, Eq, Structural)]
pub enum WidgetData {
    On(OnState),
    Off,
}

impl WidgetData {
    /// Any value shown is a percentage in model units.
    pub open spec fn wf(self) -> bool {
        match self {
            WidgetData::On(OnState::Brightness(h)) => h <= crate::lamp_simulator::PCT_SCALE,
            WidgetData::On(OnState::Temperature(h)) => h <= crate::lamp_simulator::PCT_SCALE,
            _ => true,
        }
    }
}

/// What an `On` display shows. `Loading` means the shown axis has not been
/// reconciled with the device yet. Values are hundredths of a percent.
#[derive(Debug, Clone, Copy, PartialEq, Eq, Structural)]
pub enum OnState {
    Brightness(u32),
    Temperature(u32),
    Loading,
}

/// The interaction state of the widget: off, or on and showing one axis.
#[derive(Debug, Clone, Copy, PartialEq, Eq, Structural)]
pub enum WidgetState {
    On(WidgetOnSubState),
    Off,
}

/// The axis an `On` widget is adjusting; meaningful only while on.
#[derive(Debug, Clone, Copy, PartialEq, Eq, Structural)]
pub enum WidgetOnSubState {
    Brightness,
    Temperature,
}

/// The command the state machine forwards to the lamp model and the
/// actuator. Deltas are in hundredths of a percent.
#[derive(Debug, Clone, Copy, PartialEq, Eq, Structural)]
pub enum LampAbstractCommand {
    TurnOff,
    TurnOn,
    DeltaBrightness(i32),
    DeltaTemperature(i32),
}

/// The delta command for the axis currently shown.
pub open spec fn spec_delta_command(sub: WidgetOnSubState, delta: i32) -> LampAbstractCommand {
    match sub {
        WidgetOnSubState::Brightness => LampAbstractCommand::DeltaBrightness(delta),
        WidgetOnSubState::Temperature => LampAbstractCommand::DeltaTemperature(delta),
    }
}

/// The full transition table: for each (state, event) pair, the next state
/// and the command emitted. While off, only `ToggleState` does anything.
pub open spec fn spec_apply(s: WidgetState, m: Message) -> (WidgetState, Option<
    LampAbstractCommand,
>) {
    match (s, m) {
        (WidgetState::Off, Message::ToggleState) => (
            WidgetState::On(WidgetOnSubState::Brightness),
            Some(LampAbstractCommand::TurnOn),
        ),
        (WidgetState::Off, _) => (WidgetState::Off, None),
        (WidgetState::On(sub), Message::Increase) => (s, Some(spec_delta_command(sub, BUTTON_STEP_UP))),
        (WidgetState::On(sub), Message::Decrease) => (s, Some(spec_delta_command(sub, BUTTON_STEP_DOWN))),
        (WidgetState::On(WidgetOnSubState::Brightness), Message::ToggleMode) => (
            WidgetState::On(WidgetOnSubState::Temperature),
            None,
        ),
        (WidgetState::On(WidgetOnSubState::Temperature), Message::ToggleMode) => (
            WidgetState::On(WidgetOnSubState::Brightness),
            None,
        ),
        (WidgetState::On(_), Message::ToggleState) => (
            WidgetState::Off,
            Some(LampAbstractCommand::TurnOff),
        ),
    }
}

/// The projection of (interaction state, lamp model) into a display
/// payload. Total: defined for every pair, and `Off` projects to `Off`
/// whatever the model holds.
pub open spec fn spec_with_data(s: WidgetState, data: LampState) -> WidgetData {
    match s {
        WidgetState::On(sub) => WidgetData::On(
            match sub {
                WidgetOnSubState::Brightness => match data.brightness {
                    Some(b) => OnState::Brightness(b),
                    None => OnState::Loading,
                },
                WidgetOnSubState::Temperature => match data.temperature {
                    Some(t) => OnState::Temperature(t),
                    None => OnState::Loading,
                },
            },
        ),
        WidgetState::Off => WidgetData::Off,
    }
}

impl WidgetState {
    /// The state the widget starts in, derived from the device's live
    /// status at boot.
    pub fn from_status(status: LampStatus) -> (r: WidgetState)
        ensures
            r == (match status {
                LampStatus::On => WidgetState::On(WidgetOnSubState::Brightness),
                LampStatus::Off => WidgetState::Off,
            }),
    {
        match status {
            LampStatus::On => WidgetState::On(WidgetOnSubState::Brightness),
            LampStatus::Off => WidgetState::Off,
        }
    }

    /// Feeds one button event through the transition table: moves the
    /// state and returns the command to forward, exactly per `spec_apply`.
    pub fn apply(&mut self, message: &Message) -> (r: Option<LampAbstractCommand>)
        ensures
            (*final(self), r) == spec_apply(*old(self), *message),
    {
        let s = *self;
        match (s, *message) {
            (WidgetState::Off, Message::ToggleState) => {
                *self = WidgetState::On(WidgetOnSubState::Brightness);
                Some(LampAbstractCommand::TurnOn)
            }
            (WidgetState::Off, _) => None,
            (WidgetState::On(sub), Message::Increase) => Some(
                match sub {
                    WidgetOnSubState::Brightness => LampAbstractCommand::DeltaBrightness(
                        BUTTON_STEP_UP,
                    ),
                    WidgetOnSubState::Temperature => LampAbstractCommand::DeltaTemperature(
                        BUTTON_STEP_UP,
                    ),
                },
            ),
            (WidgetState::On(sub), Message::Decrease) => Some(
                match sub {
                    WidgetOnSubState::Brightness => LampAbstractCommand::DeltaBrightness(
                        BUTTON_STEP_DOWN,
                    ),
                    WidgetOnSubState::Temperature => LampAbstractCommand::DeltaTemperature(
                        BUTTON_STEP_DOWN,
                    ),
                },
            ),
            (WidgetState::On(WidgetOnSubState::Brightness), Message::ToggleMode) => {
                *self = WidgetState::On(WidgetOnSubState::Temperature);
                None
            }
            (WidgetState::On(WidgetOnSubState::Temperature), Message::ToggleMode) => {
                *self = WidgetState::On(WidgetOnSubState::Brightness);
                None
            }
            (WidgetState::On(_), Message::ToggleState) => {
                *self = WidgetState::Off;
                Some(LampAbstractCommand::TurnOff)
            }
        }
    }

    /// Projects the pair into the payload a client is shown, exactly per
    /// `spec_with_data`. Takes no precondition: the projection is total.
    pub fn with_data(&self, data: &LampState) -> (r: WidgetData)
        ensures
            r == spec_with_data(*self, *data),
            data.wf() ==> r.wf(),
    {
        match self {
            WidgetState::On(sub) => WidgetData::On(
                match sub {
                    WidgetOnSubState::Brightness => match data.brightness {
                        Some(b) => OnState::Brightness(b),
                        None => OnState::Loading,
                    },
                    WidgetOnSubState::Temperature => match data.temperature {
                        Some(t) => OnState::Temperature(t),
                        None => OnState::Loading,
                    },
                },
            ),
            WidgetState::Off => WidgetData::Off,
        }
    }
}

/// Whatever the lamp model holds, an `Off` widget projects to the `Off`
/// payload.
pub proof fn lemma_off_projects_off(data: LampState)
    ensures
        spec_with_data(WidgetState::Off, data) == WidgetData::Off,
{
}

} // verus!
