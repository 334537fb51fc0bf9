//! The per-event step of the command ingestion loop: one button event
//! moves the interaction state, mutates the lamp model, and yields the
//! actuator call to make, the payload to broadcast, and whether the model
//! needs reconciling with the device. The loop around it — reading
//! events, the actuator round-trip, the fan-out to subscribers — is I/O
//! and lives outside this crate; events are handled strictly one at a
//! time.

use vstd::prelude::*;

use crate::ipc_protocol::Message;
use crate::lamp::LampCommand;
use crate::lamp_simulator::{spec_apply_command, LampState, LampStatus};
use crate::widget_state::{
    spec_apply, spec_with_data, LampAbstractCommand, WidgetData, WidgetState,
};

verus! {

/// What one button event worked out to: the actuator call to issue (if
/// any), the payload every subscriber should now be shown, and whether
/// the model must be re-read from the device.
pub struct StepOutcome {
    pub command: Option<LampCommand>,
    pub payload: WidgetData,
    pub needs_resync: bool,
}

/// The concrete actuator call for an emitted abstract command, read
/// against the model after the command was applied: power commands as
/// they are, a delta as the absolute value it moved the axis to. `None`
/// when the moved axis is still unknown — the delta changed nothing, and
/// there is no absolute value to send until reconciliation fills the
/// axis in.
pub open spec fn spec_translate_command(c: LampAbstractCommand, m: LampState) -> Option<
    LampCommand,
> {
    match c {
        LampAbstractCommand::TurnOn => Some(LampCommand::On),
        LampAbstractCommand::TurnOff => Some(LampCommand::Off),
        LampAbstractCommand::DeltaBrightness(_) => match m.brightness {
            Some(b) => Some(LampCommand::OnWithBrightness(b)),
            None => None,
        },
        LampAbstractCommand::DeltaTemperature(_) => match m.spec_fixed_temperature() {
            Some(v) => Some(LampCommand::OnWithTemperature(v as u32)),
            None => None,
        },
    }
}

/// Translates an abstract command into the concrete actuator call, per
/// `spec_translate_command`.
pub fn translate_command(c: LampAbstractCommand, model: &LampState) -> (r: Option<LampCommand>)
    requires
        model.wf(),
    ensures
        r == spec_translate_command(c, *model),
        r matches Some(cc) ==> cc.wf(),
{
    match c {
        LampAbstractCommand::TurnOn => Some(LampCommand::On),
        LampAbstractCommand::TurnOff => Some(LampCommand::Off),
        LampAbstractCommand::DeltaBrightness(_) => match model.brightness {
            Some(b) => Some(LampCommand::OnWithBrightness(b)),
            None => None,
        },
        LampAbstractCommand::DeltaTemperature(_) => match model.get_fixed_temperature() {
            Some(v) => Some(LampCommand::OnWithTemperature(v)),
            None => None,
        },
    }
}

/// Runs one button event, strictly sequentially with respect to any
/// other: moves the interaction state through the transition table,
/// applies the emitted command to the model, and reports what the caller
/// must now do — issue the actuator call, broadcast the payload, and
/// reconcile if the model is on with an axis still unknown.
pub fn handle_event(state: &mut WidgetState, model: &mut LampState, message: &Message) -> (out:
    StepOutcome)
    requires
        old(model).wf(),
    ensures
        final(model).wf(),
        ({
            let (next_state, cmd) = spec_apply(*old(state), *message);
            &&& *final(state) == next_state
            &&& *final(model) == (match cmd {
                Some(c) => spec_apply_command(*old(model), c),
                None => *old(model),
            })
            &&& out.command == (match cmd {
                Some(c) => spec_translate_command(c, *final(model)),
                None => None::<LampCommand>,
            })
            &&& (out.command matches Some(cc) ==> cc.wf())
            &&& out.payload == spec_with_data(*final(state), *final(model))
            &&& out.payload.wf()
            &&& out.needs_resync == (final(model).status is On && (final(model).brightness is None
                || final(model).temperature is None))
        }),
{
    let cmd = state.apply(message);
    let command = match cmd {
        Some(c) => {
            model.apply_abstract_command(c);
            translate_command(c, model)
        }
        None => None,
    };
    let payload = state.with_data(model);
    let needs_resync = matches!(model.status, LampStatus::On) && (model.brightness.is_none()
        || model.temperature.is_none());
    StepOutcome { command, payload, needs_resync }
}

} // verus!
