//! The concrete command a lamp accepts, and its encoding for the actuator
//! backend: which service it addresses and the JSON body of the call. The
//! HTTP transport that carries the call lives outside this crate.

use vstd::prelude::*;
use vstd::string::StringExecFns;

use crate::decimal::{append_decimal, append_pct_decimal, spec_decimal, spec_pct_decimal};
use crate::lamp_simulator::PCT_SCALE;

verus! {

/// A concrete actuator command: turn on (plain, or to an absolute
/// brightness percentage, or to an absolute raw temperature) or turn off.
#[derive(Debug, Clone, Copy, PartialEq, Eq, Structural)]
pub enum LampCommand {
    On,
    OnWithBrightness(u32),
    OnWithTemperature(u32),
    Off,
}

impl LampCommand {
    /// A brightness carried along is a percentage in model units.
    pub open spec fn wf(self) -> bool {
        match self {
            LampCommand::OnWithBrightness(b) => b <= PCT_SCALE,
            _ => true,
        }
    }

    /// The actuator service the command addresses.
    pub open spec fn spec_service(self) -> Seq<char> {
        match self {
            LampCommand::Off => "turn_off"@,
            _ => "turn_on"@,
        }
    }

    /// The service name to call: every on-command turns the device on,
    /// `Off` turns it off.
    pub fn service(&self) -> (r: &'static str)
        ensures
            r@ == self.spec_service(),
    {
        match self {
            LampCommand::Off => "turn_off",
            _ => "turn_on",
        }
    }

    /// The JSON body of the actuator call: the entity addressed and, for
    /// a command with a value, that value, keys in sorted order. The
    /// entity id is inserted verbatim, unescaped.
    pub open spec fn spec_json_body(self, entity_id: Seq<char>) -> Seq<char> {
        match self {
            LampCommand::OnWithBrightness(b) => "{\"brightness_pct\":"@ + spec_pct_decimal(b as int)
                + ",\"entity_id\":\""@ + entity_id + "\"}"@,
            LampCommand::OnWithTemperature(t) => "{\"color_temp\":"@ + spec_decimal(t as nat)
                + ",\"entity_id\":\""@ + entity_id + "\"}"@,
            _ => "{\"entity_id\":\""@ + entity_id + "\"}"@,
        }
    }

    /// Serializes the body of the actuator call.
    pub fn json_body(&self, entity_id: &str) -> (r: String)
        requires
            self.wf(),
        ensures
            r@ == self.spec_json_body(entity_id@),
    {
        match self {
            LampCommand::OnWithBrightness(b) => {
                let mut s = String::from_str("{\"brightness_pct\":");
                append_pct_decimal(&mut s, *b);
                s.append(",\"entity_id\":\"");
                s.append(entity_id);
                s.append("\"}");
                proof {
                    assert(s@ =~= self.spec_json_body(entity_id@));
                }
                s
            }
            LampCommand::OnWithTemperature(t) => {
                let mut s = String::from_str("{\"color_temp\":");
                append_decimal(&mut s, *t);
                s.append(",\"entity_id\":\"");
                s.append(entity_id);
                s.append("\"}");
                proof {
                    assert(s@ =~= self.spec_json_body(entity_id@));
                }
                s
            }
            _ => {
                let mut s = String::from_str("{\"entity_id\":\"");
                s.append(entity_id);
                s.append("\"}");
                proof {
                    assert(s@ =~= self.spec_json_body(entity_id@));
                }
                s
            }
        }
    }
}

} // verus!
