//! The two line protocols spoken over the local socket and stdin: button
//! events arrive as lowercase tokens, one per line; display payloads leave
//! as one JSON object per line (rendered in `widget_state`).

use vstd::prelude::*;
use vstd::string::{StrSliceExecFns, StringExecFns};

use crate::decimal::{append_pct_decimal, spec_pct_decimal};
use crate::widget_state::{OnState, WidgetData};

verus! {

/// A raw button event from the physical widget. Stateless; events arrive
/// as a sequential, ordered stream.
#[derive(Clone, Copy, Debug, PartialEq, Eq, Structural)]
pub enum Message {
    Increase,
    Decrease,
    ToggleMode,
    ToggleState,
}

/// The wire token for each event, per the command-input protocol.
pub open spec fn spec_message_token(m: Message) -> Seq<char> {
    match m {
        Message::Increase => "increase"@,
        Message::Decrease => "decrease"@,
        Message::ToggleMode => "toggle_mode"@,
        Message::ToggleState => "toggle_state"@,
    }
}

/// What one input line decodes to: exactly one of the four tokens,
/// case-sensitive, or nothing.
pub open spec fn spec_parse_message(s: Seq<char>) -> Option<Message> {
    if s == spec_message_token(Message::Increase) {
        Some(Message::Increase)
    } else if s == spec_message_token(Message::Decrease) {
        Some(Message::Decrease)
    } else if s == spec_message_token(Message::ToggleMode) {
        Some(Message::ToggleMode)
    } else if s == spec_message_token(Message::ToggleState) {
        Some(Message::ToggleState)
    } else {
        None
    }
}

/// Character-by-character string comparison, so that token matching can be
/// stated over the string views.
fn str_eq(a: &str, b: &str) -> (r: bool)
    ensures
        r == (a@ == b@),
{
    let a_len = a.unicode_len();
    let b_len = b.unicode_len();
    if a_len != b_len {
        return false;
    }
    let mut i: usize = 0;
    while i < a_len
        invariant
            a_len == a@.len(),
            b_len == b@.len(),
            a_len == b_len,
            i <= a_len,
            forall|j: int| 0 <= j < i ==> a@[j] == b@[j],
        decreases a_len - i,
    {
        if a.get_char(i) != b.get_char(i) {
            return false;
        }
        i = i + 1;
    }
    proof {
        assert(a@ =~= b@);
    }
    true
}

impl Message {
    /// Decodes one input line. Returns `None` on a malformed line, which
    /// the caller reports and skips; no input is ever fatal.
    pub fn parse(line: &str) -> (r: Option<Message>)
        ensures
            r == spec_parse_message(line@),
    {
        if str_eq(line, "increase") {
            Some(Message::Increase)
        } else if str_eq(line, "decrease") {
            Some(Message::Decrease)
        } else if str_eq(line, "toggle_mode") {
            Some(Message::ToggleMode)
        } else if str_eq(line, "toggle_state") {
            Some(Message::ToggleState)
        } else {
            None
        }
    }
}

/// The JSON object one display payload serializes to on the display
/// protocol.
pub open spec fn spec_widget_data_json(p: WidgetData) -> Seq<char> {
    match p {
        WidgetData::Off => "{\"state\":\"off\"}"@,
        WidgetData::On(OnState::Loading) => "{\"state\":\"on\",\"type\":\"loading\"}"@,
        WidgetData::On(OnState::Brightness(h)) => "{\"state\":\"on\",\"type\":\"brightness\",\"value\":"@
            + spec_pct_decimal(h as int) + "}"@,
        WidgetData::On(OnState::Temperature(h)) => "{\"state\":\"on\",\"type\":\"temperature\",\"value\":"@
            + spec_pct_decimal(h as int) + "}"@,
    }
}

/// Serializes one display payload to its JSON object.
pub fn encode_widget_data(payload: &WidgetData) -> (r: String)
    requires
        payload.wf(),
    ensures
        r@ == spec_widget_data_json(*payload),
{
    match payload {
        WidgetData::Off => String::from_str("{\"state\":\"off\"}"),
        WidgetData::On(OnState::Loading) => String::from_str("{\"state\":\"on\",\"type\":\"loading\"}"),
        WidgetData::On(OnState::Brightness(h)) => {
            let mut s = String::from_str("{\"state\":\"on\",\"type\":\"brightness\",\"value\":");
            append_pct_decimal(&mut s, *h);
            s.append("}");
            proof {
                assert(s@ =~= spec_widget_data_json(*payload));
            }
            s
        }
        WidgetData::On(OnState::Temperature(h)) => {
            let mut s = String::from_str("{\"state\":\"on\",\"type\":\"temperature\",\"value\":");
            append_pct_decimal(&mut s, *h);
            s.append("}");
            proof {
                assert(s@ =~= spec_widget_data_json(*payload));
            }
            s
        }
    }
}

/// Serializes one display payload as one line of the stream: the JSON
/// object followed by a newline.
pub fn encode_widget_data_line(payload: &WidgetData) -> (r: String)
    requires
        payload.wf(),
    ensures
        r@ == spec_widget_data_json(*payload) + "\n"@,
{
    let mut s = encode_widget_data(payload);
    s.append("\n");
    s
}

} // verus!
