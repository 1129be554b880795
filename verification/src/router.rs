//! Interaction routing: the closed set of button actions, parsing of the
//! inbound button identifier, the operation each action triggers, and the
//! fixed user-facing status texts. The user never sees raw failure detail.

use vstd::prelude::*;
use vstd::string::StringExecFns;
use crate::text::{dec_rep, str_eq, u32_to_dec};
use crate::transitions::Operation;

verus! {

/// What a button press asks for, parsed from the opaque identifier.
#[derive(Clone, Copy, PartialEq, Eq, Structural, Debug)]
pub enum ButtonAction {
    /// Plain on ("light_on").
    TurnOn,
    /// Plain off ("light_off").
    TurnOff,
    /// Timed on for the given minutes ("light_on_15" / "_30" / "_60").
    TurnOnTimed(u32),
    /// Any other identifier; triggers no device command.
    Unknown,
}

/// The fixed identifier set, mapped to actions; everything else is unknown.
pub open spec fn spec_parse(s: Seq<char>) -> ButtonAction {
    if s == "light_on"@ {
        ButtonAction::TurnOn
    } else if s == "light_off"@ {
        ButtonAction::TurnOff
    } else if s == "light_on_15"@ {
        ButtonAction::TurnOnTimed(15)
    } else if s == "light_on_30"@ {
        ButtonAction::TurnOnTimed(30)
    } else if s == "light_on_60"@ {
        ButtonAction::TurnOnTimed(60)
    } else {
        ButtonAction::Unknown
    }
}

/// Parses an inbound button identifier.
pub fn parse_interaction(id: &str) -> (a: ButtonAction)
    ensures
        a == spec_parse(id@),
{
    if str_eq(id, "light_on") {
        ButtonAction::TurnOn
    } else if str_eq(id, "light_off") {
        ButtonAction::TurnOff
    } else if str_eq(id, "light_on_15") {
        ButtonAction::TurnOnTimed(15)
    } else if str_eq(id, "light_on_30") {
        ButtonAction::TurnOnTimed(30)
    } else if str_eq(id, "light_on_60") {
        ButtonAction::TurnOnTimed(60)
    } else {
        ButtonAction::Unknown
    }
}

/// The device operation an action triggers; an unknown action triggers
/// none.
pub fn action_operation(a: &ButtonAction) -> (r: Option<Operation>)
    ensures
        match *a {
            ButtonAction::TurnOn => r == Some(Operation::TurnOnPlain),
            ButtonAction::TurnOff => r == Some(Operation::TurnOff),
            ButtonAction::TurnOnTimed(m) => r == Some(Operation::TurnOnTimed(m)),
            ButtonAction::Unknown => r is None,
        },
{
    match a {
        ButtonAction::TurnOn => Some(Operation::TurnOnPlain),
        ButtonAction::TurnOff => Some(Operation::TurnOff),
        ButtonAction::TurnOnTimed(m) => Some(Operation::TurnOnTimed(*m)),
        ButtonAction::Unknown => None,
    }
}

/// The user-visible status text for an action and its outcome: one of a
/// small fixed set of strings, never raw failure detail.
pub open spec fn spec_response(a: ButtonAction, ok: bool) -> Seq<char> {
    match a {
        ButtonAction::TurnOn => if ok {
            "Light turned on!"@
        } else {
            "Failed to turn on light"@
        },
        ButtonAction::TurnOff => if ok {
            "Light turned off!"@
        } else {
            "Failed to turn off light"@
        },
        ButtonAction::TurnOnTimed(m) => if ok {
            "Light turned on for "@ + dec_rep(m as int) + " minutes!"@
        } else {
            "Failed to set timed light"@
        },
        ButtonAction::Unknown => "Unknown button"@,
    }
}

/// Renders the status text for an action and its outcome.
pub fn response_text(a: &ButtonAction, ok: bool) -> (r: String)
    ensures
        r@ == spec_response(*a, ok),
{
    match a {
        ButtonAction::TurnOn => {
            if ok {
                "Light turned on!".to_owned()
            } else {
                "Failed to turn on light".to_owned()
            }
        },
        ButtonAction::TurnOff => {
            if ok {
                "Light turned off!".to_owned()
            } else {
                "Failed to turn off light".to_owned()
            }
        },
        ButtonAction::TurnOnTimed(m) => {
            if ok {
                let mut s: String = "Light turned on for ".to_owned();
                let mins = u32_to_dec(*m);
                s.append(mins.as_str());
                s.append(" minutes!");
                s
            } else {
                "Failed to set timed light".to_owned()
            }
        },
        ButtonAction::Unknown => "Unknown button".to_owned(),
    }
}

} // verus!
