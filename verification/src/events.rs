use vstd::prelude::*;

verus! {

/// An application-level command a widget can be wired to emit.
#[derive(Clone, Copy, PartialEq, Eq, Structural, Debug)]
pub enum UiAction {
    ToggleAccent,
    SetNeon(bool),
    OpenModal,
}

/// An event bubbled out of a draw pass: either a wired action or a
/// keyed value change carrying the new value as text.
pub enum UiEvent {
    Action(UiAction),
    ValueChanged { key: &'static str, value: String },
}

/// Is this event a value change for `key` carrying exactly `value`?
pub open spec fn is_value_changed(e: UiEvent, key: Seq<char>, value: Seq<char>) -> bool {
    match e {
        UiEvent::ValueChanged { key: k, value: v } => k@ == key && v@ == value,
        _ => false,
    }
}

/// Is this event exactly the given action?
pub open spec fn is_action(e: UiEvent, action: UiAction) -> bool {
    match e {
        UiEvent::Action(a) => a == action,
        _ => false,
    }
}

/// The textual form a boolean value change carries.
pub open spec fn spec_bool_str(b: bool) -> Seq<char> {
    if b {
        "true"@
    } else {
        "false"@
    }
}

/// The textual form of a boolean, as carried by value-change events.
pub fn bool_str(b: bool) -> (r: &'static str)
    ensures
        r@ == spec_bool_str(b),
{
    if b {
        "true"
    } else {
        "false"
    }
}

} // verus!
