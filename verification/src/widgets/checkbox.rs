use vstd::prelude::*;

use crate::events::{is_value_changed, spec_bool_str, UiEvent};
use crate::events::bool_str;
use crate::geometry::Rect;
use crate::input::PointerState;

verus! {

/// A boolean checkbox: click or keyboard toggles it; every actual toggle
/// emits one value-change event carrying "true" or "false".
pub struct Checkbox {
    pub key: &'static str,
    pub rect: Rect,
    pub value: bool,
    pub label: &'static str,
    pub focused: bool,
    pub style: CheckboxStyle,
}

pub struct CheckboxStyle {
    pub fill: &'static str,
    pub border: &'static str,
    pub focus_border: &'static str,
    pub check: &'static str,
    pub text: &'static str,
    pub font: &'static str,
}

impl Default for CheckboxStyle {
    fn default() -> (r: Self)
        ensures
            r.fill@ == "#0f172a"@,
            r.border@ == "#2a3350"@,
            r.focus_border@ == "#27ffd8"@,
            r.check@ == "#27ffd8"@,
            r.text@ == "#d8e3ff"@,
            r.font@ == "600 14px Consolas"@,
    {
        CheckboxStyle {
            fill: "#0f172a",
            border: "#2a3350",
            focus_border: "#27ffd8",
            check: "#27ffd8",
            text: "#d8e3ff",
            font: "600 14px Consolas",
        }
    }
}

impl Checkbox {
    pub open spec fn wf(self) -> bool {
        self.rect.wf()
    }

    /// Does this frame's input toggle the checkbox?  A click anywhere in its
    /// rect, or — while focused — an activate or a horizontal step.
    pub open spec fn spec_toggles(self, input: PointerState) -> bool {
        ||| self.rect.spec_contains(input.x as int, input.y as int) && input.just_released
        ||| self.focused && (input.activate_primary || input.move_left || input.move_right)
    }

    pub fn set_value(&mut self, value: bool)
        ensures
            *final(self) == (Checkbox { value, ..*old(self) }),
    {
        self.value = value;
    }

    /// The value-change event for the current value.
    pub fn emit_changed(&self) -> (e: UiEvent)
        ensures
            is_value_changed(e, self.key@, spec_bool_str(self.value)),
    {
        UiEvent::ValueChanged { key: self.key, value: bool_str(self.value).to_owned() }
    }

    /// One frame: flips the value exactly when toggled, emitting one event
    /// that carries the new value.
    pub fn draw(&mut self, input: &PointerState) -> (events: Vec<UiEvent>)
        requires
            old(self).wf(),
            input.wf(),
        ensures
            *final(self) == (Checkbox {
                value: old(self).value != old(self).spec_toggles(*input),
                ..*old(self)
            }),
            events@.len() == (if old(self).spec_toggles(*input) { 1int } else { 0int }),
            old(self).spec_toggles(*input) ==> is_value_changed(
                events@[0], old(self).key@, spec_bool_str(!old(self).value)),
    {
        let mut events: Vec<UiEvent> = Vec::new();
        let hovered = self.rect.contains(input.x, input.y);
        if (hovered && input.just_released)
            || (self.focused && (input.activate_primary || input.move_left || input.move_right)) {
            self.value = !self.value;
            events.push(self.emit_changed());
        }
        events
    }

    pub fn focusable(&self) -> (r: bool)
        ensures
            r,
    {
        true
    }

    pub fn set_focused(&mut self, focused: bool)
        ensures
            *final(self) == (Checkbox { focused, ..*old(self) }),
    {
        self.focused = focused;
    }

    /// Activation flips the value and emits the change.
    pub fn activate(&mut self) -> (r: Option<UiEvent>)
        ensures
            *final(self) == (Checkbox { value: !old(self).value, ..*old(self) }),
            (r matches Some(e) && is_value_changed(
                e, old(self).key@, spec_bool_str(!old(self).value))),
    {
        self.value = !self.value;
        Some(self.emit_changed())
    }
}

} // verus!
