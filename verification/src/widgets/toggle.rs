use vstd::prelude::*;

use crate::events::{is_action, UiAction, UiEvent};
use crate::geometry::Rect;
use crate::input::PointerState;

verus! {

/// A labelled on/off switch; flipping it emits a neon-mode action carrying
/// the new value.
pub struct Toggle {
    pub rect: Rect,
    pub value: bool,
    pub label: &'static str,
    pub style: ToggleStyle,
    pub focused: bool,
}

pub struct ToggleStyle {
    pub on_fill: &'static str,
    pub off_fill: &'static str,
    pub knob_fill: &'static str,
    pub text_fill: &'static str,
    pub focus_border: &'static str,
    pub font: &'static str,
}

impl Default for ToggleStyle {
    fn default() -> (r: Self)
        ensures
            r.on_fill@ == "#1f8f7c"@,
            r.off_fill@ == "#2d344a"@,
            r.knob_fill@ == "#d8e3ff"@,
            r.text_fill@ == "#d8e3ff"@,
            r.focus_border@ == "#27ffd8"@,
            r.font@ == "600 15px Consolas"@,
    {
        ToggleStyle {
            on_fill: "#1f8f7c",
            off_fill: "#2d344a",
            knob_fill: "#d8e3ff",
            text_fill: "#d8e3ff",
            focus_border: "#27ffd8",
            font: "600 15px Consolas",
        }
    }
}

impl Toggle {
    pub open spec fn wf(self) -> bool {
        self.rect.wf()
    }

    /// A click lands on the toggle this frame.
    pub open spec fn spec_clicked(self, input: PointerState) -> bool {
        self.rect.spec_contains(input.x as int, input.y as int) && input.just_released
    }

    pub fn set_value(&mut self, value: bool)
        ensures
            *final(self) == (Toggle { value, ..*old(self) }),
    {
        self.value = value;
    }

    /// One frame: a click flips the value and emits the action with the new
    /// value; otherwise nothing changes.
    pub fn draw(&mut self, input: &PointerState) -> (events: Vec<UiEvent>)
        requires
            old(self).wf(),
            input.wf(),
        ensures
            *final(self) == (Toggle {
                value: old(self).value != old(self).spec_clicked(*input),
                ..*old(self)
            }),
            events@.len() == (if old(self).spec_clicked(*input) { 1int } else { 0int }),
            old(self).spec_clicked(*input) ==> is_action(
                events@[0], UiAction::SetNeon(!old(self).value)),
    {
        let mut events: Vec<UiEvent> = Vec::new();
        let clicked = self.rect.contains(input.x, input.y) && input.just_released;
        if clicked {
            self.value = !self.value;
            events.push(UiEvent::Action(UiAction::SetNeon(self.value)));
        }
        events
    }

    pub fn focusable(&self) -> (r: bool)
        ensures
            r,
    {
        true
    }

    pub fn set_focused(&mut self, focused: bool)
        ensures
            *final(self) == (Toggle { focused, ..*old(self) }),
    {
        self.focused = focused;
    }

    /// Activation flips the value and emits the action with the new value.
    pub fn activate(&mut self) -> (r: Option<UiEvent>)
        ensures
            *final(self) == (Toggle { value: !old(self).value, ..*old(self) }),
            (r matches Some(e) && is_action(e, UiAction::SetNeon(!old(self).value))),
    {
        self.value = !self.value;
        Some(UiEvent::Action(UiAction::SetNeon(self.value)))
    }
}

} // verus!
