use vstd::prelude::*;

use crate::events::{is_action, UiAction, UiEvent};
use crate::geometry::Rect;
use crate::input::PointerState;

verus! {

/// A push button wired to one action, emitted on click or activation.
pub struct Button {
    pub action: UiAction,
    pub rect: Rect,
    pub label: &'static str,
    pub style: ButtonStyle,
    pub focused: bool,
}

pub struct ButtonStyle {
    pub idle_fill: &'static str,
    pub hover_fill: &'static str,
    pub pressed_fill: &'static str,
    pub border: &'static str,
    pub focus_border: &'static str,
    pub text: &'static str,
    pub font: &'static str,
}

impl Default for ButtonStyle {
    fn default() -> (r: Self)
        ensures
            r.idle_fill@ == "#18233d"@,
            r.hover_fill@ == "#283960"@,
            r.pressed_fill@ == "#1f2a47"@,
            r.border@ == "#3d5387"@,
            r.focus_border@ == "#27ffd8"@,
            r.text@ == "#d8e3ff"@,
            r.font@ == "600 22px Consolas"@,
    {
        ButtonStyle {
            idle_fill: "#18233d",
            hover_fill: "#283960",
            pressed_fill: "#1f2a47",
            border: "#3d5387",
            focus_border: "#27ffd8",
            text: "#d8e3ff",
            font: "600 22px Consolas",
        }
    }
}

/// What the pointer did to a button this frame.
pub struct ButtonInteraction {
    pub clicked: bool,
}

impl Button {
    pub open spec fn wf(self) -> bool {
        self.rect.wf()
    }

    /// The pointer hovers the button this frame.
    pub open spec fn spec_hovered(self, input: PointerState) -> bool {
        self.rect.spec_contains(input.x as int, input.y as int)
    }

    /// A click lands on the button: hovered with a release edge.
    pub open spec fn spec_clicked(self, input: PointerState) -> bool {
        self.spec_hovered(input) && input.just_released
    }

    /// Classifies this frame's pointer interaction with the button.
    pub fn render_interaction(&self, input: &PointerState) -> (r: ButtonInteraction)
        requires
            self.wf(),
            input.wf(),
        ensures
            r.clicked == self.spec_clicked(*input),
    {
        let hovered = self.rect.contains(input.x, input.y);
        ButtonInteraction { clicked: hovered && input.just_released }
    }

    /// One frame: emits the wired action exactly when clicked; the state is
    /// unchanged (a button holds none besides its focus flag).
    pub fn draw(&mut self, input: &PointerState) -> (events: Vec<UiEvent>)
        requires
            old(self).wf(),
            input.wf(),
        ensures
            *final(self) == *old(self),
            events@.len() == (if old(self).spec_clicked(*input) { 1int } else { 0int }),
            old(self).spec_clicked(*input) ==> is_action(events@[0], old(self).action),
    {
        let interaction = self.render_interaction(input);
        let mut events: Vec<UiEvent> = Vec::new();
        if interaction.clicked {
            events.push(UiEvent::Action(self.action));
        }
        events
    }

    pub fn focusable(&self) -> (r: bool)
        ensures
            r,
    {
        true
    }

    pub fn set_focused(&mut self, focused: bool)
        ensures
            *final(self) == (Button { focused, ..*old(self) }),
    {
        self.focused = focused;
    }

    /// Activation emits the wired action.
    pub fn activate(&mut self) -> (r: Option<UiEvent>)
        ensures
            *final(self) == *old(self),
            (r matches Some(e) && is_action(e, old(self).action)),
    {
        Some(UiEvent::Action(self.action))
    }
}

} // verus!
