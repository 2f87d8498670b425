use vstd::prelude::*;

use crate::events::{is_value_changed, spec_bool_str, UiEvent};
use crate::events::bool_str;
use crate::geometry::Rect;
use crate::input::PointerState;

verus! {

/// A full-surface overlay with a centred panel and confirm/cancel buttons.
/// Inert while closed.  While open, a cancel signal, a click on either
/// button, or a click outside the panel closes it, emitting an open-state
/// event ("false") and a result event ("confirm", "cancel" or "dismiss").
pub struct Modal {
    pub key: &'static str,
    pub result_key: &'static str,
    pub rect: Rect,
    pub open: bool,
    pub title: String,
    pub message: String,
    pub confirm_label: &'static str,
    pub cancel_label: &'static str,
    pub focused: bool,
    pub style: ModalStyle,
}

pub struct ModalStyle {
    pub overlay: &'static str,
    pub panel_fill: &'static str,
    pub panel_border: &'static str,
    pub focus_border: &'static str,
    pub title: &'static str,
    pub text: &'static str,
    pub button_idle: &'static str,
    pub button_hover: &'static str,
    pub button_text: &'static str,
    pub title_font: &'static str,
    pub body_font: &'static str,
    pub button_font: &'static str,
}

impl Default for ModalStyle {
    fn default() -> (r: Self)
        ensures
            r.overlay@ == "rgba(3,8,20,0.7)"@,
            r.panel_fill@ == "#0f172a"@,
            r.panel_border@ == "#2a3350"@,
            r.focus_border@ == "#27ffd8"@,
            r.title@ == "#e7eeff"@,
            r.text@ == "#b8c8ea"@,
            r.button_idle@ == "#1a2743"@,
            r.button_hover@ == "#283960"@,
            r.button_text@ == "#e2ebff"@,
            r.title_font@ == "700 18px Consolas"@,
            r.body_font@ == "15px Consolas"@,
            r.button_font@ == "600 14px Consolas"@,
    {
        ModalStyle {
            overlay: "rgba(3,8,20,0.7)",
            panel_fill: "#0f172a",
            panel_border: "#2a3350",
            focus_border: "#27ffd8",
            title: "#e7eeff",
            text: "#b8c8ea",
            button_idle: "#1a2743",
            button_hover: "#283960",
            button_text: "#e2ebff",
            title_font: "700 18px Consolas",
            body_font: "15px Consolas",
            button_font: "600 14px Consolas",
        }
    }
}

/// The widest the centred panel may grow.
pub const MODAL_MAX_WIDTH: i64 = 460;

/// The narrowest the centred panel may shrink.
pub const MODAL_MIN_WIDTH: i64 = 280;

/// The tallest the centred panel may grow.
pub const MODAL_MAX_HEIGHT: i64 = 220;

/// The shortest the centred panel may shrink.
pub const MODAL_MIN_HEIGHT: i64 = 170;

/// How the modal was closed this frame, if it was.
pub enum ModalOutcome {
    Confirm,
    Cancel,
    Dismiss,
}

impl Modal {
    pub open spec fn wf(self) -> bool {
        self.rect.wf()
    }

    /// The centred panel: the overlay size clamped into the panel's bounds,
    /// centred (with floor division) in the overlay.
    pub open spec fn spec_panel_rect(self) -> Rect {
        let width = if self.rect.width > MODAL_MAX_WIDTH {
            MODAL_MAX_WIDTH as int
        } else if self.rect.width < MODAL_MIN_WIDTH {
            MODAL_MIN_WIDTH as int
        } else {
            self.rect.width as int
        };
        let height = if self.rect.height > MODAL_MAX_HEIGHT {
            MODAL_MAX_HEIGHT as int
        } else if self.rect.height < MODAL_MIN_HEIGHT {
            MODAL_MIN_HEIGHT as int
        } else {
            self.rect.height as int
        };
        Rect {
            x: (self.rect.x + (self.rect.width - width) / 2) as i64,
            y: (self.rect.y + (self.rect.height - height) / 2) as i64,
            width: width as i64,
            height: height as i64,
        }
    }

    /// The confirm button's rect inside the panel.
    pub open spec fn spec_confirm_rect(panel: Rect) -> Rect {
        Rect {
            x: (panel.x + panel.width - 220) as i64,
            y: (panel.y + panel.height - 52) as i64,
            width: 96,
            height: 34,
        }
    }

    /// The cancel button's rect inside the panel.
    pub open spec fn spec_cancel_rect(panel: Rect) -> Rect {
        Rect {
            x: (panel.x + panel.width - 112) as i64,
            y: (panel.y + panel.height - 52) as i64,
            width: 96,
            height: 34,
        }
    }

    /// How this frame's input closes the open modal, if it does.
    pub open spec fn spec_outcome(self, input: PointerState) -> Option<ModalOutcome> {
        let panel = self.spec_panel_rect();
        let confirm = Modal::spec_confirm_rect(panel);
        let cancel = Modal::spec_cancel_rect(panel);
        let px = input.x as int;
        let py = input.y as int;
        if !self.open {
            None
        } else if input.cancel {
            Some(ModalOutcome::Cancel)
        } else if input.just_released {
            if confirm.spec_contains(px, py) {
                Some(ModalOutcome::Confirm)
            } else if cancel.spec_contains(px, py) {
                Some(ModalOutcome::Cancel)
            } else if !panel.spec_contains(px, py) {
                Some(ModalOutcome::Dismiss)
            } else {
                None
            }
        } else {
            None
        }
    }

    /// The textual form of an outcome, as the result event carries it.
    pub open spec fn spec_outcome_str(outcome: ModalOutcome) -> Seq<char> {
        match outcome {
            ModalOutcome::Confirm => "confirm"@,
            ModalOutcome::Cancel => "cancel"@,
            ModalOutcome::Dismiss => "dismiss"@,
        }
    }

    pub fn set_open(&mut self, open: bool)
        ensures
            *final(self) == (Modal { open, ..*old(self) }),
    {
        self.open = open;
    }

    pub fn set_message(&mut self, message: String)
        ensures
            *final(self) == (Modal { message: final(self).message, ..*old(self) }),
            final(self).message == message,
    {
        self.message = message;
    }

    /// The centred panel's rect.
    pub fn panel_rect(&self) -> (r: Rect)
        requires
            self.wf(),
        ensures
            r == self.spec_panel_rect(),
    {
        let width: i64 = if self.rect.width > MODAL_MAX_WIDTH {
            MODAL_MAX_WIDTH
        } else if self.rect.width < MODAL_MIN_WIDTH {
            MODAL_MIN_WIDTH
        } else {
            self.rect.width
        };
        let height: i64 = if self.rect.height > MODAL_MAX_HEIGHT {
            MODAL_MAX_HEIGHT
        } else if self.rect.height < MODAL_MIN_HEIGHT {
            MODAL_MIN_HEIGHT
        } else {
            self.rect.height
        };
        Rect {
            x: self.rect.x + Rect::half_floor(self.rect.width - width),
            y: self.rect.y + Rect::half_floor(self.rect.height - height),
            width,
            height,
        }
    }

    /// The confirm button's rect inside `panel`.
    pub fn confirm_rect(&self, panel: Rect) -> (r: Rect)
        requires
            panel.x > i64::MIN + 1000,
            panel.x < i64::MAX - 0x200_0000,
            panel.y > i64::MIN + 1000,
            panel.y < i64::MAX - 0x200_0000,
            0 <= panel.width <= 0x100_0000,
            0 <= panel.height <= 0x100_0000,
        ensures
            r == Modal::spec_confirm_rect(panel),
    {
        Rect { x: panel.x + panel.width - 220, y: panel.y + panel.height - 52, width: 96,
            height: 34 }
    }

    /// The cancel button's rect inside `panel`.
    pub fn cancel_rect(&self, panel: Rect) -> (r: Rect)
        requires
            panel.x > i64::MIN + 1000,
            panel.x < i64::MAX - 0x200_0000,
            panel.y > i64::MIN + 1000,
            panel.y < i64::MAX - 0x200_0000,
            0 <= panel.width <= 0x100_0000,
            0 <= panel.height <= 0x100_0000,
        ensures
            r == Modal::spec_cancel_rect(panel),
    {
        Rect { x: panel.x + panel.width - 112, y: panel.y + panel.height - 52, width: 96,
            height: 34 }
    }

    /// The open-state event for the current open flag.
    pub fn emit_open(&self) -> (e: UiEvent)
        ensures
            is_value_changed(e, self.key@, spec_bool_str(self.open)),
    {
        UiEvent::ValueChanged { key: self.key, value: bool_str(self.open).to_owned() }
    }

    /// A result event carrying `result`.
    pub fn emit_result(&self, result: &str) -> (e: UiEvent)
        ensures
            is_value_changed(e, self.result_key@, result@),
    {
        UiEvent::ValueChanged { key: self.result_key, value: result.to_owned() }
    }

    /// One frame: while closed nothing happens; while open, a cancel signal,
    /// a click on confirm or cancel, or a click outside the panel closes the
    /// modal and emits the open-state event followed by the result event.
    pub fn draw(&mut self, input: &PointerState) -> (events: Vec<UiEvent>)
        requires
            old(self).wf(),
            input.wf(),
        ensures
            final(self).wf(),
            *final(self) == (Modal {
                open: old(self).spec_outcome(*input) is None && old(self).open,
                ..*old(self)
            }),
            events@.len() == (if old(self).spec_outcome(*input) is Some { 2int } else { 0int }),
            (old(self).spec_outcome(*input) matches Some(outcome) ==> {
                &&& is_value_changed(events@[0], old(self).key@, spec_bool_str(false))
                &&& is_value_changed(events@[1], old(self).result_key@,
                    Modal::spec_outcome_str(outcome))
            }),
    {
        if !self.open {
            return Vec::new();
        }
        let mut events: Vec<UiEvent> = Vec::new();
        let panel = self.panel_rect();
        let confirm = self.confirm_rect(panel);
        let cancel = self.cancel_rect(panel);
        proof {
            reveal_strlit("confirm");
            reveal_strlit("cancel");
            reveal_strlit("dismiss");
        }
        if input.cancel {
            self.open = false;
            events.push(self.emit_open());
            events.push(self.emit_result("cancel"));
        } else if input.just_released {
            let confirm_hovered = confirm.contains(input.x, input.y);
            let cancel_hovered = cancel.contains(input.x, input.y);
            let inside_panel = panel.contains(input.x, input.y);
            if confirm_hovered {
                self.open = false;
                events.push(self.emit_open());
                events.push(self.emit_result("confirm"));
            } else if cancel_hovered {
                self.open = false;
                events.push(self.emit_open());
                events.push(self.emit_result("cancel"));
            } else if !inside_panel {
                self.open = false;
                events.push(self.emit_open());
                events.push(self.emit_result("dismiss"));
            }
        }
        events
    }

    pub fn focusable(&self) -> (r: bool)
        ensures
            r,
    {
        true
    }

    pub fn set_focused(&mut self, focused: bool)
        ensures
            *final(self) == (Modal { focused, ..*old(self) }),
    {
        self.focused = focused;
    }
}

} // verus!
