use vstd::prelude::*;

use crate::geometry::{pos_ok, POS_LIMIT};

verus! {

/// The per-frame input snapshot: pointer position and button state, one-shot
/// command flags, an optional text payload and an accumulating scroll delta.
/// One-shot fields are cleared by the owner with [`PointerState::reset_transient`],
/// once per tick; they are not self-clearing.
pub struct PointerState {
    pub x: i64,
    pub y: i64,
    pub is_down: bool,
    pub just_pressed: bool,
    pub just_released: bool,
    pub activate_primary: bool,
    pub focus_next: bool,
    pub focus_prev: bool,
    pub text_input: Option<String>,
    pub backspace: bool,
    pub delete_forward: bool,
    pub move_left: bool,
    pub move_right: bool,
    pub move_left_select: bool,
    pub move_right_select: bool,
    pub move_up: bool,
    pub move_down: bool,
    pub move_up_select: bool,
    pub move_down_select: bool,
    pub move_page_up: bool,
    pub move_page_down: bool,
    pub move_home: bool,
    pub move_end: bool,
    pub select_all: bool,
    pub copy: bool,
    pub cut: bool,
    pub paste: bool,
    pub cancel: bool,
    pub scroll_y: i64,
}

/// One translated platform event, folded into the snapshot by
/// [`PointerState::apply`].
pub enum PointerSignal {
    Move { x: i64, y: i64 },
    Down { x: i64, y: i64 },
    Up { x: i64, y: i64 },
    Leave,
    ActivatePrimary,
    FocusNext,
    FocusPrev,
    TextInput(String),
    Backspace,
    DeleteForward,
    MoveLeft,
    MoveRight,
    MoveLeftSelect,
    MoveRightSelect,
    MoveUp,
    MoveDown,
    MoveUpSelect,
    MoveDownSelect,
    MovePageUp,
    MovePageDown,
    MoveHome,
    MoveEnd,
    SelectAll,
    Copy,
    Cut,
    Paste,
    Cancel,
    Scroll { x: i64, y: i64, delta_y: i64 },
}

/// Coordinates saturated into the representable position range.
pub open spec fn spec_clamp_pos(v: int) -> int {
    if v > POS_LIMIT {
        POS_LIMIT as int
    } else if v < -POS_LIMIT {
        -POS_LIMIT as int
    } else {
        v
    }
}

fn clamp_pos(v: i64) -> (r: i64)
    ensures
        r as int == spec_clamp_pos(v as int),
{
    if v > POS_LIMIT {
        POS_LIMIT
    } else if v < -POS_LIMIT {
        -POS_LIMIT
    } else {
        v
    }
}

impl PointerState {
    /// Coordinates stay small enough for layout and hit-test arithmetic.
    pub open spec fn wf(self) -> bool {
        &&& pos_ok(self.x as int)
        &&& pos_ok(self.y as int)
        &&& pos_ok(self.scroll_y as int)
    }

    /// The snapshot with every one-shot field cleared and the pointer
    /// position and button state kept.
    pub open spec fn spec_reset_transient(self) -> PointerState {
        PointerState {
            just_pressed: false,
            just_released: false,
            activate_primary: false,
            focus_next: false,
            focus_prev: false,
            text_input: None,
            backspace: false,
            delete_forward: false,
            move_left: false,
            move_right: false,
            move_left_select: false,
            move_right_select: false,
            move_up: false,
            move_down: false,
            move_up_select: false,
            move_down_select: false,
            move_page_up: false,
            move_page_down: false,
            move_home: false,
            move_end: false,
            select_all: false,
            copy: false,
            cut: false,
            paste: false,
            cancel: false,
            scroll_y: 0,
            ..self
        }
    }

    /// The snapshot with every keyboard-borne signal cleared: focus traversal,
    /// the text payload, editing and caret commands, clipboard commands,
    /// activation and cancel.  Pointer fields and the scroll delta are kept.
    pub open spec fn spec_suppress_keyboard(self) -> PointerState {
        PointerState {
            activate_primary: false,
            focus_next: false,
            focus_prev: false,
            text_input: None,
            backspace: false,
            delete_forward: false,
            move_left: false,
            move_right: false,
            move_left_select: false,
            move_right_select: false,
            move_up: false,
            move_down: false,
            move_up_select: false,
            move_down_select: false,
            move_page_up: false,
            move_page_down: false,
            move_home: false,
            move_end: false,
            select_all: false,
            copy: false,
            cut: false,
            paste: false,
            cancel: false,
            ..self
        }
    }

    /// Does this signal carry a pointer position?
    pub open spec fn signal_has_pos(signal: PointerSignal) -> bool {
        matches!(signal, PointerSignal::Move { .. } | PointerSignal::Down { .. }
            | PointerSignal::Up { .. } | PointerSignal::Scroll { .. })
    }

    /// The position a signal carries (meaningful only when `signal_has_pos`).
    pub open spec fn signal_pos(signal: PointerSignal) -> (int, int) {
        match signal {
            PointerSignal::Move { x, y } => (x as int, y as int),
            PointerSignal::Down { x, y } => (x as int, y as int),
            PointerSignal::Up { x, y } => (x as int, y as int),
            PointerSignal::Scroll { x, y, .. } => (x as int, y as int),
            _ => (0, 0),
        }
    }

    /// How one signal folds into the snapshot, stated field by field: a
    /// position-bearing signal moves the (saturated) pointer position; a press
    /// or release toggles `is_down` and raises its edge flag only on an actual
    /// transition; a scroll accumulates its delta; every command signal raises
    /// its one-shot flag; a text signal stores its payload.  All other fields
    /// keep their value.
    pub open spec fn spec_apply(self, signal: PointerSignal) -> PointerState {
        PointerState {
            x: if PointerState::signal_has_pos(signal) {
                spec_clamp_pos(PointerState::signal_pos(signal).0) as i64
            } else {
                self.x
            },
            y: if PointerState::signal_has_pos(signal) {
                spec_clamp_pos(PointerState::signal_pos(signal).1) as i64
            } else {
                self.y
            },
            is_down: match signal {
                PointerSignal::Down { .. } => true,
                PointerSignal::Up { .. } | PointerSignal::Leave => false,
                _ => self.is_down,
            },
            just_pressed: self.just_pressed || (matches!(signal, PointerSignal::Down { .. })
                && !self.is_down),
            just_released: self.just_released || (matches!(signal,
                PointerSignal::Up { .. } | PointerSignal::Leave) && self.is_down),
            activate_primary: self.activate_primary || matches!(signal, PointerSignal::ActivatePrimary),
            focus_next: self.focus_next || matches!(signal, PointerSignal::FocusNext),
            focus_prev: self.focus_prev || matches!(signal, PointerSignal::FocusPrev),
            text_input: match signal {
                PointerSignal::TextInput(value) => Some(value),
                _ => self.text_input,
            },
            backspace: self.backspace || matches!(signal, PointerSignal::Backspace),
            delete_forward: self.delete_forward || matches!(signal, PointerSignal::DeleteForward),
            move_left: self.move_left || matches!(signal, PointerSignal::MoveLeft),
            move_right: self.move_right || matches!(signal, PointerSignal::MoveRight),
            move_left_select: self.move_left_select || matches!(signal, PointerSignal::MoveLeftSelect),
            move_right_select: self.move_right_select || matches!(signal, PointerSignal::MoveRightSelect),
            move_up: self.move_up || matches!(signal, PointerSignal::MoveUp),
            move_down: self.move_down || matches!(signal, PointerSignal::MoveDown),
            move_up_select: self.move_up_select || matches!(signal, PointerSignal::MoveUpSelect),
            move_down_select: self.move_down_select || matches!(signal, PointerSignal::MoveDownSelect),
            move_page_up: self.move_page_up || matches!(signal, PointerSignal::MovePageUp),
            move_page_down: self.move_page_down || matches!(signal, PointerSignal::MovePageDown),
            move_home: self.move_home || matches!(signal, PointerSignal::MoveHome),
            move_end: self.move_end || matches!(signal, PointerSignal::MoveEnd),
            select_all: self.select_all || matches!(signal, PointerSignal::SelectAll),
            copy: self.copy || matches!(signal, PointerSignal::Copy),
            cut: self.cut || matches!(signal, PointerSignal::Cut),
            paste: self.paste || matches!(signal, PointerSignal::Paste),
            cancel: self.cancel || matches!(signal, PointerSignal::Cancel),
            scroll_y: match signal {
                PointerSignal::Scroll { delta_y, .. } => spec_clamp_pos(
                    self.scroll_y + delta_y) as i64,
                _ => self.scroll_y,
            },
        }
    }

    /// Folds one signal into the snapshot.
    pub fn apply(&mut self, signal: PointerSignal)
        requires
            old(self).wf(),
        ensures
            *final(self) == old(self).spec_apply(signal),
            final(self).wf(),
    {
        let mut tmp = PointerState::new();
        core::mem::swap(self, &mut tmp);
        tmp = tmp.applied(signal);
        core::mem::swap(self, &mut tmp);
    }

    /// The transition itself, written over an owned snapshot.
    fn applied(self, signal: PointerSignal) -> (r: PointerState)
        requires
            self.wf(),
        ensures
            r == self.spec_apply(signal),
            r.wf(),
    {
        let has_pos: bool = matches!(signal, PointerSignal::Move { .. } | PointerSignal::Down { .. }
            | PointerSignal::Up { .. } | PointerSignal::Scroll { .. });
        let (sx, sy): (i64, i64) = match &signal {
            PointerSignal::Move { x, y } => (*x, *y),
            PointerSignal::Down { x, y } => (*x, *y),
            PointerSignal::Up { x, y } => (*x, *y),
            PointerSignal::Scroll { x, y, .. } => (*x, *y),
            _ => (0, 0),
        };
        let scroll: i64 = match &signal {
            PointerSignal::Scroll { delta_y, .. } => {
                let wide: i128 = self.scroll_y as i128 + *delta_y as i128;
                if wide > POS_LIMIT as i128 {
                    POS_LIMIT
                } else if wide < -(POS_LIMIT as i128) {
                    -POS_LIMIT
                } else {
                    wide as i64
                }
            },
            _ => self.scroll_y,
        };
        let is_down: bool = match &signal {
            PointerSignal::Down { .. } => true,
            PointerSignal::Up { .. } | PointerSignal::Leave => false,
            _ => self.is_down,
        };
        let just_pressed: bool = self.just_pressed
            || (matches!(&signal, PointerSignal::Down { .. }) && !self.is_down);
        let just_released: bool = self.just_released
            || (matches!(&signal, PointerSignal::Up { .. } | PointerSignal::Leave) && self.is_down);
        let activate_primary: bool = self.activate_primary
            || matches!(&signal, PointerSignal::ActivatePrimary);
        let focus_next: bool = self.focus_next || matches!(&signal, PointerSignal::FocusNext);
        let focus_prev: bool = self.focus_prev || matches!(&signal, PointerSignal::FocusPrev);
        let backspace: bool = self.backspace || matches!(&signal, PointerSignal::Backspace);
        let delete_forward: bool = self.delete_forward
            || matches!(&signal, PointerSignal::DeleteForward);
        let move_left: bool = self.move_left || matches!(&signal, PointerSignal::MoveLeft);
        let move_right: bool = self.move_right || matches!(&signal, PointerSignal::MoveRight);
        let move_left_select: bool = self.move_left_select
            || matches!(&signal, PointerSignal::MoveLeftSelect);
        let move_right_select: bool = self.move_right_select
            || matches!(&signal, PointerSignal::MoveRightSelect);
        let move_up: bool = self.move_up || matches!(&signal, PointerSignal::MoveUp);
        let move_down: bool = self.move_down || matches!(&signal, PointerSignal::MoveDown);
        let move_up_select: bool = self.move_up_select
            || matches!(&signal, PointerSignal::MoveUpSelect);
        let move_down_select: bool = self.move_down_select
            || matches!(&signal, PointerSignal::MoveDownSelect);
        let move_page_up: bool = self.move_page_up || matches!(&signal, PointerSignal::MovePageUp);
        let move_page_down: bool = self.move_page_down
            || matches!(&signal, PointerSignal::MovePageDown);
        let move_home: bool = self.move_home || matches!(&signal, PointerSignal::MoveHome);
        let move_end: bool = self.move_end || matches!(&signal, PointerSignal::MoveEnd);
        let select_all: bool = self.select_all || matches!(&signal, PointerSignal::SelectAll);
        let copy: bool = self.copy || matches!(&signal, PointerSignal::Copy);
        let cut: bool = self.cut || matches!(&signal, PointerSignal::Cut);
        let paste: bool = self.paste || matches!(&signal, PointerSignal::Paste);
        let cancel: bool = self.cancel || matches!(&signal, PointerSignal::Cancel);
        let text_input: Option<String> = match signal {
            PointerSignal::TextInput(value) => Some(value),
            _ => self.text_input,
        };
        PointerState {
            x: if has_pos { clamp_pos(sx) } else { self.x },
            y: if has_pos { clamp_pos(sy) } else { self.y },
            is_down,
            just_pressed,
            just_released,
            activate_primary,
            focus_next,
            focus_prev,
            text_input,
            backspace,
            delete_forward,
            move_left,
            move_right,
            move_left_select,
            move_right_select,
            move_up,
            move_down,
            move_up_select,
            move_down_select,
            move_page_up,
            move_page_down,
            move_home,
            move_end,
            select_all,
            copy,
            cut,
            paste,
            cancel,
            scroll_y: scroll,
        }
    }

    /// The empty snapshot: pointer at the origin, no buttons, no signals.
    pub open spec fn spec_new() -> PointerState {
        PointerState {
            x: 0i64,
            y: 0i64,
            is_down: false,
            just_pressed: false,
            just_released: false,
            activate_primary: false,
            focus_next: false,
            focus_prev: false,
            text_input: None,
            backspace: false,
            delete_forward: false,
            move_left: false,
            move_right: false,
            move_left_select: false,
            move_right_select: false,
            move_up: false,
            move_down: false,
            move_up_select: false,
            move_down_select: false,
            move_page_up: false,
            move_page_down: false,
            move_home: false,
            move_end: false,
            select_all: false,
            copy: false,
            cut: false,
            paste: false,
            cancel: false,
            scroll_y: 0i64,
        }
    }

    /// An empty snapshot: pointer at the origin, no buttons, no signals.
    pub fn new() -> (r: PointerState)
        ensures
            r == PointerState::spec_new(),
            r.wf(),
    {
        PointerState {
            x: 0,
            y: 0,
            is_down: false,
            just_pressed: false,
            just_released: false,
            activate_primary: false,
            focus_next: false,
            focus_prev: false,
            text_input: None,
            backspace: false,
            delete_forward: false,
            move_left: false,
            move_right: false,
            move_left_select: false,
            move_right_select: false,
            move_up: false,
            move_down: false,
            move_up_select: false,
            move_down_select: false,
            move_page_up: false,
            move_page_down: false,
            move_home: false,
            move_end: false,
            select_all: false,
            copy: false,
            cut: false,
            paste: false,
            cancel: false,
            scroll_y: 0,
        }
    }

    /// Folds one signal into the snapshot.
    pub fn reset_transient(&mut self)
        ensures
            *final(self) == old(self).spec_reset_transient(),
    {
        self.just_pressed = false;
        self.just_released = false;
        self.activate_primary = false;
        self.focus_next = false;
        self.focus_prev = false;
        self.text_input = None;
        self.backspace = false;
        self.delete_forward = false;
        self.move_left = false;
        self.move_right = false;
        self.move_left_select = false;
        self.move_right_select = false;
        self.move_up = false;
        self.move_down = false;
        self.move_up_select = false;
        self.move_down_select = false;
        self.move_page_up = false;
        self.move_page_down = false;
        self.move_home = false;
        self.move_end = false;
        self.select_all = false;
        self.copy = false;
        self.cut = false;
        self.paste = false;
        self.cancel = false;
        self.scroll_y = 0;
    }

    /// A copy of the snapshot with every keyboard-borne signal cleared, used
    /// to shield a nested tree from keyboard input aimed elsewhere.
    pub fn suppressed_keyboard_copy(&self) -> (r: PointerState)
        ensures
            r == self.spec_suppress_keyboard(),
    {
        PointerState {
            x: self.x,
            y: self.y,
            is_down: self.is_down,
            just_pressed: self.just_pressed,
            just_released: self.just_released,
            activate_primary: false,
            focus_next: false,
            focus_prev: false,
            text_input: None,
            backspace: false,
            delete_forward: false,
            move_left: false,
            move_right: false,
            move_left_select: false,
            move_right_select: false,
            move_up: false,
            move_down: false,
            move_up_select: false,
            move_down_select: false,
            move_page_up: false,
            move_page_down: false,
            move_home: false,
            move_end: false,
            select_all: false,
            copy: false,
            cut: false,
            paste: false,
            cancel: false,
            scroll_y: self.scroll_y,
        }
    }
}

} // verus!
