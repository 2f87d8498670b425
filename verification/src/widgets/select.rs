use vstd::prelude::*;

use crate::events::{is_value_changed, UiEvent};
use crate::geometry::Rect;
use crate::input::PointerState;
use crate::navigation::{find_next_prefix, position_of, spec_find_next_prefix, spec_position,
    spec_step_wrapped_index, step_wrapped};

verus! {

/// A dropdown.  While closed and focused, arrows step the selection
/// circularly (emitting immediately) and typed text jumps to the next prefix
/// match.  Opening seeds the highlighted index from the selection; while
/// open, arrows move the highlight without emitting, cancel closes without
/// committing, a click on an option commits it, and activation commits the
/// highlight.  Losing focus closes the list.
pub struct Select {
    pub key: &'static str,
    pub rect: Rect,
    pub options: Vec<String>,
    pub selected: usize,
    pub style: SelectStyle,
    pub focused: bool,
    pub open: bool,
    pub highlighted: usize,
    pub label: &'static str,
}

pub struct SelectStyle {
    pub fill: &'static str,
    pub dropdown_fill: &'static str,
    pub option_hover_fill: &'static str,
    pub border: &'static str,
    pub focus_border: &'static str,
    pub text: &'static str,
    pub font: &'static str,
    pub option_height: i64,
}

impl Default for SelectStyle {
    fn default() -> (r: Self)
        ensures
            r.fill@ == "#111827"@,
            r.dropdown_fill@ == "#0f172a"@,
            r.option_hover_fill@ == "#1f2937"@,
            r.border@ == "#2a3350"@,
            r.focus_border@ == "#27ffd8"@,
            r.text@ == "#d8e3ff"@,
            r.font@ == "600 15px Consolas"@,
            r.option_height == 34,
    {
        SelectStyle {
            fill: "#111827",
            dropdown_fill: "#0f172a",
            option_hover_fill: "#1f2937",
            border: "#2a3350",
            focus_border: "#27ffd8",
            text: "#d8e3ff",
            font: "600 15px Consolas",
            option_height: 34,
        }
    }
}

/// The gap between the closed control and its dropdown list.
pub const SELECT_DROPDOWN_GAP: i64 = 2;

impl Select {
    /// Both indices always name an option (and are 0 when there are none),
    /// and the option rows have a positive height.
    pub open spec fn wf(self) -> bool {
        &&& self.rect.wf()
        &&& 0 < self.style.option_height <= crate::geometry::SIZE_LIMIT
        &&& self.options@.len() == 0 ==> self.selected == 0 && self.highlighted == 0
        &&& self.options@.len() > 0 ==> (self.selected as int) < self.options@.len()
            && (self.highlighted as int) < self.options@.len()
    }

    /// The text of the selected option, or empty when there is none.
    pub open spec fn spec_selected_value(self) -> Seq<char> {
        if (self.selected as int) < self.options@.len() {
            self.options@[self.selected as int]@
        } else {
            Seq::<char>::empty()
        }
    }

    /// The top edge of the dropdown list.
    pub open spec fn spec_dropdown_top(self) -> int {
        self.rect.y + self.rect.height + SELECT_DROPDOWN_GAP
    }

    /// The option row a point lands on, if any.
    pub open spec fn spec_option_at(self, px: int, py: int) -> Option<usize> {
        let len = self.options@.len() as int;
        let oh = self.style.option_height as int;
        let dy = py - self.spec_dropdown_top();
        if len > 0 && self.rect.x <= px < self.rect.x + self.rect.width && 0 <= dy < len * oh {
            Some((dy / oh) as usize)
        } else {
            None
        }
    }

    /// Where a closed-and-focused directional signal steps the selection.
    pub open spec fn spec_nav_target(self, input: PointerState) -> Option<usize> {
        let len = self.options@.len() as int;
        if len == 0 {
            None
        } else if input.move_left || input.move_up {
            Some(spec_step_wrapped_index(Some(self.selected), -1, len) as usize)
        } else if input.move_right || input.move_down {
            Some(spec_step_wrapped_index(Some(self.selected), 1, len) as usize)
        } else {
            None
        }
    }

    /// The closed-state navigation stage: steps the selection circularly and
    /// emits on every step, even one that lands where it started.
    pub open spec fn spec_after_nav(self, input: PointerState) -> Select {
        if self.focused && !self.open {
            match self.spec_nav_target(input) {
                Some(t) => Select { selected: t, ..self },
                None => self,
            }
        } else {
            self
        }
    }

    /// Does the closed-state navigation stage emit?
    pub open spec fn spec_nav_emits(self, input: PointerState) -> bool {
        self.focused && !self.open && self.spec_nav_target(input) is Some
    }

    /// The index the closed-state type-ahead stage jumps to, if any; a match
    /// re-emits even when it is the current selection.
    pub open spec fn spec_jump_target(self, input: PointerState) -> Option<usize> {
        if self.focused && !self.open && input.text_input is Some && input.text_input->0@.len()
            > 0 {
            spec_find_next_prefix(self.options@, input.text_input->0@, Some(self.selected))
        } else {
            None
        }
    }

    /// The state after the closed-state type-ahead stage.
    pub open spec fn spec_after_jump(self, input: PointerState) -> Select {
        match self.spec_jump_target(input) {
            Some(j) => Select { selected: j, highlighted: j, ..self },
            None => self,
        }
    }

    /// The state after the open-state navigation stage: arrows move the
    /// highlight without emitting; cancel closes without committing.
    pub open spec fn spec_after_open_nav(self, input: PointerState) -> Select {
        let len = self.options@.len() as int;
        if self.focused && self.open {
            if input.move_up && len > 0 {
                Select {
                    highlighted: if self.highlighted == 0 {
                        (len - 1) as usize
                    } else {
                        (self.highlighted - 1) as usize
                    },
                    ..self
                }
            } else if input.move_down && len > 0 {
                Select { highlighted: ((self.highlighted + 1) as int % len) as usize, ..self }
            } else if input.cancel {
                Select { open: false, ..self }
            } else {
                self
            }
        } else {
            self
        }
    }

    /// The option a release commits while the list is open, if any.
    pub open spec fn spec_click_commit(self, input: PointerState) -> Option<usize> {
        if input.just_released && !self.rect.spec_contains(input.x as int, input.y as int)
            && self.open {
            self.spec_option_at(input.x as int, input.y as int)
        } else {
            None
        }
    }

    /// The state after the click stage: a release on the control toggles the
    /// list (seeding the highlight from the selection when it opens); a
    /// release elsewhere commits the option under the pointer, if any, and
    /// closes the list.
    pub open spec fn spec_after_click(self, input: PointerState) -> Select {
        let len = self.options@.len() as int;
        if input.just_released {
            if self.rect.spec_contains(input.x as int, input.y as int) {
                if !self.open {
                    Select { open: true, highlighted: self.selected, ..self }
                } else {
                    Select { open: false, ..self }
                }
            } else if self.open {
                match self.spec_option_at(input.x as int, input.y as int) {
                    Some(i) => Select { selected: i, highlighted: i, open: false, ..self },
                    None => Select { open: false, ..self },
                }
            } else {
                self
            }
        } else {
            self
        }
    }

    /// The whole frame: closed-state navigation and type-ahead, open-state
    /// navigation, then the click stage.
    pub open spec fn spec_frame(self, input: PointerState) -> Select {
        self.spec_after_nav(input).spec_after_jump(input).spec_after_open_nav(
            input).spec_after_click(input)
    }

    /// The value payloads the frame emits, in order.
    pub open spec fn spec_frame_payloads(self, input: PointerState) -> Seq<Seq<char>> {
        let s1 = self.spec_after_nav(input);
        let s2 = s1.spec_after_jump(input);
        let s3 = s2.spec_after_open_nav(input);
        let s4 = s3.spec_after_click(input);
        let e1: Seq<Seq<char>> = if self.spec_nav_emits(input) {
            seq![s1.spec_selected_value()]
        } else {
            seq![]
        };
        let e2: Seq<Seq<char>> = if s1.spec_jump_target(input) is Some {
            seq![s2.spec_selected_value()]
        } else {
            seq![]
        };
        let e3: Seq<Seq<char>> = if s3.spec_click_commit(input) is Some {
            seq![s4.spec_selected_value()]
        } else {
            seq![]
        };
        e1 + e2 + e3
    }

    /// Selects (and highlights) the first option whose text equals `value`;
    /// no match leaves both alone.
    pub fn set_selected_by_value(&mut self, value: &str)
        requires
            old(self).wf(),
        ensures
            *final(self) == (match spec_position(old(self).options@, value@) {
                Some(i) => Select { selected: i, highlighted: i, ..*old(self) },
                None => *old(self),
            }),
            final(self).wf(),
    {
        match position_of(&self.options, value) {
            Some(i) => {
                self.selected = i;
                self.highlighted = i;
            },
            None => {},
        }
    }

    /// The text of the selected option (empty when there are none).
    pub fn selected_value(&self) -> (r: String)
        ensures
            r@ == self.spec_selected_value(),
    {
        if self.selected < self.options.len() {
            self.options[self.selected].clone()
        } else {
            String::new()
        }
    }

    /// The value-change event for the current selection.
    pub fn emit_changed(&self) -> (e: UiEvent)
        ensures
            is_value_changed(e, self.key@, self.spec_selected_value()),
    {
        UiEvent::ValueChanged { key: self.key, value: self.selected_value() }
    }

    /// The closed-state navigation stage.
    fn nav_stage(&mut self, input: &PointerState) -> (r: Option<UiEvent>)
        requires
            old(self).wf(),
            input.wf(),
        ensures
            final(self).wf(),
            *final(self) == old(self).spec_after_nav(*input),
            (r is Some <==> old(self).spec_nav_emits(*input)),
            (r matches Some(e) ==> is_value_changed(
                e, old(self).key@, final(self).spec_selected_value())),
    {
        let opt_count = self.options.len();
        proof {
            let len = self.options@.len() as int;
            assert(len == opt_count);
            if len > 0 {
                vstd::arithmetic::div_mod::lemma_mod_bound(self.selected as int - 1, len);
                vstd::arithmetic::div_mod::lemma_mod_bound(self.selected as int + 1, len);
            }
        }
        if !(self.focused && !self.open) {
            return None;
        }
        if opt_count == 0 {
            return None;
        }
        if input.move_left || input.move_up {
            let next = match step_wrapped(Some(self.selected), -1, opt_count) {
                Some(n) => n,
                None => 0,
            };
            self.selected = next;
            Some(self.emit_changed())
        } else if input.move_right || input.move_down {
            let next = match step_wrapped(Some(self.selected), 1, opt_count) {
                Some(n) => n,
                None => 0,
            };
            self.selected = next;
            Some(self.emit_changed())
        } else {
            None
        }
    }

    /// The closed-state type-ahead stage.
    fn jump_stage(&mut self, input: &PointerState) -> (r: Option<UiEvent>)
        requires
            old(self).wf(),
        ensures
            final(self).wf(),
            *final(self) == old(self).spec_after_jump(*input),
            (r is Some <==> old(self).spec_jump_target(*input) is Some),
            (r matches Some(e) ==> is_value_changed(
                e, old(self).key@, final(self).spec_selected_value())),
    {
        if !(self.focused && !self.open) {
            return None;
        }
        let text = match &input.text_input {
            Some(text) => text,
            None => {
                return None;
            },
        };
        if text.as_str().is_empty() {
            return None;
        }
        match find_next_prefix(&self.options, text.as_str(), Some(self.selected)) {
            Some(index) => {
                self.selected = index;
                self.highlighted = index;
                Some(self.emit_changed())
            },
            None => None,
        }
    }

    /// The open-state navigation stage: moves the highlight, or closes on
    /// cancel; never emits.
    fn open_nav_stage(&mut self, input: &PointerState)
        requires
            old(self).wf(),
        ensures
            final(self).wf(),
            *final(self) == old(self).spec_after_open_nav(*input),
    {
        if !(self.focused && self.open) {
            return ;
        }
        let len = self.options.len();
        if input.move_up && len > 0 {
            self.highlighted = if self.highlighted == 0 {
                len - 1
            } else {
                self.highlighted - 1
            };
        } else if input.move_down && len > 0 {
            proof {
                vstd::arithmetic::div_mod::lemma_mod_bound(self.highlighted as int + 1,
                    len as int);
            }
            self.highlighted = (self.highlighted + 1) % len;
        } else if input.cancel {
            self.open = false;
        }
    }

    /// The click stage: toggles the list on the control, commits the option
    /// under the pointer otherwise; emits iff an option is committed.
    fn click_stage(&mut self, input: &PointerState) -> (r: Option<UiEvent>)
        requires
            old(self).wf(),
            input.wf(),
        ensures
            final(self).wf(),
            *final(self) == old(self).spec_after_click(*input),
            (r is Some <==> old(self).spec_click_commit(*input) is Some),
            (r matches Some(e) ==> is_value_changed(
                e, old(self).key@, final(self).spec_selected_value())),
    {
        if !input.just_released {
            return None;
        }
        let hovered = self.rect.contains(input.x, input.y);
        if hovered {
            self.open = !self.open;
            if self.open {
                let len = self.options.len();
                if len > 0 && self.selected >= len {
                    self.highlighted = len - 1;
                } else if len == 0 {
                    self.highlighted = 0;
                } else {
                    self.highlighted = self.selected;
                }
            }
            return None;
        }
        if !self.open {
            return None;
        }
        self.open = false;
        let len = self.options.len();
        if len == 0 {
            return None;
        }
        let oh: i64 = self.style.option_height;
        let top: i64 = self.rect.y + self.rect.height + SELECT_DROPDOWN_GAP;
        if !(input.x >= self.rect.x && input.x < self.rect.x + self.rect.width) {
            return None;
        }
        if input.y < top {
            return None;
        }
        let dy_wide: i128 = input.y as i128 - top as i128;
        proof {
            assert(0 <= (len as int) * (oh as int) <= 0x1_0000_0000_0000_0000_0000_0000int)
                by (nonlinear_arith)
                requires
                    0 <= len as int <= 0xffff_ffff_ffff_ffffu64 as int,
                    0 < oh as int <= 0x100_0000;
        }
        let band: i128 = len as i128 * oh as i128;
        if dy_wide >= band {
            return None;
        }
        let dy: u64 = dy_wide as u64;
        let index_u: u64 = dy / (oh as u64);
        proof {
            vstd::arithmetic::mul::lemma_mul_is_commutative(len as int, oh as int);
            vstd::arithmetic::div_mod::lemma_multiply_divide_lt(
                dy as int, oh as int, len as int);
        }
        let index: usize = index_u as usize;
        self.selected = index;
        self.highlighted = index;
        Some(self.emit_changed())
    }

    /// One frame: closed-state navigation and type-ahead, open-state
    /// navigation, then the click stage; the emitted payloads carry the
    /// selection after each emitting stage, in order.
    pub fn draw(&mut self, input: &PointerState) -> (events: Vec<UiEvent>)
        requires
            old(self).wf(),
            input.wf(),
        ensures
            final(self).wf(),
            *final(self) == old(self).spec_frame(*input),
            events@.len() == old(self).spec_frame_payloads(*input).len(),
            forall|i: int| 0 <= i < events@.len() ==> is_value_changed(
                #[trigger] events@[i], old(self).key@,
                old(self).spec_frame_payloads(*input)[i]),
    {
        let ghost s0 = *self;
        let mut events: Vec<UiEvent> = Vec::new();
        if let Some(event) = self.nav_stage(input) {
            events.push(event);
        }
        if let Some(event) = self.jump_stage(input) {
            events.push(event);
        }
        self.open_nav_stage(input);
        if let Some(event) = self.click_stage(input) {
            events.push(event);
        }
        proof {
            assert(events@.len() == s0.spec_frame_payloads(*input).len());
        }
        events
    }

    pub fn focusable(&self) -> (r: bool)
        ensures
            r,
    {
        true
    }

    /// Losing focus forces the list closed.
    pub fn set_focused(&mut self, focused: bool)
        ensures
            *final(self) == (Select { focused, open: old(self).open && focused, ..*old(self) }),
    {
        self.focused = focused;
        if !focused {
            self.open = false;
        }
    }

    /// Activation: while open, commits the highlighted option (clamped into
    /// the options) and closes, emitting the committed value; while closed,
    /// opens the list and seeds the highlight from the selection.
    pub fn activate(&mut self) -> (r: Option<UiEvent>)
        requires
            old(self).wf(),
        ensures
            final(self).wf(),
            old(self).open ==> {
                &&& *final(self) == (Select {
                    open: false,
                    selected: if old(self).options@.len() > 0 {
                        old(self).highlighted
                    } else {
                        old(self).selected
                    },
                    ..*old(self)
                })
                &&& (r matches Some(e) && is_value_changed(
                    e, old(self).key@, final(self).spec_selected_value()))
            },
            !old(self).open ==> *final(self) == (Select {
                open: true,
                highlighted: old(self).selected,
                ..*old(self)
            }) && r is None,
    {
        if self.open {
            let len = self.options.len();
            if len > 0 {
                if self.highlighted < len {
                    self.selected = self.highlighted;
                } else {
                    self.selected = len - 1;
                }
            }
            self.open = false;
            Some(self.emit_changed())
        } else {
            self.open = true;
            let len = self.options.len();
            if len > 0 && self.selected >= len {
                self.highlighted = len - 1;
            } else if len == 0 {
                self.highlighted = 0;
            } else {
                self.highlighted = self.selected;
            }
            None
        }
    }
}

} // verus!
