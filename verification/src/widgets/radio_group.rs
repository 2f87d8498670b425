use vstd::prelude::*;

use crate::events::{is_value_changed, UiEvent};
use crate::geometry::Rect;
use crate::input::PointerState;
use crate::navigation::{position_of, spec_position, spec_step_wrapped_index, step_wrapped};

verus! {

/// A labelled group of mutually exclusive options laid out in equal columns.
/// Arrow keys step the selection circularly, home/end jump to the ends, and
/// a click on an option's column selects it.  Every actual change emits one
/// value-change event carrying the option's text.
pub struct RadioGroup {
    pub key: &'static str,
    pub rect: Rect,
    pub label: &'static str,
    pub options: Vec<String>,
    pub selected: usize,
    pub focused: bool,
    pub style: RadioGroupStyle,
}

pub struct RadioGroupStyle {
    pub fill: &'static str,
    pub border: &'static str,
    pub focus_border: &'static str,
    pub selected_fill: &'static str,
    pub text: &'static str,
    pub font: &'static str,
}

impl Default for RadioGroupStyle {
    fn default() -> (r: Self)
        ensures
            r.fill@ == "#111827"@,
            r.border@ == "#2a3350"@,
            r.focus_border@ == "#27ffd8"@,
            r.selected_fill@ == "#1f3b66"@,
            r.text@ == "#d8e3ff"@,
            r.font@ == "600 14px Consolas"@,
    {
        RadioGroupStyle {
            fill: "#111827",
            border: "#2a3350",
            focus_border: "#27ffd8",
            selected_fill: "#1f3b66",
            text: "#d8e3ff",
            font: "600 14px Consolas",
        }
    }
}

/// The horizontal inset of the option row inside the group's rect.
pub const RADIO_INSET_X: i64 = 4;

/// The vertical offset of the option row below the group's label.
pub const RADIO_BODY_TOP: i64 = 18;

/// The vertical space the label and bottom margin take from the body.
pub const RADIO_BODY_MARGIN: i64 = 22;

/// The gap between neighbouring option columns.
pub const RADIO_COLUMN_GAP: i64 = 4;

impl RadioGroup {
    /// The selection always names an option (and is 0 when there are none).
    pub open spec fn wf(self) -> bool {
        &&& self.rect.wf()
        &&& self.options@.len() == 0 ==> self.selected == 0
        &&& self.options@.len() > 0 ==> (self.selected as int) < self.options@.len()
    }

    /// The text of the selected option, or empty when there is none.
    pub open spec fn spec_selected_value(self) -> Seq<char> {
        if (self.selected as int) < self.options@.len() {
            self.options@[self.selected as int]@
        } else {
            Seq::<char>::empty()
        }
    }

    /// Where a directional or home/end signal moves the selection.
    pub open spec fn spec_nav_target(self, input: PointerState) -> Option<usize> {
        let len = self.options@.len() as int;
        if len == 0 {
            None
        } else if input.move_left || input.move_up {
            Some(spec_step_wrapped_index(Some(self.selected), -1, len) as usize)
        } else if input.move_right || input.move_down {
            Some(spec_step_wrapped_index(Some(self.selected), 1, len) as usize)
        } else if input.move_home {
            Some(0usize)
        } else if input.move_end {
            Some((len - 1) as usize)
        } else {
            None
        }
    }

    /// The stride of one option column (column width plus its trailing gap).
    pub open spec fn spec_column_stride(self) -> int {
        let len = self.options@.len() as int;
        if len == 0 {
            0
        } else {
            (self.rect.width - 2 * RADIO_INSET_X) / len
        }
    }

    /// The option whose column a release lands on, if any: column `i` spans
    /// the stride starting at `i` strides past the left inset, minus the
    /// trailing gap, within the body band below the label.
    pub open spec fn spec_clicked_option(self, input: PointerState) -> Option<usize> {
        let len = self.options@.len() as int;
        let stride = self.spec_column_stride();
        let dx = input.x as int - self.rect.x - RADIO_INSET_X;
        let py = input.y as int;
        let body_top = self.rect.y + RADIO_BODY_TOP;
        let body_height = if self.rect.height - RADIO_BODY_MARGIN > 0 {
            self.rect.height - RADIO_BODY_MARGIN as int
        } else {
            0
        };
        if input.just_released && len > 0 && stride > 0 && body_top <= py < body_top + body_height
            && 0 <= dx < len * stride && dx % stride < stride - RADIO_COLUMN_GAP {
            Some((dx / stride) as usize)
        } else {
            None
        }
    }

    /// The state after the keyboard-navigation stage of a frame.
    pub open spec fn spec_after_nav(self, input: PointerState) -> RadioGroup {
        if self.focused {
            match self.spec_nav_target(input) {
                Some(t) => RadioGroup { selected: t, ..self },
                None => self,
            }
        } else {
            self
        }
    }

    /// Does the keyboard-navigation stage emit?
    pub open spec fn spec_nav_emits(self, input: PointerState) -> bool {
        self.focused && match self.spec_nav_target(input) {
            Some(t) => t != self.selected,
            None => false,
        }
    }

    /// The option the click stage selects from state `self`, if it changes it.
    pub open spec fn spec_click_target(self, input: PointerState) -> Option<usize> {
        match self.spec_clicked_option(input) {
            Some(i) => if i != self.selected {
                Some(i)
            } else {
                None
            },
            None => None,
        }
    }

    /// The state after the click stage of a frame.
    pub open spec fn spec_after_click(self, input: PointerState) -> RadioGroup {
        match self.spec_click_target(input) {
            Some(i) => RadioGroup { selected: i, ..self },
            None => self,
        }
    }

    /// The whole frame: keyboard navigation, then click.
    pub open spec fn spec_frame(self, input: PointerState) -> RadioGroup {
        self.spec_after_nav(input).spec_after_click(input)
    }

    /// The value payloads the frame emits, in order.
    pub open spec fn spec_frame_payloads(self, input: PointerState) -> Seq<Seq<char>> {
        let s1 = self.spec_after_nav(input);
        let s2 = s1.spec_after_click(input);
        let e1: Seq<Seq<char>> = if self.spec_nav_emits(input) {
            seq![s1.spec_selected_value()]
        } else {
            seq![]
        };
        let e2: Seq<Seq<char>> = if s1.spec_click_target(input) is Some {
            seq![s2.spec_selected_value()]
        } else {
            seq![]
        };
        e1 + e2
    }

    /// Selects the first option whose text equals `value`; no match leaves
    /// the selection alone.
    pub fn set_selected_by_value(&mut self, value: &str)
        requires
            old(self).wf(),
        ensures
            *final(self) == (RadioGroup {
                selected: match spec_position(old(self).options@, value@) {
                    Some(i) => i,
                    None => old(self).selected,
                },
                ..*old(self)
            }),
            final(self).wf(),
    {
        match position_of(&self.options, value) {
            Some(i) => self.selected = i,
            None => {},
        }
    }

    /// The text of the selected option (empty when there are none).
    pub fn selected_value(&self) -> (r: String)
        ensures
            r@ == self.spec_selected_value(),
    {
        if self.selected < self.options.len() {
            self.options[self.selected].clone()
        } else {
            String::new()
        }
    }

    /// The value-change event for the current selection.
    pub fn emit_changed(&self) -> (e: UiEvent)
        ensures
            is_value_changed(e, self.key@, self.spec_selected_value()),
    {
        UiEvent::ValueChanged { key: self.key, value: self.selected_value() }
    }

    /// Steps the selection circularly by `delta`; emits iff it changes.
    pub fn step(&mut self, delta: isize) -> (r: Option<UiEvent>)
        requires
            old(self).wf(),
        ensures
            final(self).wf(),
            old(self).options@.len() == 0 ==> *final(self) == *old(self) && r is None,
            old(self).options@.len() > 0 ==> {
                let target = spec_step_wrapped_index(
                    Some(old(self).selected), delta as int, old(self).options@.len() as int);
                &&& *final(self) == (RadioGroup { selected: target as usize, ..*old(self) })
                &&& (r is Some <==> target != old(self).selected)
                &&& (r matches Some(e) ==> is_value_changed(
                    e, old(self).key@, final(self).spec_selected_value()))
            },
    {
        if self.options.is_empty() {
            return None;
        }
        let next = match step_wrapped(Some(self.selected), delta, self.options.len()) {
            Some(n) => n,
            None => 0,
        };
        if next != self.selected {
            self.selected = next;
            return Some(self.emit_changed());
        }
        None
    }

    /// The keyboard-navigation stage: while focused, arrows step the
    /// selection circularly, home/end jump to the ends; emits iff it changes.
    fn nav_stage(&mut self, input: &PointerState) -> (r: Option<UiEvent>)
        requires
            old(self).wf(),
            input.wf(),
        ensures
            final(self).wf(),
            *final(self) == old(self).spec_after_nav(*input),
            (r is Some <==> old(self).spec_nav_emits(*input)),
            (r matches Some(e) ==> is_value_changed(
                e, old(self).key@, final(self).spec_selected_value())),
    {
        let opt_count = self.options.len();
        proof {
            let len = self.options@.len() as int;
            assert(len == opt_count);
            if len > 0 {
                vstd::arithmetic::div_mod::lemma_mod_bound(self.selected as int - 1, len);
                vstd::arithmetic::div_mod::lemma_mod_bound(self.selected as int + 1, len);
            }
        }
        if !self.focused {
            return None;
        }
        if input.move_left || input.move_up {
            self.step(-1)
        } else if input.move_right || input.move_down {
            self.step(1)
        } else if input.move_home {
            if !self.options.is_empty() && self.selected != 0 {
                self.selected = 0;
                Some(self.emit_changed())
            } else {
                None
            }
        } else if input.move_end && !self.options.is_empty() {
            let last = self.options.len() - 1;
            if self.selected != last {
                self.selected = last;
                Some(self.emit_changed())
            } else {
                None
            }
        } else {
            None
        }
    }

    /// The click stage: a release inside an option's column selects it;
    /// emits iff the selection changes.
    fn click_stage(&mut self, input: &PointerState) -> (r: Option<UiEvent>)
        requires
            old(self).wf(),
            input.wf(),
        ensures
            final(self).wf(),
            *final(self) == old(self).spec_after_click(*input),
            (r is Some <==> old(self).spec_click_target(*input) is Some),
            (r matches Some(e) ==> is_value_changed(
                e, old(self).key@, final(self).spec_selected_value())),
    {
        if !(input.just_released && self.options.len() > 0) {
            return None;
        }
        let len = self.options.len();
        let row_width: i64 = self.rect.width - 2 * RADIO_INSET_X;
        if row_width <= 0 {
            proof {
                vstd::arithmetic::div_mod::lemma_div_is_ordered(
                    (self.rect.width - 2 * RADIO_INSET_X) as int, 0, len as int);
                vstd::arithmetic::div_mod::lemma_div_of0(len as int);
            }
            return None;
        }
        let width_u: u128 = row_width as u128;
        let stride_u: u128 = width_u / (len as u128);
        if stride_u == 0 {
            return None;
        }
        proof {
            if (len as u128) > width_u {
                vstd::arithmetic::div_mod::lemma_basic_div(width_u as int, len as int);
            }
            assert(len as u128 <= width_u);
        }
        let stride: i64 = stride_u as i64;
        let count: i64 = len as i64;
        proof {
            vstd::arithmetic::div_mod::lemma_fundamental_div_mod(row_width as int, len as int);
            vstd::arithmetic::div_mod::lemma_mod_bound(row_width as int, len as int);
            vstd::arithmetic::div_mod::lemma_div_nonincreasing(row_width as int, len as int);
            assert(stride as int == (row_width as int) / (len as int));
            assert(count * stride <= row_width as int);
        }
        let row: i64 = count * stride;
        let body_top: i64 = self.rect.y + RADIO_BODY_TOP;
        let body_height: i64 = if self.rect.height - RADIO_BODY_MARGIN > 0 {
            self.rect.height - RADIO_BODY_MARGIN
        } else {
            0
        };
        if input.y >= body_top && input.y < body_top + body_height
            && input.x >= self.rect.x + RADIO_INSET_X && input.x < self.rect.x + RADIO_INSET_X
            + row {
            let dx: u64 = (input.x - self.rect.x - RADIO_INSET_X) as u64;
            let rem: u64 = dx % (stride as u64);
            if (rem as i64) < stride - RADIO_COLUMN_GAP {
                let index_u: u64 = dx / (stride as u64);
                proof {
                    vstd::arithmetic::mul::lemma_mul_is_commutative(count as int, stride as int);
                    vstd::arithmetic::div_mod::lemma_multiply_divide_lt(
                        dx as int, stride as int, count as int);
                }
                let index: usize = index_u as usize;
                if index != self.selected {
                    self.selected = index;
                    return Some(self.emit_changed());
                }
            }
        }
        None
    }

    /// One frame: keyboard navigation (while focused), then a click on an
    /// option column; each change emits the selected option's text, in order.
    pub fn draw(&mut self, input: &PointerState) -> (events: Vec<UiEvent>)
        requires
            old(self).wf(),
            input.wf(),
        ensures
            final(self).wf(),
            *final(self) == old(self).spec_frame(*input),
            events@.len() == old(self).spec_frame_payloads(*input).len(),
            forall|i: int| 0 <= i < events@.len() ==> is_value_changed(
                #[trigger] events@[i], old(self).key@,
                old(self).spec_frame_payloads(*input)[i]),
    {
        let ghost s0 = *self;
        let mut events: Vec<UiEvent> = Vec::new();
        if let Some(event) = self.nav_stage(input) {
            events.push(event);
        }
        if let Some(event) = self.click_stage(input) {
            events.push(event);
        }
        proof {
            assert(events@.len() == s0.spec_frame_payloads(*input).len());
        }
        events
    }

    pub fn focusable(&self) -> (r: bool)
        ensures
            r,
    {
        true
    }

    pub fn set_focused(&mut self, focused: bool)
        ensures
            *final(self) == (RadioGroup { focused, ..*old(self) }),
    {
        self.focused = focused;
    }
}

} // verus!
