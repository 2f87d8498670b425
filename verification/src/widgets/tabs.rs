use vstd::prelude::*;

use crate::events::{is_value_changed, UiEvent};
use crate::geometry::Rect;
use crate::input::PointerState;
use crate::navigation::{find_next_prefix, position_of, spec_find_next_prefix, spec_position,
    spec_step_wrapped_index, step_wrapped};

verus! {

/// A horizontal tab strip with a single selection.  Arrow keys step the
/// selection circularly, home/end jump to the ends, typed text jumps to the
/// next prefix match, and a click selects the tab under the pointer.  Every
/// actual change emits one value-change event carrying the tab's text.
pub struct Tabs {
    pub key: &'static str,
    pub rect: Rect,
    pub options: Vec<String>,
    pub selected: usize,
    pub focused: bool,
    pub style: TabsStyle,
}

pub struct TabsStyle {
    pub fill: &'static str,
    pub border: &'static str,
    pub focus_border: &'static str,
    pub active_fill: &'static str,
    pub text: &'static str,
    pub active_text: &'static str,
    pub font: &'static str,
}

impl Default for TabsStyle {
    fn default() -> (r: Self)
        ensures
            r.fill@ == "#10192e"@,
            r.border@ == "#2a3350"@,
            r.focus_border@ == "#27ffd8"@,
            r.active_fill@ == "#22375e"@,
            r.text@ == "#9fb4e4"@,
            r.active_text@ == "#e5efff"@,
            r.font@ == "600 14px Consolas"@,
    {
        TabsStyle {
            fill: "#10192e",
            border: "#2a3350",
            focus_border: "#27ffd8",
            active_fill: "#22375e",
            text: "#9fb4e4",
            active_text: "#e5efff",
            font: "600 14px Consolas",
        }
    }
}

impl Tabs {
    /// The selection always names an option (and is 0 when there are none).
    pub open spec fn wf(self) -> bool {
        &&& self.rect.wf()
        &&& self.options@.len() == 0 ==> self.selected == 0
        &&& self.options@.len() > 0 ==> (self.selected as int) < self.options@.len()
    }

    /// The text of the selected option, or empty when there is none.
    pub open spec fn spec_selected_value(self) -> Seq<char> {
        if (self.selected as int) < self.options@.len() {
            self.options@[self.selected as int]@
        } else {
            Seq::<char>::empty()
        }
    }

    /// Where a directional or home/end signal moves the selection.
    pub open spec fn spec_nav_target(self, input: PointerState) -> Option<usize> {
        let len = self.options@.len() as int;
        if len == 0 {
            None
        } else if input.move_left || input.move_up {
            Some(spec_step_wrapped_index(Some(self.selected), -1, len) as usize)
        } else if input.move_right || input.move_down {
            Some(spec_step_wrapped_index(Some(self.selected), 1, len) as usize)
        } else if input.move_home {
            Some(0usize)
        } else if input.move_end {
            Some((len - 1) as usize)
        } else {
            None
        }
    }

    /// The width each tab occupies in the strip.
    pub open spec fn spec_tab_width(self) -> int {
        let len = self.options@.len() as int;
        if len == 0 {
            self.rect.width as int
        } else {
            (self.rect.width as int) / len
        }
    }

    /// The tab a release lands on, if any: the strip is divided into equal
    /// integer-width columns, and a release inside column `i` selects tab `i`.
    pub open spec fn spec_clicked_tab(self, input: PointerState) -> Option<usize> {
        let len = self.options@.len() as int;
        let tw = self.spec_tab_width();
        let px = input.x as int;
        let py = input.y as int;
        if input.just_released && len > 0 && tw > 0 && self.rect.y <= py < self.rect.y
            + self.rect.height && self.rect.x <= px < self.rect.x + len * tw {
            Some(((px - self.rect.x) / tw) as usize)
        } else {
            None
        }
    }

    /// The state after the keyboard-navigation stage of a frame.
    pub open spec fn spec_after_nav(self, input: PointerState) -> Tabs {
        if self.focused {
            match self.spec_nav_target(input) {
                Some(t) => Tabs { selected: t, ..self },
                None => self,
            }
        } else {
            self
        }
    }

    /// Does the keyboard-navigation stage emit?
    pub open spec fn spec_nav_emits(self, input: PointerState) -> bool {
        self.focused && match self.spec_nav_target(input) {
            Some(t) => t != self.selected,
            None => false,
        }
    }

    /// Where the type-ahead stage jumps from state `self`, if anywhere.
    pub open spec fn spec_jump_target(self, input: PointerState) -> Option<usize> {
        if self.focused && input.text_input is Some {
            match spec_find_next_prefix(self.options@, input.text_input->0@, Some(self.selected)) {
                Some(j) => if j != self.selected {
                    Some(j)
                } else {
                    None
                },
                None => None,
            }
        } else {
            None
        }
    }

    /// The state after the type-ahead stage of a frame.
    pub open spec fn spec_after_jump(self, input: PointerState) -> Tabs {
        match self.spec_jump_target(input) {
            Some(j) => Tabs { selected: j, ..self },
            None => self,
        }
    }

    /// The tab the click stage selects from state `self`, if it changes it.
    pub open spec fn spec_click_target(self, input: PointerState) -> Option<usize> {
        match self.spec_clicked_tab(input) {
            Some(i) => if i != self.selected {
                Some(i)
            } else {
                None
            },
            None => None,
        }
    }

    /// The state after the click stage of a frame.
    pub open spec fn spec_after_click(self, input: PointerState) -> Tabs {
        match self.spec_click_target(input) {
            Some(i) => Tabs { selected: i, ..self },
            None => self,
        }
    }

    /// The whole frame: keyboard navigation, then type-ahead, then click.
    pub open spec fn spec_frame(self, input: PointerState) -> Tabs {
        self.spec_after_nav(input).spec_after_jump(input).spec_after_click(input)
    }

    /// The value payloads the frame emits, in order.
    pub open spec fn spec_frame_payloads(self, input: PointerState) -> Seq<Seq<char>> {
        let s1 = self.spec_after_nav(input);
        let s2 = s1.spec_after_jump(input);
        let s3 = s2.spec_after_click(input);
        let e1: Seq<Seq<char>> = if self.spec_nav_emits(input) {
            seq![s1.spec_selected_value()]
        } else {
            seq![]
        };
        let e2: Seq<Seq<char>> = if s1.spec_jump_target(input) is Some {
            seq![s2.spec_selected_value()]
        } else {
            seq![]
        };
        let e3: Seq<Seq<char>> = if s2.spec_click_target(input) is Some {
            seq![s3.spec_selected_value()]
        } else {
            seq![]
        };
        e1 + e2 + e3
    }

    /// Selects the first option whose text equals `value`; no match leaves
    /// the selection alone.
    pub fn set_selected_by_value(&mut self, value: &str)
        requires
            old(self).wf(),
        ensures
            *final(self) == (Tabs {
                selected: match spec_position(old(self).options@, value@) {
                    Some(i) => i,
                    None => old(self).selected,
                },
                ..*old(self)
            }),
            final(self).wf(),
    {
        match position_of(&self.options, value) {
            Some(i) => self.selected = i,
            None => {},
        }
    }

    /// The text of the selected option (empty when there are none).
    pub fn selected_value(&self) -> (r: String)
        ensures
            r@ == self.spec_selected_value(),
    {
        if self.selected < self.options.len() {
            self.options[self.selected].clone()
        } else {
            String::new()
        }
    }

    /// The value-change event for the current selection.
    pub fn emit_changed(&self) -> (e: UiEvent)
        ensures
            is_value_changed(e, self.key@, self.spec_selected_value()),
    {
        UiEvent::ValueChanged { key: self.key, value: self.selected_value() }
    }

    /// Steps the selection circularly by `delta`; emits iff it changes.
    pub fn step(&mut self, delta: isize) -> (r: Option<UiEvent>)
        requires
            old(self).wf(),
        ensures
            final(self).wf(),
            old(self).options@.len() == 0 ==> *final(self) == *old(self) && r is None,
            old(self).options@.len() > 0 ==> {
                let target = spec_step_wrapped_index(
                    Some(old(self).selected), delta as int, old(self).options@.len() as int);
                &&& *final(self) == (Tabs { selected: target as usize, ..*old(self) })
                &&& (r is Some <==> target != old(self).selected)
                &&& (r matches Some(e) ==> is_value_changed(
                    e, old(self).key@, final(self).spec_selected_value()))
            },
    {
        if self.options.is_empty() {
            return None;
        }
        let next = match step_wrapped(Some(self.selected), delta, self.options.len()) {
            Some(n) => n,
            None => 0,
        };
        if next != self.selected {
            self.selected = next;
            return Some(self.emit_changed());
        }
        None
    }

    /// Jumps to the next circular prefix match for `text`; emits iff the
    /// selection changes.
    pub fn jump_to(&mut self, text: &str) -> (r: Option<UiEvent>)
        requires
            old(self).wf(),
        ensures
            final(self).wf(),
            ({
                let found = spec_find_next_prefix(old(self).options@, text@, Some(
                    old(self).selected));
                match found {
                    Some(j) => if j != old(self).selected {
                        &&& *final(self) == (Tabs { selected: j, ..*old(self) })
                        &&& (r matches Some(e) && is_value_changed(
                            e, old(self).key@, final(self).spec_selected_value()))
                    } else {
                        *final(self) == *old(self) && r is None
                    },
                    None => *final(self) == *old(self) && r is None,
                }
            }),
    {
        match find_next_prefix(&self.options, text, Some(self.selected)) {
            Some(index) => {
                if index != self.selected {
                    self.selected = index;
                    Some(self.emit_changed())
                } else {
                    None
                }
            },
            None => None,
        }
    }

    /// The keyboard-navigation stage: while focused, arrows step the
    /// selection circularly, home/end jump to the ends; emits iff it changes.
    fn nav_stage(&mut self, input: &PointerState) -> (r: Option<UiEvent>)
        requires
            old(self).wf(),
            input.wf(),
        ensures
            final(self).wf(),
            *final(self) == old(self).spec_after_nav(*input),
            (r is Some <==> old(self).spec_nav_emits(*input)),
            (r matches Some(e) ==> is_value_changed(
                e, old(self).key@, final(self).spec_selected_value())),
    {
        let opt_count = self.options.len();
        proof {
            let len = self.options@.len() as int;
            assert(len == opt_count);
            if len > 0 {
                vstd::arithmetic::div_mod::lemma_mod_bound(self.selected as int - 1, len);
                vstd::arithmetic::div_mod::lemma_mod_bound(self.selected as int + 1, len);
            }
        }
        if !self.focused {
            return None;
        }
        if input.move_left || input.move_up {
            self.step(-1)
        } else if input.move_right || input.move_down {
            self.step(1)
        } else if input.move_home {
            if !self.options.is_empty() && self.selected != 0 {
                self.selected = 0;
                Some(self.emit_changed())
            } else {
                None
            }
        } else if input.move_end && !self.options.is_empty() {
            let last = self.options.len() - 1;
            if self.selected != last {
                self.selected = last;
                Some(self.emit_changed())
            } else {
                None
            }
        } else {
            None
        }
    }

    /// The type-ahead stage: while focused, typed text jumps to the next
    /// circular prefix match; emits iff the selection changes.
    fn jump_stage(&mut self, input: &PointerState) -> (r: Option<UiEvent>)
        requires
            old(self).wf(),
        ensures
            final(self).wf(),
            *final(self) == old(self).spec_after_jump(*input),
            (r is Some <==> old(self).spec_jump_target(*input) is Some),
            (r matches Some(e) ==> is_value_changed(
                e, old(self).key@, final(self).spec_selected_value())),
    {
        if !self.focused {
            return None;
        }
        match &input.text_input {
            Some(text) => self.jump_to(text.as_str()),
            None => None,
        }
    }

    /// The click stage: a release inside a tab's column selects that tab;
    /// emits iff the selection changes.
    fn click_stage(&mut self, input: &PointerState) -> (r: Option<UiEvent>)
        requires
            old(self).wf(),
            input.wf(),
        ensures
            final(self).wf(),
            *final(self) == old(self).spec_after_click(*input),
            (r is Some <==> old(self).spec_click_target(*input) is Some),
            (r matches Some(e) ==> is_value_changed(
                e, old(self).key@, final(self).spec_selected_value())),
    {
        if !(input.just_released && self.options.len() > 0) {
            return None;
        }
        let len = self.options.len();
        let width_u: u128 = self.rect.width as u128;
        let tw_u: u128 = width_u / (len as u128);
        if tw_u == 0 {
            return None;
        }
        proof {
            if (len as u128) > width_u {
                vstd::arithmetic::div_mod::lemma_basic_div(width_u as int, len as int);
            }
            assert(len as u128 <= width_u);
        }
        let tw: i64 = tw_u as i64;
        let count: i64 = len as i64;
        proof {
            vstd::arithmetic::div_mod::lemma_fundamental_div_mod(
                self.rect.width as int, len as int);
            vstd::arithmetic::div_mod::lemma_mod_bound(self.rect.width as int, len as int);
            vstd::arithmetic::div_mod::lemma_div_pos_is_pos(self.rect.width as int, len as int);
            vstd::arithmetic::div_mod::lemma_div_nonincreasing(self.rect.width as int, len as int);
            assert(tw as int == (self.rect.width as int) / (len as int));
            assert(count * tw <= self.rect.width as int);
        }
        let strip: i64 = count * tw;
        if input.y >= self.rect.y && input.y < self.rect.y + self.rect.height
            && input.x >= self.rect.x && input.x < self.rect.x + strip {
            let dx: u64 = (input.x - self.rect.x) as u64;
            let index_u: u64 = dx / (tw as u64);
            proof {
                vstd::arithmetic::mul::lemma_mul_is_commutative(count as int, tw as int);
                vstd::arithmetic::div_mod::lemma_multiply_divide_lt(
                    dx as int, tw as int, count as int);
            }
            let index: usize = index_u as usize;
            if index != self.selected {
                self.selected = index;
                return Some(self.emit_changed());
            }
        }
        None
    }

    /// One frame: keyboard navigation (while focused), type-ahead, then a
    /// click on a tab; each change emits the selected tab's text, in order.
    pub fn draw(&mut self, input: &PointerState) -> (events: Vec<UiEvent>)
        requires
            old(self).wf(),
            input.wf(),
        ensures
            final(self).wf(),
            *final(self) == old(self).spec_frame(*input),
            events@.len() == old(self).spec_frame_payloads(*input).len(),
            forall|i: int| 0 <= i < events@.len() ==> is_value_changed(
                #[trigger] events@[i], old(self).key@,
                old(self).spec_frame_payloads(*input)[i]),
    {
        let ghost s0 = *self;
        let mut events: Vec<UiEvent> = Vec::new();
        if let Some(event) = self.nav_stage(input) {
            events.push(event);
        }
        if let Some(event) = self.jump_stage(input) {
            events.push(event);
        }
        if let Some(event) = self.click_stage(input) {
            events.push(event);
        }
        proof {
            assert(events@.len() == s0.spec_frame_payloads(*input).len());
        }
        events
    }

    pub fn focusable(&self) -> (r: bool)
        ensures
            r,
    {
        true
    }

    pub fn set_focused(&mut self, focused: bool)
        ensures
            *final(self) == (Tabs { focused, ..*old(self) }),
    {
        self.focused = focused;
    }
}

} // verus!
