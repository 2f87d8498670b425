use vstd::prelude::*;

use crate::events::{is_value_changed, UiEvent};
use crate::geometry::{Rect, POS_LIMIT};
use crate::input::PointerState;
use crate::navigation::{find_next_contains, position_of, spec_find_next_contains, spec_position,
    spec_step_clamped_index, step_clamped};

verus! {

/// The factor (in quarters) a wheel delta is scaled by before it is added
/// to the scroll offset.
pub const LIST_SCROLL_NUMERATOR: i64 = 3;

/// The denominator of the wheel scaling factor.
pub const LIST_SCROLL_DENOMINATOR: i64 = 4;

/// A scrolling list with a single selection and an anchor for range
/// extension.  Clicks select the row under the pointer; while focused,
/// arrows move the selection (clamped at the ends), their select variants
/// extend the range from the anchor, page moves jump by the visible row
/// count, home/end jump to the ends, and typed text jumps to the next
/// circular substring match.  Every actual selection change scrolls the
/// selected row into view and emits its text.
pub struct ListView {
    pub key: &'static str,
    pub rect: Rect,
    pub items: Vec<String>,
    pub row_height: i64,
    pub scroll_offset: i64,
    pub selected: Option<usize>,
    pub selection_anchor: Option<usize>,
    pub style: ListViewStyle,
    pub focused: bool,
}

pub struct ListViewStyle {
    pub fill: &'static str,
    pub border: &'static str,
    pub focus_border: &'static str,
    pub row_even: &'static str,
    pub row_odd: &'static str,
    pub text: &'static str,
    pub font: &'static str,
}

impl Default for ListViewStyle {
    fn default() -> (r: Self)
        ensures
            r.fill@ == "#0f162a"@,
            r.border@ == "#2a3350"@,
            r.focus_border@ == "#27ffd8"@,
            r.row_even@ == "#141d34"@,
            r.row_odd@ == "#10182d"@,
            r.text@ == "#cfe0ff"@,
            r.font@ == "14px Consolas"@,
    {
        ListViewStyle {
            fill: "#0f162a",
            border: "#2a3350",
            focus_border: "#27ffd8",
            row_even: "#141d34",
            row_odd: "#10182d",
            text: "#cfe0ff",
            font: "14px Consolas",
        }
    }
}

impl ListView {
    /// Rows have a positive height, the selection (when present) names an
    /// item, and the scroll offset stays in the representable range.
    pub open spec fn wf(self) -> bool {
        &&& self.rect.wf()
        &&& 0 < self.row_height <= crate::geometry::SIZE_LIMIT
        &&& (self.selected matches Some(i) ==> (i as int) < self.items@.len())
        &&& -POS_LIMIT <= self.scroll_offset <= POS_LIMIT
    }

    /// The text of the selected item, or empty when there is none.
    pub open spec fn spec_selected_value(self) -> Seq<char> {
        match self.selected {
            Some(i) => if (i as int) < self.items@.len() {
                self.items@[i as int]@
            } else {
                Seq::<char>::empty()
            },
            None => Seq::<char>::empty(),
        }
    }

    /// The farthest the list can scroll: the content height minus the view
    /// height, floored at zero (and saturated into the position range).
    pub open spec fn spec_max_scroll(self) -> int {
        let content = self.items@.len() * self.row_height;
        let m = if content - self.rect.height > 0 {
            content - self.rect.height
        } else {
            0
        };
        if m > POS_LIMIT {
            POS_LIMIT as int
        } else {
            m
        }
    }

    /// The scroll offset that keeps the selected row fully visible: pulled
    /// up to the row's top, or down past its bottom, then clamped between
    /// zero and the scroll limit.
    pub open spec fn spec_visible_scroll(self) -> int {
        match self.selected {
            Some(i) => {
                let top = (i as int) * self.row_height;
                let bottom = top + self.row_height;
                let adjusted = if top < self.scroll_offset {
                    top
                } else if bottom > self.scroll_offset + self.rect.height {
                    if bottom - self.rect.height > 0 {
                        bottom - self.rect.height
                    } else {
                        0
                    }
                } else {
                    self.scroll_offset as int
                };
                let lim = self.spec_max_scroll();
                if adjusted < 0 {
                    0
                } else if adjusted > lim {
                    lim
                } else {
                    adjusted
                }
            },
            None => self.scroll_offset as int,
        }
    }

    /// The state after selecting row `i` (clamped into the items): selection
    /// and anchor move there and the row is scrolled into view; an empty
    /// list clears both instead.
    pub open spec fn spec_after_select(self, i: int) -> ListView {
        let len = self.items@.len() as int;
        if len == 0 {
            ListView { selected: None, selection_anchor: None, ..self }
        } else {
            let next = if i > len - 1 {
                len - 1
            } else {
                i
            };
            if self.selected != Some(next as usize) {
                let moved = ListView {
                    selected: Some(next as usize),
                    selection_anchor: Some(next as usize),
                    ..self
                };
                ListView { scroll_offset: moved.spec_visible_scroll() as i64, ..moved }
            } else {
                ListView { scroll_offset: self.spec_visible_scroll() as i64, ..self }
            }
        }
    }

    /// Does selecting row `i` emit (the selection actually changes)?
    pub open spec fn spec_select_emits(self, i: int) -> bool {
        let len = self.items@.len() as int;
        len > 0 && self.selected != Some((if i > len - 1 {
            len - 1
        } else {
            i
        }) as usize)
    }

    /// Replaces the item list; a selection now out of range moves to the new
    /// last row, or clears if the list became empty.
    pub fn set_items(&mut self, items: Vec<String>)
        requires
            old(self).wf(),
        ensures
            final(self).wf(),
            final(self).items == items,
            *final(self) == (ListView {
                items: final(self).items,
                selected: match old(self).selected {
                    Some(s) => if (s as int) >= items@.len() {
                        if items@.len() == 0 {
                            None
                        } else {
                            Some((items@.len() - 1) as usize)
                        }
                    } else {
                        Some(s)
                    },
                    None => None,
                },
                ..*old(self)
            }),
    {
        self.items = items;
        let len = self.items.len();
        match self.selected {
            Some(s) => {
                if s >= len {
                    self.selected = if len == 0 {
                        None
                    } else {
                        Some(len - 1)
                    };
                }
            },
            None => {},
        }
    }

    /// Selects the first item equal to `value` (or clears the selection when
    /// none matches); the anchor follows the selection.
    pub fn set_selected_by_value(&mut self, value: &str)
        requires
            old(self).wf(),
        ensures
            final(self).wf(),
            *final(self) == (ListView {
                selected: spec_position(old(self).items@, value@),
                selection_anchor: spec_position(old(self).items@, value@),
                ..*old(self)
            }),
    {
        self.selected = position_of(&self.items, value);
        self.selection_anchor = self.selected;
    }

    /// The text of the selected item (empty when there is none).
    pub fn selected_value(&self) -> (r: String)
        ensures
            r@ == self.spec_selected_value(),
    {
        match self.selected {
            Some(i) => {
                if i < self.items.len() {
                    self.items[i].clone()
                } else {
                    String::new()
                }
            },
            None => String::new(),
        }
    }

    /// The value-change event for the current selection, if one exists.
    pub fn emit_selection(&self) -> (r: Option<UiEvent>)
        ensures
            (r is Some <==> self.selected is Some),
            (r matches Some(e) ==> is_value_changed(e, self.key@, self.spec_selected_value())),
    {
        match self.selected {
            Some(_) => Some(
                UiEvent::ValueChanged { key: self.key, value: self.selected_value() },
            ),
            None => None,
        }
    }

    /// The inclusive selection range between anchor and selection, smaller
    /// index first, if both ends exist.
    pub fn selection_range(&self) -> (r: Option<(usize, usize)>)
        ensures
            r == (match (self.selection_anchor, self.selected) {
                (Some(a), Some(b)) => if a <= b {
                    Some((a, b))
                } else {
                    Some((b, a))
                },
                _ => None::<(usize, usize)>,
            }),
    {
        match (self.selection_anchor, self.selected) {
            (Some(a), Some(b)) => {
                if a <= b {
                    Some((a, b))
                } else {
                    Some((b, a))
                }
            },
            _ => None,
        }
    }

    /// Scrolls the selected row fully into view, then clamps the offset.
    fn ensure_selected_visible(&mut self)
        requires
            old(self).wf(),
        ensures
            final(self).wf(),
            *final(self) == (ListView { scroll_offset: old(self).spec_visible_scroll() as i64,
                ..*old(self) }),
    {
        let i: usize = match self.selected {
            Some(i) => i,
            None => {
                return ;
            },
        };
        let item_count = self.items.len();
        proof {
            assert(self.items@.len() == item_count);
            assert(0 <= (self.items@.len() as int) * (self.row_height as int)
                <= 0x1_0000_0000_0000_0000_0000_0000int) by (nonlinear_arith)
                requires
                    0 <= self.items@.len() <= 0xffff_ffff_ffff_ffffu64 as int,
                    0 < self.row_height as int <= 0x100_0000;
            assert(0 <= (i as int) * (self.row_height as int)
                <= (self.items@.len() as int) * (self.row_height as int)) by (nonlinear_arith)
                requires
                    0 <= i as int <= self.items@.len(),
                    0 < self.row_height as int;
        }
        let rh: i128 = self.row_height as i128;
        let top: i128 = i as i128 * rh;
        let bottom: i128 = top + rh;
        let scroll: i128 = self.scroll_offset as i128;
        let adjusted: i128 = if top < scroll {
            top
        } else if bottom > scroll + self.rect.height as i128 {
            let down = bottom - self.rect.height as i128;
            if down > 0 {
                down
            } else {
                0
            }
        } else {
            scroll
        };
        let content: i128 = self.items.len() as i128 * rh;
        let over: i128 = content - self.rect.height as i128;
        let m: i128 = if over > 0 {
            over
        } else {
            0
        };
        let lim: i128 = if m > POS_LIMIT as i128 {
            POS_LIMIT as i128
        } else {
            m
        };
        let clamped: i128 = if adjusted < 0 {
            0
        } else if adjusted > lim {
            lim
        } else {
            adjusted
        };
        self.scroll_offset = clamped as i64;
    }

    /// Selects row `index` (clamped into the items); emits iff the selection
    /// actually changes.
    fn select_by_index(&mut self, index: usize) -> (r: Option<UiEvent>)
        requires
            old(self).wf(),
        ensures
            final(self).wf(),
            *final(self) == old(self).spec_after_select(index as int),
            (r is Some <==> old(self).spec_select_emits(index as int)),
            (r matches Some(e) ==> is_value_changed(
                e, old(self).key@, final(self).spec_selected_value())),
    {
        let len = self.items.len();
        if len == 0 {
            self.selected = None;
            self.selection_anchor = None;
            return None;
        }
        let next: usize = if index > len - 1 {
            len - 1
        } else {
            index
        };
        if self.selected != Some(next) {
            self.selected = Some(next);
            self.selection_anchor = Some(next);
            self.ensure_selected_visible();
            return self.emit_selection();
        }
        self.ensure_selected_visible();
        None
    }

    /// The state after extending the selection by `delta` from the anchor.
    pub open spec fn spec_after_extend(self, delta: int) -> ListView {
        let len = self.items@.len() as int;
        if len == 0 {
            self
        } else {
            let next = spec_step_clamped_index(self.selected, delta, len);
            let anchored = ListView {
                selection_anchor: if self.selection_anchor is None {
                    match self.selected {
                        Some(s) => Some(s),
                        None => Some(next as usize),
                    }
                } else {
                    self.selection_anchor
                },
                ..self
            };
            if self.selected != Some(next as usize) {
                let moved = ListView { selected: Some(next as usize), ..anchored };
                ListView { scroll_offset: moved.spec_visible_scroll() as i64, ..moved }
            } else {
                ListView { scroll_offset: anchored.spec_visible_scroll() as i64, ..anchored }
            }
        }
    }

    /// Does extending by `delta` emit?
    pub open spec fn spec_extend_emits(self, delta: int) -> bool {
        let len = self.items@.len() as int;
        len > 0 && self.selected != Some(spec_step_clamped_index(self.selected, delta, len)
            as usize)
    }

    /// Extends the selection range by `delta` without resetting the anchor;
    /// emits iff the selection actually changes.
    fn extend_selection(&mut self, delta: isize) -> (r: Option<UiEvent>)
        requires
            old(self).wf(),
        ensures
            final(self).wf(),
            *final(self) == old(self).spec_after_extend(delta as int),
            (r is Some <==> old(self).spec_extend_emits(delta as int)),
            (r matches Some(e) ==> is_value_changed(
                e, old(self).key@, final(self).spec_selected_value())),
    {
        let len = self.items.len();
        if len == 0 {
            return None;
        }
        let next = match step_clamped(self.selected, delta, len) {
            Some(n) => n,
            None => 0,
        };
        if self.selection_anchor.is_none() {
            self.selection_anchor = Some(match self.selected {
                Some(s) => s,
                None => next,
            });
        }
        if self.selected != Some(next) {
            self.selected = Some(next);
            self.ensure_selected_visible();
            return self.emit_selection();
        }
        self.ensure_selected_visible();
        None
    }

    /// The state after the wheel stage: a wheel delta over the list scales
    /// by three quarters and accumulates into the scroll offset.
    pub open spec fn spec_after_wheel(self, input: PointerState) -> ListView {
        if self.rect.spec_contains(input.x as int, input.y as int) && input.scroll_y != 0 {
            ListView {
                scroll_offset: crate::input::spec_clamp_pos(self.scroll_offset
                    + (LIST_SCROLL_NUMERATOR as int * input.scroll_y as int) / (
                    LIST_SCROLL_DENOMINATOR as int)) as i64,
                ..self
            }
        } else {
            self
        }
    }

    /// The row a release over the list lands on, if it names an item.
    pub open spec fn spec_clicked_row(self, input: PointerState) -> Option<int> {
        let y_in = input.y - self.rect.y + self.scroll_offset;
        let y_floor = if y_in < 0 {
            0
        } else {
            y_in as int
        };
        let index = y_floor / (self.row_height as int);
        if input.just_released && self.rect.spec_contains(input.x as int, input.y as int)
            && index < self.items@.len() {
            Some(index)
        } else {
            None
        }
    }

    /// The state after the click stage.
    pub open spec fn spec_after_click(self, input: PointerState) -> ListView {
        match self.spec_clicked_row(input) {
            Some(i) => self.spec_after_select(i),
            None => self,
        }
    }

    /// Does the click stage emit?
    pub open spec fn spec_click_emits(self, input: PointerState) -> bool {
        match self.spec_clicked_row(input) {
            Some(i) => self.spec_select_emits(i),
            None => false,
        }
    }

    /// How many rows one page move covers: the fully visible rows, at least 1.
    pub open spec fn spec_page_delta(self) -> int {
        let d = (self.rect.height as int) / (self.row_height as int);
        if d < 1 {
            1
        } else {
            d
        }
    }

    fn page_delta(&self) -> (r: isize)
        requires
            self.wf(),
        ensures
            r as int == self.spec_page_delta(),
            1 <= r <= 0x100_0000,
    {
        let d: i64 = {
            let h: u64 = self.rect.height as u64;
            let rh: u64 = self.row_height as u64;
            (h / rh) as i64
        };
        proof {
            vstd::arithmetic::div_mod::lemma_div_nonincreasing(
                self.rect.height as int, self.row_height as int);
            vstd::arithmetic::div_mod::lemma_div_pos_is_pos(
                self.rect.height as int, self.row_height as int);
        }
        if d < 1 {
            1
        } else {
            d as isize
        }
    }

    /// The wheel stage of a frame.
    fn wheel_stage(&mut self, input: &PointerState)
        requires
            old(self).wf(),
            input.wf(),
        ensures
            final(self).wf(),
            *final(self) == old(self).spec_after_wheel(*input),
    {
        if self.rect.contains(input.x, input.y) && input.scroll_y != 0 {
            let scaled_wide: i128 = (LIST_SCROLL_NUMERATOR as i128 * input.scroll_y as i128);
            let scaled: i128 = crate::geometry::div_floor(
                scaled_wide, LIST_SCROLL_DENOMINATOR as i128);
            proof {
                vstd::arithmetic::div_mod::lemma_fundamental_div_mod(
                    scaled_wide as int, LIST_SCROLL_DENOMINATOR as int);
                vstd::arithmetic::div_mod::lemma_mod_bound(
                    scaled_wide as int, LIST_SCROLL_DENOMINATOR as int);
            }
            let moved: i128 = self.scroll_offset as i128 + scaled;
            self.scroll_offset = if moved > POS_LIMIT as i128 {
                POS_LIMIT
            } else if moved < -(POS_LIMIT as i128) {
                -POS_LIMIT
            } else {
                moved as i64
            };
        }
    }

    /// The click stage of a frame.
    fn click_stage(&mut self, input: &PointerState) -> (r: Option<UiEvent>)
        requires
            old(self).wf(),
            input.wf(),
        ensures
            final(self).wf(),
            *final(self) == old(self).spec_after_click(*input),
            (r is Some <==> old(self).spec_click_emits(*input)),
            (r matches Some(e) ==> is_value_changed(
                e, old(self).key@, final(self).spec_selected_value())),
    {
        if !(input.just_released && self.rect.contains(input.x, input.y)) {
            return None;
        }
        let y_in_raw: i128 = input.y as i128 - self.rect.y as i128 + self.scroll_offset as i128;
        let y_in: i128 = if y_in_raw < 0 {
            0
        } else {
            y_in_raw
        };
        let index_wide: u128 = (y_in as u128) / (self.row_height as u128);
        let len = self.items.len();
        if index_wide < len as u128 {
            let index: usize = index_wide as usize;
            self.select_by_index(index)
        } else {
            None
        }
    }

    /// The state after a plain (non-extending) step by `delta`: the anchor
    /// collapses to the current selection, then the stepped row is selected.
    pub open spec fn spec_after_plain_step(self, delta: int) -> ListView {
        let pre = ListView { selection_anchor: self.selected, ..self };
        if self.items@.len() == 0 {
            ListView { selected: None, ..pre }
        } else {
            pre.spec_after_select(spec_step_clamped_index(self.selected, delta,
                self.items@.len() as int))
        }
    }

    /// Does a plain step by `delta` emit?
    pub open spec fn spec_plain_step_emits(self, delta: int) -> bool {
        self.items@.len() > 0 && self.spec_select_emits(spec_step_clamped_index(
            self.selected, delta, self.items@.len() as int))
    }

    /// The state after the keyboard-navigation stage of a frame.
    pub open spec fn spec_after_nav(self, input: PointerState) -> ListView {
        let len = self.items@.len() as int;
        let pre = ListView { selection_anchor: self.selected, ..self };
        if !self.focused {
            self
        } else if input.move_up {
            self.spec_after_plain_step(-1)
        } else if input.move_down {
            self.spec_after_plain_step(1)
        } else if input.move_up_select {
            self.spec_after_extend(-1)
        } else if input.move_down_select {
            self.spec_after_extend(1)
        } else if input.move_page_up {
            self.spec_after_plain_step(-self.spec_page_delta())
        } else if input.move_page_down {
            self.spec_after_plain_step(self.spec_page_delta())
        } else if input.move_home {
            pre.spec_after_select(0)
        } else if input.move_end && len > 0 {
            pre.spec_after_select(len - 1)
        } else {
            self
        }
    }

    /// Does the keyboard-navigation stage emit?
    pub open spec fn spec_nav_emits(self, input: PointerState) -> bool {
        let len = self.items@.len() as int;
        if !self.focused {
            false
        } else if input.move_up {
            self.spec_plain_step_emits(-1)
        } else if input.move_down {
            self.spec_plain_step_emits(1)
        } else if input.move_up_select {
            self.spec_extend_emits(-1)
        } else if input.move_down_select {
            self.spec_extend_emits(1)
        } else if input.move_page_up {
            self.spec_plain_step_emits(-self.spec_page_delta())
        } else if input.move_page_down {
            self.spec_plain_step_emits(self.spec_page_delta())
        } else if input.move_home {
            self.spec_select_emits(0)
        } else if input.move_end && len > 0 {
            self.spec_select_emits(len - 1)
        } else {
            false
        }
    }

    /// The row the type-ahead stage jumps to, if any.
    pub open spec fn spec_typeahead_target(self, input: PointerState) -> Option<usize> {
        if self.focused && input.text_input is Some {
            spec_find_next_contains(self.items@, input.text_input->0@, self.selected)
        } else {
            None
        }
    }

    /// The state after the type-ahead stage of a frame.
    pub open spec fn spec_after_typeahead(self, input: PointerState) -> ListView {
        match self.spec_typeahead_target(input) {
            Some(j) => self.spec_after_select(j as int),
            None => self,
        }
    }

    /// Does the type-ahead stage emit?
    pub open spec fn spec_typeahead_emits(self, input: PointerState) -> bool {
        match self.spec_typeahead_target(input) {
            Some(j) => self.spec_select_emits(j as int),
            None => false,
        }
    }

    /// The state after the final clamp of the scroll offset.
    pub open spec fn spec_after_clamp(self) -> ListView {
        let lim = self.spec_max_scroll();
        ListView {
            scroll_offset: (if self.scroll_offset < 0 {
                0
            } else if self.scroll_offset > lim {
                lim
            } else {
                self.scroll_offset as int
            }) as i64,
            ..self
        }
    }

    /// The whole frame: wheel, click, keyboard navigation, type-ahead, then
    /// the scroll clamp.
    pub open spec fn spec_frame(self, input: PointerState) -> ListView {
        self.spec_after_wheel(input).spec_after_click(input).spec_after_nav(
            input).spec_after_typeahead(input).spec_after_clamp()
    }

    /// The value payloads the frame emits, in order.
    pub open spec fn spec_frame_payloads(self, input: PointerState) -> Seq<Seq<char>> {
        let s1 = self.spec_after_wheel(input);
        let s2 = s1.spec_after_click(input);
        let s3 = s2.spec_after_nav(input);
        let s4 = s3.spec_after_typeahead(input);
        let e1: Seq<Seq<char>> = if s1.spec_click_emits(input) {
            seq![s2.spec_selected_value()]
        } else {
            seq![]
        };
        let e2: Seq<Seq<char>> = if s2.spec_nav_emits(input) {
            seq![s3.spec_selected_value()]
        } else {
            seq![]
        };
        let e3: Seq<Seq<char>> = if s3.spec_typeahead_emits(input) {
            seq![s4.spec_selected_value()]
        } else {
            seq![]
        };
        e1 + e2 + e3
    }

    /// The keyboard-navigation stage of a frame.
    fn nav_stage(&mut self, input: &PointerState) -> (r: Option<UiEvent>)
        requires
            old(self).wf(),
            input.wf(),
        ensures
            final(self).wf(),
            *final(self) == old(self).spec_after_nav(*input),
            (r is Some <==> old(self).spec_nav_emits(*input)),
            (r matches Some(e) ==> is_value_changed(
                e, old(self).key@, final(self).spec_selected_value())),
    {
        if !self.focused {
            return None;
        }
        if input.move_up {
            self.selection_anchor = self.selected;
            self.step_selection_neg(1)
        } else if input.move_down {
            self.selection_anchor = self.selected;
            self.step_selection_pos(1)
        } else if input.move_up_select {
            self.extend_selection(-1)
        } else if input.move_down_select {
            self.extend_selection(1)
        } else if input.move_page_up {
            self.selection_anchor = self.selected;
            let page = self.page_delta();
            self.step_selection_neg(page)
        } else if input.move_page_down {
            self.selection_anchor = self.selected;
            let page = self.page_delta();
            self.step_selection_pos(page)
        } else if input.move_home {
            self.selection_anchor = self.selected;
            self.select_by_index(0)
        } else if input.move_end && self.items.len() > 0 {
            self.selection_anchor = self.selected;
            let last = self.items.len() - 1;
            self.select_by_index(last)
        } else {
            None
        }
    }

    /// The type-ahead stage of a frame.
    fn typeahead_stage(&mut self, input: &PointerState) -> (r: Option<UiEvent>)
        requires
            old(self).wf(),
        ensures
            final(self).wf(),
            *final(self) == old(self).spec_after_typeahead(*input),
            (r is Some <==> old(self).spec_typeahead_emits(*input)),
            (r matches Some(e) ==> is_value_changed(
                e, old(self).key@, final(self).spec_selected_value())),
    {
        if !self.focused {
            return None;
        }
        match &input.text_input {
            Some(text) => self.jump_to_match(text.as_str()),
            None => None,
        }
    }

    /// One frame: wheel scrolling, a click on a row, keyboard navigation and
    /// type-ahead while focused, and a final clamp of the scroll offset; the
    /// emitted payloads carry the selection after each emitting stage.
    pub fn draw(&mut self, input: &PointerState) -> (events: Vec<UiEvent>)
        requires
            old(self).wf(),
            input.wf(),
        ensures
            final(self).wf(),
            *final(self) == old(self).spec_frame(*input),
            0 <= final(self).scroll_offset <= final(self).spec_max_scroll(),
            events@.len() == old(self).spec_frame_payloads(*input).len(),
            forall|i: int| 0 <= i < events@.len() ==> is_value_changed(
                #[trigger] events@[i], old(self).key@,
                old(self).spec_frame_payloads(*input)[i]),
    {
        let ghost s0 = *self;
        let mut events: Vec<UiEvent> = Vec::new();
        self.wheel_stage(input);
        if let Some(event) = self.click_stage(input) {
            events.push(event);
        }
        if let Some(event) = self.nav_stage(input) {
            events.push(event);
        }
        if let Some(event) = self.typeahead_stage(input) {
            events.push(event);
        }
        self.clamp_scroll();
        proof {
            assert(events@.len() == s0.spec_frame_payloads(*input).len());
        }
        events
    }

    /// Moves the selection down by `delta` rows (clamped at the end).
    fn step_selection_pos(&mut self, delta: isize) -> (r: Option<UiEvent>)
        requires
            old(self).wf(),
            0 <= delta,
        ensures
            final(self).wf(),
            old(self).items@.len() == 0 ==> *final(self) == (ListView { selected: None,
                ..*old(self) }) && r is None,
            old(self).items@.len() > 0 ==> {
                let next = spec_step_clamped_index(old(self).selected, delta as int,
                    old(self).items@.len() as int);
                &&& *final(self) == old(self).spec_after_select(next)
                &&& (r is Some <==> old(self).spec_select_emits(next))
            },
            (r matches Some(e) ==> is_value_changed(
                e, old(self).key@, final(self).spec_selected_value())),
    {
        if self.items.is_empty() {
            self.selected = None;
            return None;
        }
        match step_clamped(self.selected, delta, self.items.len()) {
            Some(next) => self.select_by_index(next),
            None => None,
        }
    }

    /// Moves the selection up by `delta` rows (clamped at the start).
    fn step_selection_neg(&mut self, delta: isize) -> (r: Option<UiEvent>)
        requires
            old(self).wf(),
            0 <= delta,
        ensures
            final(self).wf(),
            old(self).items@.len() == 0 ==> *final(self) == (ListView { selected: None,
                ..*old(self) }) && r is None,
            old(self).items@.len() > 0 ==> {
                let next = spec_step_clamped_index(old(self).selected, -(delta as int),
                    old(self).items@.len() as int);
                &&& *final(self) == old(self).spec_after_select(next)
                &&& (r is Some <==> old(self).spec_select_emits(next))
            },
            (r matches Some(e) ==> is_value_changed(
                e, old(self).key@, final(self).spec_selected_value())),
    {
        if self.items.is_empty() {
            self.selected = None;
            return None;
        }
        match step_clamped(self.selected, -delta, self.items.len()) {
            Some(next) => self.select_by_index(next),
            None => None,
        }
    }

    /// Jumps to the next circular substring match for `needle`.
    fn jump_to_match(&mut self, needle: &str) -> (r: Option<UiEvent>)
        requires
            old(self).wf(),
        ensures
            final(self).wf(),
            (match spec_find_next_contains(old(self).items@, needle@, old(self).selected) {
                Some(j) => {
                    &&& *final(self) == old(self).spec_after_select(j as int)
                    &&& (r is Some <==> old(self).spec_select_emits(j as int))
                },
                None => *final(self) == *old(self) && r is None,
            }),
            (r matches Some(e) ==> is_value_changed(
                e, old(self).key@, final(self).spec_selected_value())),
    {
        if needle.is_empty() || self.items.is_empty() {
            return None;
        }
        match find_next_contains(&self.items, needle, self.selected) {
            Some(index) => self.select_by_index(index),
            None => None,
        }
    }

    /// Clamps the scroll offset into `[0, max scroll]`.
    fn clamp_scroll(&mut self)
        requires
            old(self).wf(),
        ensures
            final(self).wf(),
            *final(self) == (ListView {
                scroll_offset: ({
                    let lim = old(self).spec_max_scroll();
                    if old(self).scroll_offset < 0 {
                        0i64
                    } else if old(self).scroll_offset > lim {
                        lim as i64
                    } else {
                        old(self).scroll_offset
                    }
                }),
                ..*old(self)
            }),
            0 <= final(self).scroll_offset <= final(self).spec_max_scroll(),
    {
        let item_count = self.items.len();
        proof {
            assert(self.items@.len() == item_count);
            assert(0 <= (self.items@.len() as int) * (self.row_height as int)
                <= 0x1_0000_0000_0000_0000_0000_0000int) by (nonlinear_arith)
                requires
                    0 <= self.items@.len() <= 0xffff_ffff_ffff_ffffu64 as int,
                    0 < self.row_height as int <= 0x100_0000;
        }
        let content: i128 = self.items.len() as i128 * self.row_height as i128;
        let over: i128 = content - self.rect.height as i128;
        let m: i128 = if over > 0 {
            over
        } else {
            0
        };
        let lim: i128 = if m > POS_LIMIT as i128 {
            POS_LIMIT as i128
        } else {
            m
        };
        let s: i128 = self.scroll_offset as i128;
        self.scroll_offset = if s < 0 {
            0
        } else if s > lim {
            lim as i64
        } else {
            self.scroll_offset
        };
    }

    pub fn focusable(&self) -> (r: bool)
        ensures
            r,
    {
        true
    }

    pub fn set_focused(&mut self, focused: bool)
        ensures
            *final(self) == (ListView { focused, ..*old(self) }),
    {
        self.focused = focused;
    }

    /// Activation re-emits the current selection, if one exists.
    pub fn activate(&mut self) -> (r: Option<UiEvent>)
        ensures
            *final(self) == *old(self),
            (r is Some <==> old(self).selected is Some),
            (r matches Some(e) ==> is_value_changed(
                e, old(self).key@, old(self).spec_selected_value())),
    {
        self.emit_selection()
    }
}

} // verus!
