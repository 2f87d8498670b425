use vstd::prelude::*;

use crate::clipboard::Clipboard;
use crate::events::{is_value_changed, UiEvent};
use crate::geometry::Rect;
use crate::input::PointerState;

verus! {

/// A single-line text field.  The cursor is a character offset (so multi-byte
/// characters are never split); an optional anchor marks the other end of the
/// selection; a pointer drag extends it.  Editing only happens while focused;
/// every successful edit emits one value-change event carrying the new text.
pub struct TextInput {
    pub key: &'static str,
    pub rect: Rect,
    pub value: String,
    pub placeholder: &'static str,
    pub style: TextInputStyle,
    pub focused: bool,
    pub cursor: usize,
    pub selection_anchor: Option<usize>,
    pub dragging_selection: bool,
}

pub struct TextInputStyle {
    pub fill: &'static str,
    pub border: &'static str,
    pub focus_border: &'static str,
    pub text: &'static str,
    pub placeholder: &'static str,
    pub font: &'static str,
    pub padding_x: i64,
    pub char_width: i64,
}

impl Default for TextInputStyle {
    fn default() -> (r: Self)
        ensures
            r.fill@ == "#111827"@,
            r.border@ == "#2a3350"@,
            r.focus_border@ == "#27ffd8"@,
            r.text@ == "#d8e3ff"@,
            r.placeholder@ == "#6f7fa8"@,
            r.font@ == "600 16px Consolas"@,
            r.padding_x == 10,
            r.char_width == 9,
    {
        TextInputStyle {
            fill: "#111827",
            border: "#2a3350",
            focus_border: "#27ffd8",
            text: "#d8e3ff",
            placeholder: "#6f7fa8",
            font: "600 16px Consolas",
            padding_x: 10,
            char_width: 9,
        }
    }
}

/// `text` with the character range `[lo, hi)` replaced by `ins`.
pub open spec fn spec_splice(text: Seq<char>, lo: int, hi: int, ins: Seq<char>) -> Seq<char> {
    text.subrange(0, lo) + ins + text.subrange(hi, text.len() as int)
}

impl TextInput {
    /// Cursor and anchor are character boundaries of the value; the glyph
    /// advance and padding are positive and small.
    pub open spec fn wf(self) -> bool {
        &&& self.rect.wf()
        &&& 0 < self.style.char_width <= crate::geometry::SIZE_LIMIT
        &&& 0 <= self.style.padding_x <= crate::geometry::SIZE_LIMIT
        &&& self.cursor <= self.value@.len()
        &&& (self.selection_anchor matches Some(a) ==> a <= self.value@.len())
        &&& self.value@.len() <= usize::MAX
    }

    /// The anchor as a mathematical option.
    pub open spec fn spec_anchor(self) -> Option<int> {
        match self.selection_anchor {
            Some(a) => Some(a as int),
            None => None,
        }
    }

    /// The selection as an ordered character range, if it is non-empty.
    pub open spec fn spec_sel(self) -> Option<(int, int)> {
        match self.selection_anchor {
            Some(a) => if a == self.cursor {
                None
            } else if a < self.cursor {
                Some((a as int, self.cursor as int))
            } else {
                Some((self.cursor as int, a as int))
            },
            None => None,
        }
    }

    /// The character boundary nearest to the horizontal offset `px`, under
    /// the field's fixed glyph advance: boundary `i` sits at `i` advances
    /// past the text's left edge.
    pub open spec fn spec_boundary_from_x(self, px: int) -> int {
        let cw = self.style.char_width as int;
        let off = px - (self.rect.x + self.style.padding_x);
        let pos = if off < 0 {
            0
        } else {
            off
        };
        let nearest = (2 * pos + cw) / (2 * cw);
        if nearest > self.value@.len() {
            self.value@.len() as int
        } else {
            nearest
        }
    }

    /// Stage: select-all sets the anchor to the start and the cursor to the
    /// end of the value.
    pub open spec fn spec_after_select_all(self, input: PointerState) -> TextInput {
        if input.select_all {
            TextInput {
                selection_anchor: Some(0usize),
                cursor: self.value@.len() as usize,
                ..self
            }
        } else {
            self
        }
    }

    /// Stage: a press inside the field places the cursor at the nearest
    /// boundary and starts a drag; a held drag keeps moving the cursor; a
    /// release ends the drag, collapsing an empty selection.
    pub open spec fn spec_after_pointer(self, input: PointerState) -> TextInput {
        let s1 = if input.just_pressed && self.rect.spec_contains(input.x as int, input.y as int) {
            let b = self.spec_boundary_from_x(input.x as int) as usize;
            TextInput { cursor: b, selection_anchor: Some(b), dragging_selection: true, ..self }
        } else {
            self
        };
        let s2 = if input.is_down && s1.dragging_selection {
            TextInput { cursor: s1.spec_boundary_from_x(input.x as int) as usize, ..s1 }
        } else {
            s1
        };
        if input.just_released && s2.dragging_selection {
            let s3 = TextInput { dragging_selection: false, ..s2 };
            if s3.spec_sel() is None {
                TextInput { selection_anchor: None, ..s3 }
            } else {
                s3
            }
        } else {
            s2
        }
    }

    /// Stage: caret movement.  Home/end jump and clear the selection; the
    /// select variants of left/right extend it (anchoring at the cursor if
    /// needed); plain left/right move by one boundary and clear it.
    pub open spec fn spec_after_caret(self, input: PointerState) -> TextInput {
        let s1 = if input.move_home {
            TextInput { cursor: 0usize, selection_anchor: None, ..self }
        } else {
            self
        };
        let s2 = if input.move_end {
            TextInput { cursor: s1.value@.len() as usize, selection_anchor: None, ..s1 }
        } else {
            s1
        };
        let s3 = if input.move_left_select {
            TextInput {
                selection_anchor: if s2.selection_anchor is None {
                    Some(s2.cursor)
                } else {
                    s2.selection_anchor
                },
                cursor: if s2.cursor > 0 {
                    (s2.cursor - 1) as usize
                } else {
                    0usize
                },
                ..s2
            }
        } else {
            s2
        };
        let s4 = if input.move_right_select {
            TextInput {
                selection_anchor: if s3.selection_anchor is None {
                    Some(s3.cursor)
                } else {
                    s3.selection_anchor
                },
                cursor: if (s3.cursor as int) < s3.value@.len() {
                    (s3.cursor + 1) as usize
                } else {
                    s3.cursor
                },
                ..s3
            }
        } else {
            s3
        };
        let s5 = if input.move_left {
            TextInput {
                cursor: if s4.cursor > 0 {
                    (s4.cursor - 1) as usize
                } else {
                    0usize
                },
                selection_anchor: None,
                ..s4
            }
        } else {
            s4
        };
        if input.move_right {
            TextInput {
                cursor: if (s5.cursor as int) < s5.value@.len() {
                    (s5.cursor + 1) as usize
                } else {
                    s5.cursor
                },
                selection_anchor: None,
                ..s5
            }
        } else {
            s5
        }
    }

    /// The cursor and anchor as an ordered non-empty character range.
    pub open spec fn spec_sel_of(c: int, a: Option<int>) -> Option<(int, int)> {
        match a {
            Some(anchor) => if anchor == c {
                None
            } else if anchor < c {
                Some((anchor, c))
            } else {
                Some((c, anchor))
            },
            None => None,
        }
    }

    /// The splice ends: the selection, or the collapsed cursor.
    pub open spec fn spec_range_of(c: int, a: Option<int>) -> (int, int) {
        match TextInput::spec_sel_of(c, a) {
            Some((lo, hi)) => (lo, hi),
            None => (c, c),
        }
    }

    /// One backspace over (text, cursor, anchor): deletes the selection, or
    /// the character before the cursor.
    pub open spec fn spec_bs_step(t: Seq<char>, c: int, a: Option<int>, on: bool)
        -> (Seq<char>, int, Option<int>) {
        if !on {
            (t, c, a)
        } else {
            match TextInput::spec_sel_of(c, a) {
                Some((lo, hi)) => (spec_splice(t, lo, hi, Seq::<char>::empty()), lo, None),
                None => if c > 0 {
                    (spec_splice(t, c - 1, c, Seq::<char>::empty()), c - 1, None)
                } else {
                    (t, c, a)
                },
            }
        }
    }

    /// Does a backspace delete (and so emit)?
    pub open spec fn spec_bs_emits(t: Seq<char>, c: int, a: Option<int>, on: bool) -> bool {
        on && (TextInput::spec_sel_of(c, a) is Some || c > 0)
    }

    /// One delete-forward over (text, cursor, anchor): deletes the
    /// selection, or the character after the cursor.
    pub open spec fn spec_del_step(t: Seq<char>, c: int, a: Option<int>, on: bool)
        -> (Seq<char>, int, Option<int>) {
        if !on {
            (t, c, a)
        } else {
            match TextInput::spec_sel_of(c, a) {
                Some((lo, hi)) => (spec_splice(t, lo, hi, Seq::<char>::empty()), lo, None),
                None => if c < t.len() {
                    (spec_splice(t, c, c + 1, Seq::<char>::empty()), c, None)
                } else {
                    (t, c, a)
                },
            }
        }
    }

    /// Does a delete-forward delete (and so emit)?
    pub open spec fn spec_del_emits(t: Seq<char>, c: int, a: Option<int>, on: bool) -> bool {
        on && (TextInput::spec_sel_of(c, a) is Some || c < t.len())
    }

    /// One replacement over (text, cursor, anchor): `ins` replaces the
    /// selection (or lands at the cursor) and the cursor moves past it.
    pub open spec fn spec_ins_step(t: Seq<char>, c: int, a: Option<int>, ins: Seq<char>)
        -> (Seq<char>, int, Option<int>) {
        let (lo, hi) = TextInput::spec_range_of(c, a);
        (spec_splice(t, lo, hi, ins), lo + ins.len(), None)
    }

    /// The selected text of (text, cursor, anchor).
    pub open spec fn spec_sel_text(t: Seq<char>, c: int, a: Option<int>) -> Seq<char> {
        t.subrange(TextInput::spec_range_of(c, a).0, TextInput::spec_range_of(c, a).1)
    }

    /// The three pointer/keyboard stages that precede editing.
    pub open spec fn spec_ui_stages(self, input: PointerState) -> TextInput {
        self.spec_after_select_all(input).spec_after_pointer(input).spec_after_caret(input)
    }

    /// The editing half of a frame over the field's model: the (text,
    /// cursor, anchor) triple after every edit stage, the clipboard after
    /// copy and cut, and the emitted value payloads, in order.
    pub open spec fn spec_frame_from(self, input: PointerState, clip0: Seq<char>)
        -> ((Seq<char>, int, Option<int>), Seq<char>, Seq<Seq<char>>) {
        let m0 = (self.value@, self.cursor as int, self.spec_anchor());
        let m1 = TextInput::spec_bs_step(m0.0, m0.1, m0.2, input.backspace);
        let m2 = TextInput::spec_del_step(m1.0, m1.1, m1.2, input.delete_forward);
        let m3 = match input.text_input {
            Some(t) => TextInput::spec_ins_step(m2.0, m2.1, m2.2, t@),
            None => m2,
        };
        let c1 = if input.copy && TextInput::spec_sel_of(m3.1, m3.2) is Some {
            TextInput::spec_sel_text(m3.0, m3.1, m3.2)
        } else {
            clip0
        };
        let m4 = if input.cut && TextInput::spec_sel_of(m3.1, m3.2) is Some {
            (spec_splice(m3.0, TextInput::spec_range_of(m3.1, m3.2).0,
                TextInput::spec_range_of(m3.1, m3.2).1, Seq::<char>::empty()),
                TextInput::spec_range_of(m3.1, m3.2).0, None::<int>)
        } else {
            m3
        };
        let c2 = if input.cut && TextInput::spec_sel_of(m3.1, m3.2) is Some {
            TextInput::spec_sel_text(m3.0, m3.1, m3.2)
        } else {
            c1
        };
        let m5 = if input.paste && c2.len() > 0 {
            TextInput::spec_ins_step(m4.0, m4.1, m4.2, c2)
        } else {
            m4
        };
        let e1: Seq<Seq<char>> = if TextInput::spec_bs_emits(m0.0, m0.1, m0.2, input.backspace) {
            seq![m1.0]
        } else {
            seq![]
        };
        let e2: Seq<Seq<char>> = if TextInput::spec_del_emits(m1.0, m1.1, m1.2,
            input.delete_forward) {
            seq![m2.0]
        } else {
            seq![]
        };
        let e3: Seq<Seq<char>> = if input.text_input is Some {
            seq![m3.0]
        } else {
            seq![]
        };
        let e4: Seq<Seq<char>> = if input.cut && TextInput::spec_sel_of(m3.1, m3.2) is Some {
            seq![m4.0]
        } else {
            seq![]
        };
        let e5: Seq<Seq<char>> = if input.paste && c2.len() > 0 {
            seq![m5.0]
        } else {
            seq![]
        };
        (m5, c2, e1 + e2 + e3 + e4 + e5)
    }

    /// The whole frame: the pointer/keyboard stages, then the edit stages.
    pub open spec fn spec_frame(self, input: PointerState, clip0: Seq<char>)
        -> ((Seq<char>, int, Option<int>), Seq<char>, Seq<Seq<char>>) {
        self.spec_ui_stages(input).spec_frame_from(input, clip0)
    }

    /// Replaces the value wholesale: a different text moves the cursor to
    /// its end and clears the selection; the same text only clamps the
    /// cursor into it.
    pub fn set_value(&mut self, value: String)
        requires
            old(self).wf(),
        ensures
            final(self).wf(),
            final(self).value@ == value@,
            *final(self) == (TextInput {
                value: final(self).value,
                cursor: if old(self).value@ != value@ || old(self).cursor > value@.len() {
                    value@.len() as usize
                } else {
                    old(self).cursor
                },
                selection_anchor: if old(self).value@ != value@ {
                    None
                } else {
                    old(self).selection_anchor
                },
                ..*old(self)
            }),
    {
        let same = self.value == value;
        let new_len = value.as_str().unicode_len();
        self.value = value;
        if !same {
            self.cursor = new_len;
            self.selection_anchor = None;
        } else if self.cursor > new_len {
            self.cursor = new_len;
        }
    }

    /// The value-change event for the current text.
    pub fn emit_changed(&self) -> (e: UiEvent)
        ensures
            is_value_changed(e, self.key@, self.value@),
    {
        UiEvent::ValueChanged { key: self.key, value: self.value.clone() }
    }

    /// The character boundary nearest to the abscissa `px`.
    fn boundary_from_x(&self, px: i64) -> (r: usize)
        requires
            self.wf(),
            crate::geometry::pos_ok(px as int),
        ensures
            r as int == self.spec_boundary_from_x(px as int),
            r <= self.value@.len(),
    {
        let len = self.value.as_str().unicode_len();
        let cw: i64 = self.style.char_width;
        let off_raw: i64 = px - (self.rect.x + self.style.padding_x);
        let pos: i64 = if off_raw < 0 {
            0
        } else {
            off_raw
        };
        let num: u128 = (2 * pos as i128 + cw as i128) as u128;
        let den: u128 = (2 * cw as i128) as u128;
        let nearest: u128 = num / den;
        proof {
            vstd::arithmetic::div_mod::lemma_div_pos_is_pos(num as int, den as int);
        }
        if nearest > len as u128 {
            len
        } else {
            nearest as usize
        }
    }

    /// `value` with the character range `[lo, hi)` replaced by `ins`.
    fn splice(value: &String, lo: usize, hi: usize, ins: &str) -> (r: String)
        requires
            lo <= hi <= value@.len() <= usize::MAX,
        ensures
            r@ == spec_splice(value@, lo as int, hi as int, ins@),
    {
        let len = value.as_str().unicode_len();
        let prefix = value.as_str().substring_char(0, lo);
        let suffix = value.as_str().substring_char(hi, len);
        let mut out = prefix.to_owned();
        out.append(ins);
        out.append(suffix);
        out
    }

    /// Deletes the selection, if one exists, collapsing the cursor to its
    /// start; reports whether anything was deleted.
    fn delete_selection_if_any(&mut self) -> (deleted: bool)
        requires
            old(self).wf(),
        ensures
            final(self).wf(),
            deleted == (old(self).spec_sel() is Some),
            *final(self) == (TextInput {
                value: final(self).value,
                cursor: TextInput::spec_range_of(old(self).cursor as int,
                    old(self).spec_anchor()).0 as usize,
                selection_anchor: if deleted {
                    None
                } else {
                    old(self).selection_anchor
                },
                ..*old(self)
            }),
            final(self).value@ == (if deleted {
                spec_splice(old(self).value@,
                    TextInput::spec_range_of(old(self).cursor as int, old(self).spec_anchor()).0,
                    TextInput::spec_range_of(old(self).cursor as int, old(self).spec_anchor()).1,
                    Seq::<char>::empty())
            } else {
                old(self).value@
            }),
    {
        let (lo, hi): (usize, usize) = match self.selection_anchor {
            Some(a) => {
                if a == self.cursor {
                    return false;
                } else if a < self.cursor {
                    (a, self.cursor)
                } else {
                    (self.cursor, a)
                }
            },
            None => {
                return false;
            },
        };
        self.value = TextInput::splice(&self.value, lo, hi, "");
        let shrunk_len = self.value.as_str().unicode_len();
        proof {
            assert(self.value@.len() == shrunk_len);
        }
        self.cursor = lo;
        self.selection_anchor = None;
        proof {
            reveal_strlit("");
            assert(self.value@ =~= spec_splice(old(self).value@, lo as int, hi as int,
                Seq::<char>::empty()));
        }
        true
    }

    /// Replaces the selection (or cursor position) with `ins`, placing the
    /// cursor after the inserted text and clearing the selection.
    fn replace_with(&mut self, ins: &str)
        requires
            old(self).wf(),
        ensures
            final(self).wf(),
            ({
                let stepped = TextInput::spec_ins_step(old(self).value@, old(self).cursor as int,
                    old(self).spec_anchor(), ins@);
                &&& final(self).value@ == stepped.0
                &&& final(self).cursor as int == stepped.1
                &&& *final(self) == (TextInput {
                    value: final(self).value,
                    cursor: final(self).cursor,
                    selection_anchor: None,
                    ..*old(self)
                })
            }),
    {
        let ghost s0 = *self;
        let _ = self.delete_selection_if_any();
        let lo = self.cursor;
        self.value = TextInput::splice(&self.value, lo, lo, ins);
        let new_len = self.value.as_str().unicode_len();
        let suffix_len: usize = {
            let ghost tail = s0.value@.len() - TextInput::spec_range_of(s0.cursor as int,
                s0.spec_anchor()).1;
            proof {
                assert(self.value@ =~= TextInput::spec_ins_step(s0.value@,
                    s0.cursor as int, s0.spec_anchor(), ins@).0);
                assert(new_len as int == lo + ins@.len() + tail);
            }
            new_len - lo - ins.unicode_len()
        };
        self.cursor = new_len - suffix_len;
        self.selection_anchor = None;
        proof {
            assert(self.value@ =~= TextInput::spec_ins_step(s0.value@, s0.cursor as int,
                s0.spec_anchor(), ins@).0);
        }
    }

    /// One frame of editing, while focused: select-all, pointer placement
    /// and dragging, caret movement, backspace, delete-forward, typed text,
    /// then the clipboard commands.  Every edit that changed the value emits
    /// it; copy and cut write the selection to the clipboard.
    #[verifier::rlimit(100)]
    #[verifier::spinoff_prover]
    pub fn draw(&mut self, input: &PointerState, clip: &mut Clipboard) -> (events: Vec<UiEvent>)
        requires
            old(self).wf(),
            input.wf(),
        ensures
            final(self).wf(),
            !old(self).focused ==> *final(self) == *old(self) && *final(clip) == *old(clip)
                && events@.len() == 0,
            old(self).focused ==> ({
                let s3 = old(self).spec_ui_stages(*input);
                let parts = old(self).spec_frame(*input, old(clip).text@);
                &&& final(self).value@ == parts.0.0
                &&& final(self).cursor as int == parts.0.1
                &&& final(self).spec_anchor() == parts.0.2
                &&& *final(self) == (TextInput {
                    value: final(self).value,
                    cursor: final(self).cursor,
                    selection_anchor: final(self).selection_anchor,
                    ..s3
                })
                &&& final(clip).text@ == parts.1
                &&& events@.len() == parts.2.len()
                &&& forall|i: int| 0 <= i < events@.len() ==> is_value_changed(
                    #[trigger] events@[i], old(self).key@, parts.2[i])
            }),
    {
        if !self.focused {
            return Vec::new();
        }
        self.select_all_stage(input);
        self.pointer_stage(input);
        self.caret_stage(input);
        self.edit_stages(input, clip)
    }

    /// The editing half of a frame: backspace, delete-forward, typed text,
    /// then the clipboard commands.
    #[verifier::rlimit(100)]
    #[verifier::spinoff_prover]
    fn edit_stages(&mut self, input: &PointerState, clip: &mut Clipboard)
        -> (events: Vec<UiEvent>)
        requires
            old(self).wf(),
            input.wf(),
        ensures
            final(self).wf(),
            ({
                let parts = old(self).spec_frame_from(*input, old(clip).text@);
                &&& final(self).value@ == parts.0.0
                &&& final(self).cursor as int == parts.0.1
                &&& final(self).spec_anchor() == parts.0.2
                &&& *final(self) == (TextInput {
                    value: final(self).value,
                    cursor: final(self).cursor,
                    selection_anchor: final(self).selection_anchor,
                    ..*old(self)
                })
                &&& final(clip).text@ == parts.1
                &&& events@.len() == parts.2.len()
                &&& forall|i: int| 0 <= i < events@.len() ==> is_value_changed(
                    #[trigger] events@[i], old(self).key@, parts.2[i])
            }),
    {
        let ghost s0 = *self;
        let ghost clip0 = clip.text@;
        let mut events: Vec<UiEvent> = Vec::new();
        if let Some(event) = self.backspace_stage(input) {
            events.push(event);
        }
        if let Some(event) = self.delete_stage(input) {
            events.push(event);
        }
        if let Some(event) = self.insert_stage(input) {
            events.push(event);
        }
        self.copy_stage(input, clip);
        if let Some(event) = self.cut_stage(input, clip) {
            events.push(event);
        }
        if let Some(event) = self.paste_stage(input, clip) {
            events.push(event);
        }
        proof {
            assert(events@.len() == s0.spec_frame_from(*input, clip0).2.len());
        }
        events
    }

    /// The select-all stage of a frame.
    fn select_all_stage(&mut self, input: &PointerState)
        requires
            old(self).wf(),
        ensures
            final(self).wf(),
            *final(self) == old(self).spec_after_select_all(*input),
    {
        if input.select_all {
            let len = self.value.as_str().unicode_len();
            self.selection_anchor = Some(0);
            self.cursor = len;
        }
    }

    /// The pointer stage of a frame: press places, drag moves, release ends.
    fn pointer_stage(&mut self, input: &PointerState)
        requires
            old(self).wf(),
            input.wf(),
        ensures
            final(self).wf(),
            *final(self) == old(self).spec_after_pointer(*input),
    {
        if input.just_pressed && self.rect.contains(input.x, input.y) {
            let b = self.boundary_from_x(input.x);
            self.cursor = b;
            self.selection_anchor = Some(b);
            self.dragging_selection = true;
        }
        if input.is_down && self.dragging_selection {
            self.cursor = self.boundary_from_x(input.x);
        }
        if input.just_released && self.dragging_selection {
            self.dragging_selection = false;
            let collapse = match self.selection_anchor {
                Some(a) => a == self.cursor,
                None => false,
            };
            if collapse {
                self.selection_anchor = None;
            }
        }
    }

    /// The caret stage of a frame.
    #[verifier::rlimit(100)]
    #[verifier::spinoff_prover]
    fn caret_stage(&mut self, input: &PointerState)
        requires
            old(self).wf(),
        ensures
            final(self).wf(),
            *final(self) == old(self).spec_after_caret(*input),
    {
        let len = self.value.as_str().unicode_len();
        if input.move_home {
            self.cursor = 0;
            self.selection_anchor = None;
        }
        if input.move_end {
            self.cursor = len;
            self.selection_anchor = None;
        }
        if input.move_left_select {
            if self.selection_anchor.is_none() {
                self.selection_anchor = Some(self.cursor);
            }
            if self.cursor > 0 {
                self.cursor = self.cursor - 1;
            }
        }
        if input.move_right_select {
            if self.selection_anchor.is_none() {
                self.selection_anchor = Some(self.cursor);
            }
            if self.cursor < len {
                self.cursor = self.cursor + 1;
            }
        }
        if input.move_left {
            if self.cursor > 0 {
                self.cursor = self.cursor - 1;
            }
            self.selection_anchor = None;
        }
        if input.move_right {
            if self.cursor < len {
                self.cursor = self.cursor + 1;
            }
            self.selection_anchor = None;
        }
    }

    /// The backspace stage of a frame.
    fn backspace_stage(&mut self, input: &PointerState) -> (r: Option<UiEvent>)
        requires
            old(self).wf(),
        ensures
            final(self).wf(),
            ({
                let stepped = TextInput::spec_bs_step(old(self).value@, old(self).cursor as int,
                    old(self).spec_anchor(), input.backspace);
                &&& final(self).value@ == stepped.0
                &&& final(self).cursor as int == stepped.1
                &&& final(self).spec_anchor() == stepped.2
                &&& *final(self) == (TextInput {
                    value: final(self).value,
                    cursor: final(self).cursor,
                    selection_anchor: final(self).selection_anchor,
                    ..*old(self)
                })
            }),
            (r is Some <==> TextInput::spec_bs_emits(old(self).value@, old(self).cursor as int,
                old(self).spec_anchor(), input.backspace)),
            (r matches Some(e) ==> is_value_changed(e, old(self).key@, final(self).value@)),
    {
        if !input.backspace {
            return None;
        }
        if self.delete_selection_if_any() {
            return Some(self.emit_changed());
        }
        if self.cursor > 0 {
            let start = self.cursor - 1;
            self.value = TextInput::splice(&self.value, start, self.cursor, "");
            let shrunk_len = self.value.as_str().unicode_len();
            proof {
                assert(self.value@.len() == shrunk_len);
            }
            self.cursor = start;
            self.selection_anchor = None;
            proof {
                reveal_strlit("");
                assert(self.value@ =~= TextInput::spec_bs_step(old(self).value@,
                    old(self).cursor as int, old(self).spec_anchor(), input.backspace).0);
            }
            return Some(self.emit_changed());
        }
        None
    }

    /// The delete-forward stage of a frame.
    fn delete_stage(&mut self, input: &PointerState) -> (r: Option<UiEvent>)
        requires
            old(self).wf(),
        ensures
            final(self).wf(),
            ({
                let stepped = TextInput::spec_del_step(old(self).value@, old(self).cursor as int,
                    old(self).spec_anchor(), input.delete_forward);
                &&& final(self).value@ == stepped.0
                &&& final(self).cursor as int == stepped.1
                &&& final(self).spec_anchor() == stepped.2
                &&& *final(self) == (TextInput {
                    value: final(self).value,
                    cursor: final(self).cursor,
                    selection_anchor: final(self).selection_anchor,
                    ..*old(self)
                })
            }),
            (r is Some <==> TextInput::spec_del_emits(old(self).value@, old(self).cursor as int,
                old(self).spec_anchor(), input.delete_forward)),
            (r matches Some(e) ==> is_value_changed(e, old(self).key@, final(self).value@)),
    {
        if !input.delete_forward {
            return None;
        }
        if self.delete_selection_if_any() {
            return Some(self.emit_changed());
        }
        let len = self.value.as_str().unicode_len();
        if self.cursor < len {
            let end = self.cursor + 1;
            self.value = TextInput::splice(&self.value, self.cursor, end, "");
            let shrunk_len = self.value.as_str().unicode_len();
            proof {
                assert(self.value@.len() == shrunk_len);
            }
            proof {
                reveal_strlit("");
                assert(self.value@ =~= TextInput::spec_del_step(old(self).value@,
                    old(self).cursor as int, old(self).spec_anchor(), input.delete_forward).0);
                assert(self.value@.len() + 1 == old(self).value@.len());
            }
            self.selection_anchor = None;
            return Some(self.emit_changed());
        }
        None
    }

    /// The typed-text stage of a frame.
    fn insert_stage(&mut self, input: &PointerState) -> (r: Option<UiEvent>)
        requires
            old(self).wf(),
        ensures
            final(self).wf(),
            (match input.text_input {
                Some(t) => {
                    let stepped = TextInput::spec_ins_step(old(self).value@,
                        old(self).cursor as int, old(self).spec_anchor(), t@);
                    &&& final(self).value@ == stepped.0
                    &&& final(self).cursor as int == stepped.1
                    &&& *final(self) == (TextInput {
                        value: final(self).value,
                        cursor: final(self).cursor,
                        selection_anchor: None,
                        ..*old(self)
                    })
                    &&& (r matches Some(e) && is_value_changed(
                        e, old(self).key@, final(self).value@))
                },
                None => *final(self) == *old(self) && r is None,
            }),
    {
        match &input.text_input {
            Some(text) => {
                self.replace_with(text.as_str());
                Some(self.emit_changed())
            },
            None => None,
        }
    }

    /// The copy stage of a frame: a selection goes to the clipboard.
    fn copy_stage(&mut self, input: &PointerState, clip: &mut Clipboard)
        requires
            old(self).wf(),
        ensures
            final(self).wf(),
            *final(self) == *old(self),
            final(clip).text@ == (if input.copy && old(self).spec_sel() is Some {
                TextInput::spec_sel_text(old(self).value@, old(self).cursor as int,
                    old(self).spec_anchor())
            } else {
                old(clip).text@
            }),
    {
        if !input.copy {
            return ;
        }
        let (lo, hi): (usize, usize) = match self.selection_anchor {
            Some(a) => {
                if a == self.cursor {
                    return ;
                } else if a < self.cursor {
                    (a, self.cursor)
                } else {
                    (self.cursor, a)
                }
            },
            None => {
                return ;
            },
        };
        let len = self.value.as_str().unicode_len();
        let copied = self.value.as_str().substring_char(lo, hi);
        clip.set_text(copied);
    }

    /// The cut stage of a frame: the selection goes to the clipboard and is
    /// deleted; emits iff something was cut.
    fn cut_stage(&mut self, input: &PointerState, clip: &mut Clipboard) -> (r: Option<UiEvent>)
        requires
            old(self).wf(),
        ensures
            final(self).wf(),
            (r is Some <==> input.cut && old(self).spec_sel() is Some),
            input.cut && old(self).spec_sel() is Some ==> {
                &&& final(clip).text@ == TextInput::spec_sel_text(old(self).value@,
                    old(self).cursor as int, old(self).spec_anchor())
                &&& final(self).value@ == spec_splice(old(self).value@,
                    TextInput::spec_range_of(old(self).cursor as int, old(self).spec_anchor()).0,
                    TextInput::spec_range_of(old(self).cursor as int, old(self).spec_anchor()).1,
                    Seq::<char>::empty())
                &&& *final(self) == (TextInput {
                    value: final(self).value,
                    cursor: TextInput::spec_range_of(old(self).cursor as int,
                        old(self).spec_anchor()).0 as usize,
                    selection_anchor: None,
                    ..*old(self)
                })
                &&& (r matches Some(e) ==> is_value_changed(
                    e, old(self).key@, final(self).value@))
            },
            !(input.cut && old(self).spec_sel() is Some) ==> *final(self) == *old(self)
                && *final(clip) == *old(clip),
    {
        if !input.cut {
            return None;
        }
        let (lo, hi): (usize, usize) = match self.selection_anchor {
            Some(a) => {
                if a == self.cursor {
                    return None;
                } else if a < self.cursor {
                    (a, self.cursor)
                } else {
                    (self.cursor, a)
                }
            },
            None => {
                return None;
            },
        };
        let len = self.value.as_str().unicode_len();
        let cut_text = self.value.as_str().substring_char(lo, hi);
        clip.set_text(cut_text);
        let _ = self.delete_selection_if_any();
        Some(self.emit_changed())
    }

    /// The paste stage of a frame: a non-empty clipboard replaces the
    /// selection; emits iff something was pasted.
    fn paste_stage(&mut self, input: &PointerState, clip: &mut Clipboard) -> (r: Option<UiEvent>)
        requires
            old(self).wf(),
        ensures
            final(self).wf(),
            *final(clip) == *old(clip),
            (r is Some <==> input.paste && old(clip).text@.len() > 0),
            input.paste && old(clip).text@.len() > 0 ==> {
                let stepped = TextInput::spec_ins_step(old(self).value@, old(self).cursor as int,
                    old(self).spec_anchor(), old(clip).text@);
                &&& final(self).value@ == stepped.0
                &&& final(self).cursor as int == stepped.1
                &&& *final(self) == (TextInput {
                    value: final(self).value,
                    cursor: final(self).cursor,
                    selection_anchor: None,
                    ..*old(self)
                })
                &&& (r matches Some(e) ==> is_value_changed(
                    e, old(self).key@, final(self).value@))
            },
            !(input.paste && old(clip).text@.len() > 0) ==> *final(self) == *old(self),
    {
        if !input.paste {
            return None;
        }
        if clip.get_text().is_empty() {
            return None;
        }
        let pasted = clip.get_text().to_owned();
        self.replace_with(pasted.as_str());
        Some(self.emit_changed())
    }

    pub fn focusable(&self) -> (r: bool)
        ensures
            r,
    {
        true
    }

    /// Losing focus clears the selection and cancels a drag.
    pub fn set_focused(&mut self, focused: bool)
        ensures
            *final(self) == (TextInput {
                focused,
                selection_anchor: if focused {
                    old(self).selection_anchor
                } else {
                    None
                },
                dragging_selection: old(self).dragging_selection && focused,
                ..*old(self)
            }),
    {
        self.focused = focused;
        if !focused {
            self.selection_anchor = None;
            self.dragging_selection = false;
        }
    }
}

} // verus!
