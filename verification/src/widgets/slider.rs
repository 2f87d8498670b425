use vstd::prelude::*;

use crate::events::{is_value_changed, UiEvent};
use crate::geometry::Rect;
use crate::input::PointerState;
use crate::numfmt::{hundredths_string, spec_hundredths_str};

verus! {

/// The largest magnitude a slider bound or step may take, in hundredths.
pub const SLIDER_VAL_LIMIT: i64 = 0x100_0000;

/// The horizontal inset of the track from the control's edges.
pub const SLIDER_TRACK_INSET: i64 = 10;

/// A linear slider over a numeric range.  Values are counted in hundredths
/// of the displayed unit.  Dragging maps the pointer's position linearly
/// onto the range; keyboard steps nudge by one step (page steps by ten);
/// every value is snapped to the nearest step offset from the minimum and
/// clamped into the range.  Every actual change emits one value-change
/// event carrying the value with two decimal places.
pub struct Slider {
    pub key: &'static str,
    pub rect: Rect,
    pub value: i64,
    pub min: i64,
    pub max: i64,
    pub step: i64,
    pub label: &'static str,
    pub focused: bool,
    pub dragging: bool,
    pub style: SliderStyle,
}

pub struct SliderStyle {
    pub fill: &'static str,
    pub border: &'static str,
    pub focus_border: &'static str,
    pub text: &'static str,
    pub track_bg: &'static str,
    pub track_fill: &'static str,
    pub knob_fill: &'static str,
    pub font: &'static str,
}

impl Default for SliderStyle {
    fn default() -> (r: Self)
        ensures
            r.fill@ == "#111827"@,
            r.border@ == "#2a3350"@,
            r.focus_border@ == "#27ffd8"@,
            r.text@ == "#d8e3ff"@,
            r.track_bg@ == "#1c2742"@,
            r.track_fill@ == "#27ffd8"@,
            r.knob_fill@ == "#f8fafc"@,
            r.font@ == "600 14px Consolas"@,
    {
        SliderStyle {
            fill: "#111827",
            border: "#2a3350",
            focus_border: "#27ffd8",
            text: "#d8e3ff",
            track_bg: "#1c2742",
            track_fill: "#27ffd8",
            knob_fill: "#f8fafc",
            font: "600 14px Consolas",
        }
    }
}

/// Division rounding to the nearest integer, halves away from zero, as the
/// snapping rule rounds a value to its nearest step multiple.
pub open spec fn spec_round_div(a: int, b: int) -> int {
    if a >= 0 {
        (2 * a + b) / (2 * b)
    } else {
        -((2 * (-a) + b) / (2 * b))
    }
}

fn round_div(a: i128, b: i128) -> (r: i128)
    requires
        0 < b <= 0x1_0000_0000,
        -0x1_0000_0000_0000_0000 <= a <= 0x1_0000_0000_0000_0000,
    ensures
        r as int == spec_round_div(a as int, b as int),
{
    if a >= 0 {
        let num: u128 = (2 * a + b) as u128;
        let den: u128 = (2 * b) as u128;
        (num / den) as i128
    } else {
        let num: u128 = (2 * (-a) + b) as u128;
        let den: u128 = (2 * b) as u128;
        -((num / den) as i128)
    }
}

impl Slider {
    /// The lower end of the range, whichever order min and max were given in.
    pub open spec fn spec_range_min(self) -> int {
        if self.min <= self.max {
            self.min as int
        } else {
            self.max as int
        }
    }

    /// The upper end of the range.
    pub open spec fn spec_range_max(self) -> int {
        if self.min <= self.max {
            self.max as int
        } else {
            self.min as int
        }
    }

    /// The effective step: its magnitude, and at least one hundredth.
    pub open spec fn spec_step_size(self) -> int {
        let a = if self.step < 0 {
            -self.step as int
        } else {
            self.step as int
        };
        if a < 1 {
            1
        } else {
            a
        }
    }

    /// Bounds and step are in range and the value lies within the range.
    pub open spec fn wf(self) -> bool {
        &&& self.rect.wf()
        &&& -SLIDER_VAL_LIMIT <= self.min <= SLIDER_VAL_LIMIT
        &&& -SLIDER_VAL_LIMIT <= self.max <= SLIDER_VAL_LIMIT
        &&& -SLIDER_VAL_LIMIT <= self.step <= SLIDER_VAL_LIMIT
        &&& self.spec_range_min() <= self.value <= self.spec_range_max()
    }

    /// Snap to the nearest step multiple offset from the range minimum, then
    /// clamp into the range.
    pub open spec fn spec_snap(self, v: int) -> int {
        let lo = self.spec_range_min();
        let hi = self.spec_range_max();
        let st = self.spec_step_size();
        let snapped = lo + st * spec_round_div(v - lo, st);
        if snapped < lo {
            lo
        } else if snapped > hi {
            hi
        } else {
            snapped
        }
    }

    /// The track's start and end abscissae, inset from the control's edges.
    pub open spec fn spec_track_bounds(self) -> (int, int) {
        let start = self.rect.x + SLIDER_TRACK_INSET;
        let end = self.rect.x + self.rect.width - SLIDER_TRACK_INSET;
        (start, if end < start {
            start
        } else {
            end
        })
    }

    /// The raw (pre-snap) value the pointer's abscissa maps to: its offset
    /// along the track, clamped into it, scaled linearly onto the range.
    pub open spec fn spec_pointer_value(self, px: int) -> int {
        let (start, end) = self.spec_track_bounds();
        let tw = if end - start < 1 {
            1
        } else {
            end - start
        };
        let dx = if px - start < 0 {
            0
        } else if px - start > tw {
            tw
        } else {
            px - start
        };
        self.min + (self.max - self.min) * dx / tw
    }

    /// Snaps and clamps, then stores the value.
    pub fn set_value(&mut self, value: i64)
        requires
            old(self).wf(),
        ensures
            *final(self) == (Slider { value: old(self).spec_snap(value as int) as i64,
                ..*old(self) }),
            final(self).wf(),
    {
        self.value = self.clamp_and_snap(value);
    }

    /// Snap to the nearest step multiple offset from the minimum, clamped.
    pub fn clamp_and_snap(&self, value: i64) -> (r: i64)
        requires
            self.wf(),
        ensures
            r as int == self.spec_snap(value as int),
            self.spec_range_min() <= r as int <= self.spec_range_max(),
    {
        let lo: i64 = if self.min <= self.max {
            self.min
        } else {
            self.max
        };
        let hi: i64 = if self.min <= self.max {
            self.max
        } else {
            self.min
        };
        let st: i64 = {
            let a = if self.step < 0 {
                -self.step
            } else {
                self.step
            };
            if a < 1 {
                1
            } else {
                a
            }
        };
        let q: i128 = round_div(value as i128 - lo as i128, st as i128);
        proof {
            let a = value as int - lo as int;
            let b = st as int;
            if a >= 0 {
                vstd::arithmetic::div_mod::lemma_fundamental_div_mod(2 * a + b, 2 * b);
                vstd::arithmetic::div_mod::lemma_mod_bound(2 * a + b, 2 * b);
                vstd::arithmetic::div_mod::lemma_div_pos_is_pos(2 * a + b, 2 * b);
                assert(spec_round_div(a, b) * b <= a + b) by (nonlinear_arith)
                    requires
                        b > 0,
                        a >= 0,
                        spec_round_div(a, b) == (2 * a + b) / (2 * b),
                        (2 * a + b) == (2 * b) * ((2 * a + b) / (2 * b)) + ((2 * a + b) % (2 * b)),
                        0 <= (2 * a + b) % (2 * b) < 2 * b,
                {
                }
            } else {
                vstd::arithmetic::div_mod::lemma_fundamental_div_mod(2 * (-a) + b, 2 * b);
                vstd::arithmetic::div_mod::lemma_mod_bound(2 * (-a) + b, 2 * b);
                vstd::arithmetic::div_mod::lemma_div_pos_is_pos(2 * (-a) + b, 2 * b);
                assert((-spec_round_div(a, b)) * b <= (-a) + b) by (nonlinear_arith)
                    requires
                        b > 0,
                        a < 0,
                        -spec_round_div(a, b) == (2 * (-a) + b) / (2 * b),
                        (2 * (-a) + b) == (2 * b) * ((2 * (-a) + b) / (2 * b)) + ((2 * (-a) + b) % (
                        2 * b)),
                        0 <= (2 * (-a) + b) % (2 * b) < 2 * b,
                {
                }
            }
        }
        proof {
            let a = value as int - lo as int;
            let b = st as int;
            if a >= 0 {
                vstd::arithmetic::div_mod::lemma_div_nonincreasing(2 * a + b, 2 * b);
            } else {
                vstd::arithmetic::div_mod::lemma_div_nonincreasing(2 * (-a) + b, 2 * b);
            }
            assert(-(0x80_0000_0000_0000_0000_0000_0000int) <= (st as int) * (q as int)
                <= 0x80_0000_0000_0000_0000_0000_0000int) by (nonlinear_arith)
                requires
                    -(0x4_0000_0000_0000_0000int) <= q as int <= 0x4_0000_0000_0000_0000int,
                    0 < st as int <= 0x1_0000_0000int;
        }
        let snapped: i128 = lo as i128 + st as i128 * q;
        let clamped: i128 = if snapped < lo as i128 {
            lo as i128
        } else if snapped > hi as i128 {
            hi as i128
        } else {
            snapped
        };
        clamped as i64
    }

    /// The raw value under the pointer's abscissa.
    fn value_from_pointer_x(&self, x: i64) -> (r: i64)
        requires
            self.wf(),
            crate::geometry::pos_ok(x as int),
        ensures
            r as int == self.spec_pointer_value(x as int),
    {
        let start: i64 = self.rect.x + SLIDER_TRACK_INSET;
        let end_raw: i64 = self.rect.x + self.rect.width - SLIDER_TRACK_INSET;
        let end: i64 = if end_raw < start {
            start
        } else {
            end_raw
        };
        let tw: i64 = if end - start < 1 {
            1
        } else {
            end - start
        };
        let dx: i64 = if x - start < 0 {
            0
        } else if x - start > tw {
            tw
        } else {
            x - start
        };
        proof {
            let span = self.max as int - self.min as int;
            assert(-(0x2_0000_0000_0000int) <= span * (dx as int) <= 0x2_0000_0000_0000int)
                by (nonlinear_arith)
                requires
                    -0x200_0000 <= span <= 0x200_0000,
                    0 <= dx <= 0x100_0000;
        }
        let num: i128 = (self.max as i128 - self.min as i128) * dx as i128;
        let scaled: i128 = crate::geometry::div_floor(num, tw as i128);
        proof {
            let span = self.max as int - self.min as int;
            vstd::arithmetic::div_mod::lemma_fundamental_div_mod(num as int, tw as int);
            vstd::arithmetic::div_mod::lemma_mod_bound(num as int, tw as int);
            assert(-(0x200_0000int) <= scaled as int <= 0x200_0000) by (nonlinear_arith)
                requires
                    scaled as int == (num as int) / (tw as int),
                    num as int == span * dx as int,
                    -0x200_0000 <= span <= 0x200_0000,
                    0 <= dx <= tw,
                    tw >= 1,
                    num as int == (tw as int) * ((num as int) / (tw as int)) + (num as int) % (
                    tw as int),
                    0 <= (num as int) % (tw as int) < tw as int;
        }
        self.min + scaled as i64
    }

    /// The value-change event for the current value, with two decimals.
    pub fn emit_changed(&self) -> (e: UiEvent)
        requires
            self.value > i64::MIN,
        ensures
            is_value_changed(e, self.key@, spec_hundredths_str(self.value as int)),
    {
        UiEvent::ValueChanged { key: self.key, value: hundredths_string(self.value) }
    }

    /// Where a keyboard signal moves the value: one step left/down or
    /// right/up, ten steps for page moves, the range ends for home/end.
    pub open spec fn spec_key_target(self, input: PointerState) -> Option<int> {
        let st = self.spec_step_size();
        if input.move_left || input.move_down {
            Some(self.spec_snap(self.value - st))
        } else if input.move_right || input.move_up {
            Some(self.spec_snap(self.value + st))
        } else if input.move_page_down {
            Some(self.spec_snap(self.value - 10 * st))
        } else if input.move_page_up {
            Some(self.spec_snap(self.value + 10 * st))
        } else if input.move_home {
            Some(self.spec_snap(self.min as int))
        } else if input.move_end {
            Some(self.spec_snap(self.max as int))
        } else {
            None
        }
    }

    /// The state after the keyboard stage of a frame.
    pub open spec fn spec_after_key(self, input: PointerState) -> Slider {
        if self.focused {
            match self.spec_key_target(input) {
                Some(t) => Slider { value: t as i64, ..self },
                None => self,
            }
        } else {
            self
        }
    }

    /// Does the keyboard stage emit?
    pub open spec fn spec_key_emits(self, input: PointerState) -> bool {
        self.focused && match self.spec_key_target(input) {
            Some(t) => t != self.value,
            None => false,
        }
    }

    /// A press inside the control starts a drag; does this frame press?
    pub open spec fn spec_pressed(self, input: PointerState) -> bool {
        input.just_pressed && self.rect.spec_contains(input.x as int, input.y as int)
    }

    /// The state after the press stage of a frame.
    pub open spec fn spec_after_press(self, input: PointerState) -> Slider {
        if self.spec_pressed(input) {
            Slider { dragging: true, value: self.spec_snap(self.spec_pointer_value(
                input.x as int)) as i64, ..self }
        } else {
            self
        }
    }

    /// Does the press stage emit?
    pub open spec fn spec_press_emits(self, input: PointerState) -> bool {
        self.spec_pressed(input) && self.spec_snap(self.spec_pointer_value(input.x as int))
            != self.value
    }

    /// The state after the drag stage of a frame.
    pub open spec fn spec_after_drag(self, input: PointerState) -> Slider {
        if self.dragging && input.is_down {
            Slider { value: self.spec_snap(self.spec_pointer_value(input.x as int)) as i64,
                ..self }
        } else {
            self
        }
    }

    /// Does the drag stage emit?
    pub open spec fn spec_drag_emits(self, input: PointerState) -> bool {
        self.dragging && input.is_down && self.spec_snap(self.spec_pointer_value(input.x as int))
            != self.value
    }

    /// The state after the release stage of a frame.
    pub open spec fn spec_after_release(self, input: PointerState) -> Slider {
        if input.just_released || input.cancel {
            Slider { dragging: false, ..self }
        } else {
            self
        }
    }

    /// The whole frame: keyboard, press, drag, then release.
    pub open spec fn spec_frame(self, input: PointerState) -> Slider {
        self.spec_after_key(input).spec_after_press(input).spec_after_drag(
            input).spec_after_release(input)
    }

    /// The value payloads the frame emits, in order.
    pub open spec fn spec_frame_payloads(self, input: PointerState) -> Seq<Seq<char>> {
        let s1 = self.spec_after_key(input);
        let s2 = s1.spec_after_press(input);
        let s3 = s2.spec_after_drag(input);
        let e1: Seq<Seq<char>> = if self.spec_key_emits(input) {
            seq![spec_hundredths_str(s1.value as int)]
        } else {
            seq![]
        };
        let e2: Seq<Seq<char>> = if s1.spec_press_emits(input) {
            seq![spec_hundredths_str(s2.value as int)]
        } else {
            seq![]
        };
        let e3: Seq<Seq<char>> = if s2.spec_drag_emits(input) {
            seq![spec_hundredths_str(s3.value as int)]
        } else {
            seq![]
        };
        e1 + e2 + e3
    }

    /// Nudges the value by `delta` (snapped and clamped); emits iff changed.
    fn apply_delta(&mut self, delta: i64) -> (r: Option<UiEvent>)
        requires
            old(self).wf(),
            -0x2000_0000 <= delta <= 0x2000_0000,
        ensures
            final(self).wf(),
            *final(self) == (Slider { value: old(self).spec_snap(old(self).value + delta) as i64,
                ..*old(self) }),
            (r is Some <==> old(self).spec_snap(old(self).value + delta) != old(self).value),
            (r matches Some(e) ==> is_value_changed(
                e, old(self).key@, spec_hundredths_str(final(self).value as int))),
    {
        let next = self.clamp_and_snap(self.value + delta);
        if next != self.value {
            self.value = next;
            return Some(self.emit_changed());
        }
        None
    }

    /// Re-derives the value from the pointer's abscissa; emits iff changed.
    fn apply_pointer_value(&mut self, x: i64) -> (r: Option<UiEvent>)
        requires
            old(self).wf(),
            crate::geometry::pos_ok(x as int),
        ensures
            final(self).wf(),
            *final(self) == (Slider {
                value: old(self).spec_snap(old(self).spec_pointer_value(x as int)) as i64,
                ..*old(self)
            }),
            (r is Some <==> old(self).spec_snap(old(self).spec_pointer_value(x as int))
                != old(self).value),
            (r matches Some(e) ==> is_value_changed(
                e, old(self).key@, spec_hundredths_str(final(self).value as int))),
    {
        let raw = self.value_from_pointer_x(x);
        let next = self.clamp_and_snap(raw);
        if next != self.value {
            self.value = next;
            return Some(self.emit_changed());
        }
        None
    }

    /// The keyboard stage of a frame.
    fn key_stage(&mut self, input: &PointerState) -> (r: Option<UiEvent>)
        requires
            old(self).wf(),
            input.wf(),
        ensures
            final(self).wf(),
            *final(self) == old(self).spec_after_key(*input),
            (r is Some <==> old(self).spec_key_emits(*input)),
            (r matches Some(e) ==> is_value_changed(
                e, old(self).key@, spec_hundredths_str(final(self).value as int))),
    {
        if !self.focused {
            return None;
        }
        let st: i64 = {
            let a = if self.step < 0 {
                -self.step
            } else {
                self.step
            };
            if a < 1 {
                1
            } else {
                a
            }
        };
        if input.move_left || input.move_down {
            self.apply_delta(-st)
        } else if input.move_right || input.move_up {
            self.apply_delta(st)
        } else if input.move_page_down {
            self.apply_delta(-(10 * st))
        } else if input.move_page_up {
            self.apply_delta(10 * st)
        } else if input.move_home {
            let next = self.clamp_and_snap(self.min);
            if next != self.value {
                self.value = next;
                Some(self.emit_changed())
            } else {
                None
            }
        } else if input.move_end {
            let next = self.clamp_and_snap(self.max);
            if next != self.value {
                self.value = next;
                Some(self.emit_changed())
            } else {
                None
            }
        } else {
            None
        }
    }

    /// One frame: keyboard nudges while focused, then press, drag and
    /// release; each actual value change emits it with two decimals.
    pub fn draw(&mut self, input: &PointerState) -> (events: Vec<UiEvent>)
        requires
            old(self).wf(),
            input.wf(),
        ensures
            final(self).wf(),
            *final(self) == old(self).spec_frame(*input),
            events@.len() == old(self).spec_frame_payloads(*input).len(),
            forall|i: int| 0 <= i < events@.len() ==> is_value_changed(
                #[trigger] events@[i], old(self).key@,
                old(self).spec_frame_payloads(*input)[i]),
    {
        let ghost s0 = *self;
        let mut events: Vec<UiEvent> = Vec::new();
        if let Some(event) = self.key_stage(input) {
            events.push(event);
        }
        if let Some(event) = self.press_stage(input) {
            events.push(event);
        }
        if let Some(event) = self.drag_stage(input) {
            events.push(event);
        }
        if input.just_released || input.cancel {
            self.dragging = false;
        }
        proof {
            assert(events@.len() == s0.spec_frame_payloads(*input).len());
        }
        events
    }

    /// The press stage of a frame: a press inside the control starts a drag
    /// and derives the value from the pointer.
    fn press_stage(&mut self, input: &PointerState) -> (r: Option<UiEvent>)
        requires
            old(self).wf(),
            input.wf(),
        ensures
            final(self).wf(),
            *final(self) == old(self).spec_after_press(*input),
            (r is Some <==> old(self).spec_press_emits(*input)),
            (r matches Some(e) ==> is_value_changed(
                e, old(self).key@, spec_hundredths_str(final(self).value as int))),
    {
        if input.just_pressed && self.rect.contains(input.x, input.y) {
            self.dragging = true;
            self.apply_pointer_value(input.x)
        } else {
            None
        }
    }

    /// The drag stage of a frame: while dragging with the button held, the
    /// value keeps following the pointer.
    fn drag_stage(&mut self, input: &PointerState) -> (r: Option<UiEvent>)
        requires
            old(self).wf(),
            input.wf(),
        ensures
            final(self).wf(),
            *final(self) == old(self).spec_after_drag(*input),
            (r is Some <==> old(self).spec_drag_emits(*input)),
            (r matches Some(e) ==> is_value_changed(
                e, old(self).key@, spec_hundredths_str(final(self).value as int))),
    {
        if self.dragging && input.is_down {
            self.apply_pointer_value(input.x)
        } else {
            None
        }
    }

    pub fn focusable(&self) -> (r: bool)
        ensures
            r,
    {
        true
    }

    pub fn set_focused(&mut self, focused: bool)
        ensures
            *final(self) == (Slider { focused, dragging: final(self).dragging, ..*old(self) }),
            final(self).dragging == (old(self).dragging && focused),
    {
        self.focused = focused;
        if !focused {
            self.dragging = false;
        }
    }
}

} // verus!
