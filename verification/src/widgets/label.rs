use vstd::prelude::*;

use crate::events::UiEvent;
use crate::geometry::Rect;
use crate::input::PointerState;

verus! {

/// Static centred text; never reacts to input and never emits.
pub struct Label {
    pub rect: Rect,
    pub text: String,
    pub style: LabelStyle,
}

pub struct LabelStyle {
    pub font: &'static str,
    pub color: &'static str,
}

impl Label {
    pub open spec fn wf(self) -> bool {
        self.rect.wf()
    }

    pub fn set_text(&mut self, text: String)
        ensures
            *final(self) == (Label { text: final(self).text, ..*old(self) }),
            final(self).text == text,
    {
        self.text = text;
    }

    /// One frame: a label holds no interactive state and emits nothing.
    pub fn draw(&mut self, _input: &PointerState) -> (events: Vec<UiEvent>)
        ensures
            *final(self) == *old(self),
            events@.len() == 0,
    {
        Vec::new()
    }
}

} // verus!
