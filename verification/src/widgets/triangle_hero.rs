use vstd::prelude::*;

use crate::events::UiEvent;
use crate::geometry::Rect;
use crate::input::PointerState;

verus! {

/// A static decorative triangle filled with one colour.
pub struct TriangleHero {
    pub rect: Rect,
    pub color: &'static str,
}

impl TriangleHero {
    pub open spec fn wf(self) -> bool {
        self.rect.wf()
    }

    pub fn set_color(&mut self, color: &'static str)
        ensures
            *final(self) == (TriangleHero { color, ..*old(self) }),
    {
        self.color = color;
    }

    /// One frame: the hero shape holds no interactive state and emits nothing.
    pub fn draw(&mut self, _input: &PointerState) -> (events: Vec<UiEvent>)
        ensures
            *final(self) == *old(self),
            events@.len() == 0,
    {
        Vec::new()
    }
}

} // verus!
