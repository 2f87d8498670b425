use vstd::prelude::*;

use crate::events::UiEvent;
use crate::geometry::Rect;
use crate::input::PointerState;

verus! {

/// A plain filled (and optionally bordered) box; purely decorative.
pub struct Container {
    pub rect: Rect,
    pub style: ContainerStyle,
}

pub struct ContainerStyle {
    pub fill: &'static str,
    pub border: &'static str,
    pub border_width: i64,
}

impl Container {
    pub open spec fn wf(self) -> bool {
        self.rect.wf()
    }

    /// One frame: a container holds no interactive state and emits nothing.
    pub fn draw(&mut self, _input: &PointerState) -> (events: Vec<UiEvent>)
        ensures
            *final(self) == *old(self),
            events@.len() == 0,
    {
        Vec::new()
    }
}

} // verus!
