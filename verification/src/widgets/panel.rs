use vstd::prelude::*;

use crate::geometry::Rect;
use crate::geometry::spec_padd;
use crate::tree::{EdgeInsets, UiTree};

verus! {

/// A framed box that owns a nested composition tree as its single child;
/// each frame it insets its own rect by its padding, hands the result to
/// the child tree and bubbles the child's events.
pub struct Panel {
    pub rect: Rect,
    pub style: PanelStyle,
    pub padding: EdgeInsets,
    pub child: UiTree,
}

pub struct PanelStyle {
    pub fill: &'static str,
    pub border: &'static str,
    pub border_width: i64,
}

impl Panel {
    /// The area the child tree gets: the panel's rect inset by its padding,
    /// with negative sizes clamped to zero.
    pub open spec fn spec_child_area(self) -> Rect {
        Rect {
            x: spec_padd(self.rect.x as int, self.padding.left as int) as i64,
            y: spec_padd(self.rect.y as int, self.padding.top as int) as i64,
            width: (if self.rect.width - self.padding.left - self.padding.right > 0 {
                self.rect.width - self.padding.left - self.padding.right
            } else {
                0
            }) as i64,
            height: (if self.rect.height - self.padding.top - self.padding.bottom > 0 {
                self.rect.height - self.padding.top - self.padding.bottom
            } else {
                0
            }) as i64,
        }
    }

    /// The nested tree, for building and targeted mutation.
    pub fn child_mut(&mut self) -> (r: &mut UiTree)
        ensures
            *r == old(self).child,
            *final(self) == (Panel { child: *final(r), ..*old(self) }),
    {
        &mut self.child
    }
}

} // verus!
