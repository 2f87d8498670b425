use vstd::prelude::*;

use crate::geometry::{size_ok, spec_padd, Rect};
use crate::tree::UiTree;

verus! {

/// A labelled field wrapping a nested composition tree, with helper or
/// error text below it.  While the field itself is not focused, keyboard
/// signals are withheld from the nested tree, so descendants cannot react
/// to input aimed elsewhere.
pub struct FormField {
    pub rect: Rect,
    pub label: String,
    pub helper_text: String,
    pub error_text: String,
    pub has_error: bool,
    pub child: UiTree,
    pub focused: bool,
    pub style: FormFieldStyle,
}

pub struct FormFieldStyle {
    pub label_font: &'static str,
    pub helper_font: &'static str,
    pub label_color: &'static str,
    pub helper_color: &'static str,
    pub error_color: &'static str,
    pub border: &'static str,
    pub focus_border: &'static str,
    pub field_fill: &'static str,
    pub label_height: i64,
    pub helper_height: i64,
    pub spacing: i64,
    pub padding: i64,
}

impl FormFieldStyle {
    pub open spec fn wf(self) -> bool {
        &&& size_ok(self.label_height as int)
        &&& size_ok(self.helper_height as int)
        &&& size_ok(self.spacing as int)
        &&& size_ok(self.padding as int)
    }
}

impl Default for FormFieldStyle {
    fn default() -> (r: Self)
        ensures
            r.label_font@ == "600 14px Consolas"@,
            r.helper_font@ == "13px Consolas"@,
            r.label_color@ == "#d8e3ff"@,
            r.helper_color@ == "#91a4d6"@,
            r.error_color@ == "#ff7a7a"@,
            r.border@ == "#2a3350"@,
            r.focus_border@ == "#27ffd8"@,
            r.field_fill@ == "#0d1324"@,
            r.label_height == 18,
            r.helper_height == 16,
            r.spacing == 6,
            r.padding == 10,
            r.wf(),
    {
        FormFieldStyle {
            label_font: "600 14px Consolas",
            helper_font: "13px Consolas",
            label_color: "#d8e3ff",
            helper_color: "#91a4d6",
            error_color: "#ff7a7a",
            border: "#2a3350",
            focus_border: "#27ffd8",
            field_fill: "#0d1324",
            label_height: 18,
            helper_height: 16,
            spacing: 6,
            padding: 10,
        }
    }
}

impl FormField {
    /// The framed field band between the label and the helper line.
    pub open spec fn spec_field_top(self) -> int {
        self.rect.y + self.style.label_height + self.style.spacing
    }

    /// The height of the framed field band, floored at zero.
    pub open spec fn spec_field_height(self) -> int {
        let helper_top = self.rect.y + self.rect.height - self.style.helper_height;
        let h = helper_top - self.style.spacing - self.spec_field_top();
        if h > 0 {
            h
        } else {
            0
        }
    }

    /// The area the nested tree gets: the field band inset by the padding.
    pub open spec fn spec_child_area(self) -> Rect {
        let pad = self.style.padding as int;
        Rect {
            x: spec_padd(self.rect.x as int, pad) as i64,
            y: spec_padd(self.rect.y as int,
                self.style.label_height + self.style.spacing + pad) as i64,
            width: (if self.rect.width - 2 * pad > 0 {
                self.rect.width - 2 * pad
            } else {
                0
            }) as i64,
            height: (if self.spec_field_height() - 2 * pad > 0 {
                self.spec_field_height() - 2 * pad
            } else {
                0
            }) as i64,
        }
    }

    /// The nested tree, for building and targeted mutation.
    pub fn child_mut(&mut self) -> (r: &mut UiTree)
        ensures
            *r == old(self).child,
            *final(self) == (FormField { child: *final(r), ..*old(self) }),
    {
        &mut self.child
    }

    /// Sets or clears the error line: an error replaces the helper text
    /// until cleared.
    pub fn set_validation(&mut self, error_text: Option<String>)
        ensures
            *final(self) == (FormField {
                has_error: error_text is Some,
                error_text: final(self).error_text,
                ..*old(self)
            }),
            final(self).error_text@ == (match error_text {
                Some(text) => text@,
                None => Seq::<char>::empty(),
            }),
    {
        match error_text {
            Some(text) => {
                self.has_error = true;
                self.error_text = text;
            },
            None => {
                self.has_error = false;
                self.error_text = String::new();
            },
        }
    }
}

} // verus!
