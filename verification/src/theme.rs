use vstd::prelude::*;

verus! {

/// The palette and fonts the host hands to its renderer.  Styling is host
/// data: the engine only stores and returns these strings.
pub struct Theme {
    pub background: &'static str,
    pub accent_primary: &'static str,
    pub accent_secondary: &'static str,
    pub text_primary: &'static str,
    pub text_muted: &'static str,
    pub font_label: &'static str,
    pub font_button: &'static str,
}

impl Theme {
    /// The stock dark palette.
    pub fn reactron() -> (t: Theme)
        ensures
            t.background@ == "#080b13"@,
            t.accent_primary@ == "#ff2d2d"@,
            t.accent_secondary@ == "#27ffd8"@,
            t.text_primary@ == "#d8e3ff"@,
            t.text_muted@ == "#9eb4ff"@,
            t.font_label@ == "14px Consolas"@,
            t.font_button@ == "600 22px Consolas"@,
    {
        Theme {
            background: "#080b13",
            accent_primary: "#ff2d2d",
            accent_secondary: "#27ffd8",
            text_primary: "#d8e3ff",
            text_muted: "#9eb4ff",
            font_label: "14px Consolas",
            font_button: "600 22px Consolas",
        }
    }
}

} // verus!
