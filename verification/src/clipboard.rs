use vstd::prelude::*;

verus! {

/// The clipboard service shared by all text-editing widgets.  The host owns
/// one and passes it into each draw pass; last write wins.
pub struct Clipboard {
    pub text: String,
}

impl Clipboard {
    /// An empty clipboard.
    pub fn new() -> (r: Clipboard)
        ensures
            r.text@ == Seq::<char>::empty(),
    {
        Clipboard { text: String::new() }
    }

    /// Replaces the clipboard contents.
    pub fn set_text(&mut self, text: &str)
        ensures
            final(self).text@ == text@,
    {
        self.text = text.to_owned();
    }

    /// Reads the clipboard contents.
    pub fn get_text(&self) -> (r: &str)
        ensures
            r@ == self.text@,
    {
        self.text.as_str()
    }
}

} // verus!
