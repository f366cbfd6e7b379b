//! The editor's text buffer: the one piece of state the shell owns. The
//! engine itself is stateless; the shell hands the whole content to
//! `calculate_stats` after every change.

use vstd::prelude::*;
use vstd::string::StringExecFns;

verus! {

/// An editable text buffer.
pub struct QCEditor {
    pub content: String,
}

impl Default for QCEditor {
    /// A fresh editor holds no text.
    fn default() -> (r: Self)
        ensures
            r.content@ == Seq::<char>::empty(),
    {
        QCEditor { content: String::new() }
    }
}

impl QCEditor {
    /// Append newly entered text to the buffer.
    pub fn add_new_content(&mut self, content: String)
        ensures
            final(self).content@ == old(self).content@ + content@,
    {
        self.content.append(content.as_str());
    }
}

} // verus!
