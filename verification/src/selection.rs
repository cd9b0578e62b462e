//! Capturing the user's selection by clipboard difference.
//!
//! The clipboard is read, a copy gesture is sent to the focused window, and
//! after a settle delay the clipboard is read again. What the second read
//! holds counts as the selection only if it differs from the first.

use crate::spell::text_of;
use vstd::prelude::*;

verus! {

/// How long the focused application is given to put its selection on the
/// clipboard after the copy gesture, in milliseconds.
pub const CAPTURE_SETTLE_MS: u64 = 100;

/// The text a clipboard read stands for: what was read, or nothing where the
/// read failed.
pub open spec fn clipboard_text(read: Option<Seq<char>>) -> Seq<char> {
    match read {
        Some(text) => text,
        None => Seq::empty(),
    }
}

/// The selection that two clipboard texts amount to: the later one if it
/// differs from the earlier, else nothing.
pub open spec fn selection_of(before: Seq<char>, after: Seq<char>) -> Seq<char> {
    if after != before {
        after
    } else {
        Seq::empty()
    }
}

/// The captured selection, from the clipboard reads before and after the copy
/// gesture. A failed read counts as an empty clipboard.
pub fn capture_selection(before: Option<String>, after: Option<String>) -> (selected: String)
    ensures
        selected@ == selection_of(
            clipboard_text(text_of(before)),
            clipboard_text(text_of(after)),
        ),
{
    let before_text = match before {
        Some(text) => text,
        None => String::new(),
    };
    let after_text = match after {
        Some(text) => text,
        None => String::new(),
    };
    if after_text != before_text {
        after_text
    } else {
        String::new()
    }
}

/// The slot that holds the selection captured last. Each capture overwrites
/// the one before; an invocation reads it once.
#[derive(Debug)]
pub struct SelectedText {
    text: String,
}

impl View for SelectedText {
    type V = Seq<char>;

    closed spec fn view(&self) -> Seq<char> {
        self.text@
    }
}

impl SelectedText {
    /// An empty slot.
    pub fn new() -> (slot: SelectedText)
        ensures
            slot@ == Seq::<char>::empty(),
    {
        SelectedText { text: String::new() }
    }

    /// Puts `selected` in place of the text held before.
    pub fn store(&mut self, selected: String)
        ensures
            final(self)@ == selected@,
    {
        self.text = selected;
    }

    /// A copy of the text held.
    pub fn read(&self) -> (selected: String)
        ensures
            selected@ == self@,
    {
        self.text.clone()
    }
}

} // verus!
