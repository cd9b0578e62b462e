//! The previously focused window: remembered when the hotkey fires, brought
//! back before any synthetic input is sent.
//!
//! A handle is an opaque platform identifier the size of a pointer. Zero
//! stands for "no previous window".

use vstd::prelude::*;

verus! {

/// The slot that remembers which window had the focus before the tool's own
/// window was shown. Each save overwrites the one before.
#[derive(Debug)]
pub struct PrevWindow {
    handle: isize,
}

impl View for PrevWindow {
    type V = isize;

    closed spec fn view(&self) -> isize {
        self.handle
    }
}

impl PrevWindow {
    /// An empty slot: no previous window.
    pub fn new() -> (slot: PrevWindow)
        ensures
            slot@ == 0,
    {
        PrevWindow { handle: 0 }
    }

    /// The handle last saved, or zero.
    pub fn get(&self) -> (handle: isize)
        ensures
            handle == self@,
    {
        self.handle
    }
}

/// Remembers `foreground`, the handle of the window that has the focus now,
/// in place of whatever was remembered before.
pub fn save_prev_window(state: &mut PrevWindow, foreground: isize)
    ensures
        final(state)@ == foreground,
{
    state.handle = foreground;
}

/// The window to bring to the foreground for the remembered handle `val`:
/// that window, or none where nothing was remembered.
pub fn restore_prev_window(val: isize) -> (target: Option<isize>)
    ensures
        target == if val != 0 {
            Some(val)
        } else {
            None
        },
{
    if val != 0 {
        Some(val)
    } else {
        None
    }
}

} // verus!
