//! Keys, and what a key press asks of the world outside.

use vstd::prelude::*;

verus! {

/// A key.
#[derive(Debug, Clone, Copy, PartialEq, Eq, Structural)]
pub enum Key {
    Char(char),
    Esc,
    Enter,
    Backspace,
    Delete,
    Tab,
    BackTab,
    Up,
    Down,
    Left,
    Right,
    PageUp,
    PageDown,
    Home,
    End,
    /// Any other key.
    Other,
}

/// The modifier keys held down with a key.
#[derive(Debug, Clone, Copy, PartialEq, Eq, Structural)]
pub struct Modifiers {
    pub shift: bool,
    pub control: bool,
    pub alt: bool,
    /// Whether any other one is held down.
    pub other: bool,
}

/// No modifier.
pub open spec fn no_modifiers() -> Modifiers {
    Modifiers { shift: false, control: false, alt: false, other: false }
}

/// Shift and no other modifier.
pub open spec fn shift_alone() -> Modifiers {
    Modifiers { shift: true, ..no_modifiers() }
}

/// Control and no other modifier.
pub open spec fn control_alone() -> Modifiers {
    Modifiers { control: true, ..no_modifiers() }
}

impl Modifiers {
    /// No modifier.
    pub fn plain() -> (r: Modifiers)
        ensures
            r == no_modifiers(),
    {
        Modifiers { shift: false, control: false, alt: false, other: false }
    }

    /// Shift and no other modifier.
    pub fn only_shift() -> (r: Modifiers)
        ensures
            r == shift_alone(),
    {
        Modifiers { shift: true, control: false, alt: false, other: false }
    }

    /// Control and no other modifier.
    pub fn only_control() -> (r: Modifiers)
        ensures
            r == control_alone(),
    {
        Modifiers { shift: false, control: true, alt: false, other: false }
    }
}

/// What a key press asks of the world outside.
#[derive(Debug)]
pub enum Action {
    /// Nothing.
    Nothing,
    /// Leave the interface; with `cancel`, cancel the run under way first.
    Quit { cancel: bool },
    /// Tell the engine to pause, or to go on.
    Pause(bool),
    /// Load that many recent runs and hand them to `refreshed`.
    Reload(usize),
    /// With `cancel`, cancel the run under way and wait for its end. Then call `begin_run`
    /// and start a run.
    Restart { cancel: bool },
    /// Save the last result.
    SaveLast,
    /// Load that many recent runs and hand them to `extend_history`.
    LoadMore(usize),
    /// Write that run as JSON and hand the text to `open_history_detail`.
    OpenDetail(usize),
    /// Export that run as JSON and hand the outcome to `exported`.
    ExportJson(usize),
    /// Export that run as CSV and hand the outcome to `exported`.
    ExportCsv(usize),
    /// Delete that run from the disk and hand the outcome to `deleted`.
    Delete(usize),
    /// Save that run with its new comment and hand the outcome to `comment_saved`.
    SaveComment(usize),
    /// Copy that path to the clipboard and hand the outcome to `path_copied`.
    CopyPath(String),
}

} // verus!
