use vstd::prelude::*;

verus! {

/// A keyboard event, as the panes understand it. The shell translates the
/// terminal's raw key events into this; anything the dashboard does not bind
/// arrives as `Other` and is ignored everywhere.
#[derive(Debug, Clone, Copy)]
pub enum Key {
    /// A printable character, with `'\n'` standing for the enter key.
    Char(char),
    /// A character pressed together with control.
    Ctrl(char),
    /// The backspace key.
    Backspace,
    /// Any other key.
    Other,
}

} // verus!
