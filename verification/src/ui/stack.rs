use vstd::prelude::*;

verus! {

/// How an element of a stack takes up room along the stack.
#[derive(Debug, Clone, Copy, PartialEq, Eq, Structural)]
pub enum StackItemMode {
    /// The element takes its minimum size.
    Compress,
    /// The element shares the room left over with the other expanding ones.
    Expand,
}

/// How a stack places its elements.
#[derive(Debug, Clone, Copy, PartialEq, Eq, Structural)]
pub enum StackMode {
    Left,
    Center,
    Right,
    Distribute,
    Delegate,
}

} // verus!
