use vstd::prelude::*;

verus! {

/// Whether a screen consumed an input event.
#[derive(Debug, Clone, Copy, PartialEq, Eq, Structural)]
pub enum EventStatus {
    Handled,
    NotHandled,
}

/// A layer of the user interface that the rendering actor stacks.
pub trait Screen {
}

/// A drawable mesh held by the rendering actor's storage.
pub trait Mesh {
}

} // verus!
