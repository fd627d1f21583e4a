use vstd::prelude::*;

verus! {

/// A native window manipulation a window or the backend may request.
#[derive(Clone, Copy, Debug, PartialEq, Eq, Structural)]
pub enum WindowControl {
    Fullscreen,
    Maximize,
    Minimize,
    Drag,
    Close,
}

} // verus!
