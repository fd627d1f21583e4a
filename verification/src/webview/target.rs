use vstd::prelude::*;

verus! {

/// The addressing tag attached to every routed message: either the backend
/// process or the window with the given logical ID.
#[derive(Clone, Copy, Debug, PartialEq, Eq, Structural)]
pub enum Target {
    Backend,
    Window(i32),
}

} // verus!
