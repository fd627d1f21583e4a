use vstd::prelude::*;

verus! {

/// Error carried by every fallible operation of the packager and loader.
/// The payload is a human-readable reason, printed by the binary before it
/// exits non-zero.
#[derive(Debug)]
pub struct EmbedError(pub String);

} // verus!
