use vstd::prelude::*;

verus! {

/// Opaque identifier attached to a registration and echoed back in its events.
#[derive(Clone, Copy, Debug, PartialEq, Eq, Structural, Hash, PartialOrd, Ord)]
pub struct Token(pub usize);

} // verus!
