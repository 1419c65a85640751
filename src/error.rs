use vstd::prelude::*;

verus! {

/// Why a registration call failed.
#[derive(Clone, Copy, Debug, PartialEq, Eq, Structural)]
pub enum Error {
    /// A misuse: a source bound to another selector, or one never registered.
    InvalidInput,
    /// The descriptor is registered already.
    AlreadyExists,
    /// The selector holds no registration for the descriptor.
    NotFound,
}

} // verus!
