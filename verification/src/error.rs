use vstd::prelude::*;

verus! {

/// The one recoverable failure this layer reports: caller-supplied text
/// cannot be handed to the engine as a nul-terminated byte string because
/// it holds an interior nul byte. `nul_position` is the index of the first
/// such byte.
#[derive(Clone, Copy, Debug, PartialEq, Eq, Structural)]
pub enum FliteError {
    InvalidString { nul_position: usize },
}

/// Result alias used by the fallible operations of this crate.
pub type FliteResult<T> = Result<T, FliteError>;

} // verus!
