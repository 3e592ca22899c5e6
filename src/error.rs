use vstd::prelude::*;

verus! {

/// The one failure of this library: a construction parameter out of range.
#[derive(Debug, Clone, Copy, PartialEq, Eq, Structural)]
pub enum TaError {
    InvalidParameter,
}

} // verus!
