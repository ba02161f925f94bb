//! The answers that a plugin library gives across the C boundary.
use vstd::prelude::*;

verus! {

/// What a plugin's `call` asks, in the C layout.
#[derive(Clone, Copy, Debug, PartialEq, Eq)]
pub enum CInvoke {
    Raise,
    Update,
    Leave,
    Exit,
    Remain,
}

} // verus!
