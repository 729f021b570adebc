use vstd::prelude::*;

verus! {

/// A boolean that may also be unknown.
#[derive(Clone)]
pub enum TriBool {
    True,
    False,
    Unknown,
}

} // verus!
