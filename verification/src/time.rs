use vstd::prelude::*;

verus! {

/// Date and time strings published by the time block.
#[derive(Clone)]
pub enum TimeOut {
    Westen(String, String),
}

/// The stand-alone clock widget.
pub struct TimeModule {}

} // verus!
