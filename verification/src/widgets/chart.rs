use vstd::prelude::*;

verus! {

/// How a chart column's line is drawn.
#[derive(Clone, PartialEq, Eq)]
pub enum LineType {
    Fill,
}

} // verus!
