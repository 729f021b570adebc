use vstd::prelude::*;

verus! {

use crate::strutil::starts_with_spec;
use crate::strutil::str_starts_with;

/// Whether the firmware's battery conservation mode is switched on.
#[derive(Clone, PartialEq)]
pub enum ConvervationMode {
    Enable,
    Disable,
    Unknown,
}

/// The mode a reading of the firmware knob denotes: a value beginning
/// with `1` means enabled, any other value disabled, and no reading at
/// all leaves the mode unknown.
pub open spec fn conservation_mode_spec(value: Option<Seq<char>>) -> ConvervationMode {
    match value {
        Some(v) => if starts_with_spec(v, "1"@) {
            ConvervationMode::Enable
        } else {
            ConvervationMode::Disable
        },
        None => ConvervationMode::Unknown,
    }
}

/// Decides the conservation mode from the firmware knob's contents.
pub fn conservation_mode_of(value: Option<&str>) -> (r: ConvervationMode)
    ensures
        r == conservation_mode_spec(match value {
            Some(v) => Some(v@),
            None => None,
        }),
{
    match value {
        Some(v) => {
            if str_starts_with(v, "1") {
                ConvervationMode::Enable
            } else {
                ConvervationMode::Disable
            }
        },
        None => ConvervationMode::Unknown,
    }
}

} // verus!
