use vstd::prelude::*;

verus! {

use vstd::string::StringExecFns;
use crate::strutil::dec_digits;
use crate::strutil::u64_to_string;

/// `H:M` for a duration in seconds while there are hours, else the bare
/// minute count, all unpadded.
pub open spec fn second_to_human_spec(secs: int) -> Seq<char> {
    let minute = secs % 3600 / 60;
    let hour = secs / 3600;
    if hour > 0 {
        dec_digits(hour) + seq![':'] + dec_digits(minute)
    } else {
        dec_digits(minute)
    }
}

/// Renders a duration in seconds as hours and minutes.
pub fn second_to_human(secs: u32) -> (r: String)
    ensures
        r@ == second_to_human_spec(secs as int),
{
    let minute: u32 = secs % 3600 / 60;
    let hour: u32 = secs / 3600;
    if hour > 0 {
        let mut s = u64_to_string(hour as u64);
        s.append(":");
        let m = u64_to_string(minute as u64);
        s.append(m.as_str());
        proof {
            reveal_strlit(":");
            assert(":"@ =~= seq![':']);
            assert(s@ =~= second_to_human_spec(secs as int));
        }
        s
    } else {
        u64_to_string(minute as u64)
    }
}

} // verus!
