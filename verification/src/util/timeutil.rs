use vstd::prelude::*;

verus! {

use vstd::string::StringExecFns;
use crate::strutil::dec_digits;
use crate::strutil::dec_digits_pad2;
use crate::strutil::u64_to_string;
use crate::strutil::u64_to_string_pad2;

/// `HH:MM` for a duration in seconds: hours and minutes both zero-padded
/// to two digits while there are hours, else a literal `00:` followed by
/// the bare minute count.
pub open spec fn second_to_human_spec(secs: int) -> Seq<char> {
    let minute = secs % 3600 / 60;
    let hour = secs / 3600;
    if hour > 0 {
        dec_digits_pad2(hour) + seq![':'] + dec_digits_pad2(minute)
    } else {
        seq!['0', '0', ':'] + dec_digits(minute)
    }
}

/// Renders a duration in seconds as hours and minutes.
pub fn second_to_human(secs: usize) -> (r: String)
    ensures
        r@ == second_to_human_spec(secs as int),
{
    let minute: usize = secs % 3600 / 60;
    let hour: usize = secs / 3600;
    proof {
        reveal_strlit(":");
        reveal_strlit("00:");
    }
    if hour > 0 {
        let mut s = u64_to_string_pad2(hour as u64);
        s.append(":");
        let m = u64_to_string_pad2(minute as u64);
        s.append(m.as_str());
        proof {
            assert(":"@ =~= seq![':']);
            assert(s@ =~= second_to_human_spec(secs as int));
        }
        s
    } else {
        let mut s = String::from_str("00:");
        let m = u64_to_string(minute as u64);
        s.append(m.as_str());
        proof {
            assert("00:"@ =~= seq!['0', '0', ':']);
            assert(s@ =~= second_to_human_spec(secs as int));
        }
        s
    }
}

} // verus!
