use vstd::prelude::*;

verus! {

use crate::strutil::all_digits;
use crate::strutil::parse_decimal_spec;
use crate::strutil::parse_u64;
use crate::strutil::spec_tokens;
use crate::strutil::prefix_then_digit;
use crate::strutil::split_ascii_ws;
use crate::strutil::starts_with_spec;
use crate::strutil::str_prefix_then_digit;
use crate::strutil::str_starts_with;

/// The virtual and loopback interfaces whose traffic the block ignores.
pub open spec fn skip_interface(iface: Seq<char>) -> bool {
    ||| starts_with_spec(iface, "lo"@)
    ||| prefix_then_digit(iface, "ifb"@)
    ||| prefix_then_digit(iface, "lxdbr"@)
    ||| prefix_then_digit(iface, "virbr"@)
    ||| prefix_then_digit(iface, "br"@)
    ||| prefix_then_digit(iface, "vnet"@)
    ||| prefix_then_digit(iface, "tun"@)
    ||| prefix_then_digit(iface, "tap"@)
}

/// What one row of the kernel's interface accounting contributes: its
/// received and sent byte counters, unless the row is too short, its
/// counters are not plain numbers that fit, or its interface is one of
/// the ignored ones.
pub open spec fn line_bytes(line: Seq<char>) -> Option<(u64, u64)> {
    let toks = spec_tokens(line);
    if toks.len() <= 10 {
        None
    } else if !(toks[1].len() > 0 && all_digits(toks[1])) {
        None
    } else {
        match (parse_decimal_spec(toks[1]), parse_decimal_spec(toks[9])) {
            (Some(d), Some(u)) => if d <= u64::MAX && u <= u64::MAX && !skip_interface(toks[0]) {
                Some((d as u64, u as u64))
            } else {
                None
            },
            _ => None,
        }
    }
}

/// Addition on byte totals that stops at the largest representable
/// value.
pub open spec fn sat_add_u64(a: int, b: int) -> int {
    if a + b > u64::MAX {
        u64::MAX as int
    } else {
        a + b
    }
}

/// The grand totals of every counted row, saturating at `u64`.
pub open spec fn total_bytes(lines: Seq<Seq<char>>) -> (int, int)
    decreases lines.len(),
{
    if lines.len() == 0 {
        (0, 0)
    } else {
        let rest = total_bytes(lines.drop_last());
        match line_bytes(lines.last()) {
            Some(b) => (sat_add_u64(rest.0, b.0 as int), sat_add_u64(rest.1, b.1 as int)),
            None => rest,
        }
    }
}

/// The views of a vector of owned rows.
pub open spec fn net_row_views(lines: Seq<String>) -> Seq<Seq<char>> {
    lines.map_values(|l: String| l@)
}

/// Sums the received and sent byte counters over the rows of the
/// kernel's interface accounting, ignoring loopback and virtual
/// interfaces.
pub fn read_total_bytes(lines: &Vec<String>) -> (r: (u64, u64))
    ensures
        (r.0 as int, r.1 as int) == total_bytes(net_row_views(lines@)),
{
    let mut total_download: u64 = 0;
    let mut total_upload: u64 = 0;
    proof {
        assert(net_row_views(lines@).take(0) =~= Seq::<Seq<char>>::empty());
    }
    let mut i: usize = 0;
    while i < lines.len()
        invariant
            i <= lines@.len(),
            (total_download as int, total_upload as int) == total_bytes(
                net_row_views(lines@).take(i as int),
            ),
        decreases lines@.len() - i,
    {
        let line: &String = &lines[i];
        let toks = split_ascii_ws(line.as_str());
        proof {
            assert(net_row_views(lines@).take(i as int + 1).drop_last() =~= net_row_views(
                lines@,
            ).take(i as int));
            assert(net_row_views(lines@).take(i as int + 1).last() == line@);
        }
        if toks.len() > 10 {
            let counted = match (parse_u64(toks[1].as_str()), parse_u64(toks[9].as_str())) {
                (Some(d), Some(u)) => {
                    let iface = &toks[0];
                    let skip = str_starts_with(iface.as_str(), "lo") || str_prefix_then_digit(
                        iface.as_str(),
                        "ifb",
                    ) || str_prefix_then_digit(iface.as_str(), "lxdbr") || str_prefix_then_digit(
                        iface.as_str(),
                        "virbr",
                    ) || str_prefix_then_digit(iface.as_str(), "br") || str_prefix_then_digit(
                        iface.as_str(),
                        "vnet",
                    ) || str_prefix_then_digit(iface.as_str(), "tun") || str_prefix_then_digit(
                        iface.as_str(),
                        "tap",
                    );
                    if skip {
                        false
                    } else {
                        total_download = match total_download.checked_add(d) {
                            Some(t) => t,
                            None => u64::MAX,
                        };
                        total_upload = match total_upload.checked_add(u) {
                            Some(t) => t,
                            None => u64::MAX,
                        };
                        true
                    }
                },
                _ => false,
            };
            let _counted = counted;
        }
        i = i + 1;
    }
    proof {
        assert(net_row_views(lines@).take(lines@.len() as int) =~= net_row_views(lines@));
    }
    (total_download, total_upload)
}

} // verus!
