use vstd::prelude::*;

verus! {

use crate::strutil::parse_decimal_spec;
use crate::strutil::parse_usize;
use crate::strutil::spec_tokens;
use crate::strutil::split_ascii_ws;

/// One row of the kernel's processor-time accounting, reduced to the
/// figures the bar charts.
#[derive(Debug, Clone, Copy, PartialEq, Eq, Structural)]
pub struct CpuTime {
    pub idle: usize,
    pub non_idle: usize,
    pub user: usize,
    pub system_total: usize,
}

/// What parsing one accounting row yields: the first seven columns are
/// user, nice, system, idle, iowait, irq and softirq; rows with fewer
/// columns, non-numeric columns, or sums beyond `usize` yield nothing.
pub open spec fn cpu_time_from_str_spec(s: Seq<char>) -> Option<CpuTime> {
    let toks = spec_tokens(s);
    if toks.len() < 7 {
        None
    } else {
        match (
            parse_decimal_spec(toks[0]),
            parse_decimal_spec(toks[1]),
            parse_decimal_spec(toks[2]),
            parse_decimal_spec(toks[3]),
            parse_decimal_spec(toks[4]),
            parse_decimal_spec(toks[5]),
            parse_decimal_spec(toks[6]),
        ) {
            (
                Some(user),
                Some(nice),
                Some(system),
                Some(idle),
                Some(iowait),
                Some(irq),
                Some(softirq),
            ) => {
                if user <= usize::MAX && nice <= usize::MAX && system <= usize::MAX && idle
                    <= usize::MAX && iowait <= usize::MAX && irq <= usize::MAX && softirq
                    <= usize::MAX && nice + system <= usize::MAX && nice + system + irq
                    <= usize::MAX && nice + system + irq + softirq <= usize::MAX && idle + iowait
                    <= usize::MAX && user + nice + system + irq + softirq <= usize::MAX {
                    Some(
                        CpuTime {
                            idle: (idle + iowait) as usize,
                            non_idle: (user + nice + system + irq + softirq) as usize,
                            user: user as usize,
                            system_total: (nice + system + irq + softirq) as usize,
                        },
                    )
                } else {
                    None
                }
            },
            _ => None,
        }
    }
}

impl CpuTime {
    /// Parses one row of the kernel's processor-time accounting.
    pub fn from_str(s: &str) -> (r: Option<CpuTime>)
        ensures
            r == cpu_time_from_str_spec(s@),
    {
        let toks = split_ascii_ws(s);
        if toks.len() < 7 {
            return None;
        }
        let user = match parse_usize(toks[0].as_str()) {
            Some(v) => v,
            None => {
                return None;
            },
        };
        let nice = match parse_usize(toks[1].as_str()) {
            Some(v) => v,
            None => {
                return None;
            },
        };
        let system = match parse_usize(toks[2].as_str()) {
            Some(v) => v,
            None => {
                return None;
            },
        };
        let idle = match parse_usize(toks[3].as_str()) {
            Some(v) => v,
            None => {
                return None;
            },
        };
        let iowait = match parse_usize(toks[4].as_str()) {
            Some(v) => v,
            None => {
                return None;
            },
        };
        let irq = match parse_usize(toks[5].as_str()) {
            Some(v) => v,
            None => {
                return None;
            },
        };
        let softirq = match parse_usize(toks[6].as_str()) {
            Some(v) => v,
            None => {
                return None;
            },
        };
        let st1 = match nice.checked_add(system) {
            Some(v) => v,
            None => {
                return None;
            },
        };
        let st2 = match st1.checked_add(irq) {
            Some(v) => v,
            None => {
                return None;
            },
        };
        let system_total = match st2.checked_add(softirq) {
            Some(v) => v,
            None => {
                return None;
            },
        };
        let idle_total = match idle.checked_add(iowait) {
            Some(v) => v,
            None => {
                return None;
            },
        };
        let non_idle = match user.checked_add(system_total) {
            Some(v) => v,
            None => {
                return None;
            },
        };
        Some(CpuTime { idle: idle_total, non_idle, user, system_total })
    }
}

} // verus!
