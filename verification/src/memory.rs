use vstd::prelude::*;

verus! {

use crate::strutil::parse_decimal_spec;
use crate::strutil::parse_usize;
use crate::strutil::spec_tokens;
use crate::strutil::split_ascii_ws;
use crate::strutil::str_eq;

/// Memory figures published by the memory block: used, cache, total.
#[derive(Clone)]
pub enum MemoryOut {
    MemoryUsedAndCache(usize, usize, usize),
}

/// The kernel's memory accounting, in kibibytes.
#[derive(Debug, Clone, Copy, PartialEq, Eq, Structural)]
pub struct Memstate {
    pub mem_total: usize,
    pub mem_free: usize,
    pub mem_available: usize,
    pub buffers: usize,
    pub pagecache: usize,
    pub s_reclaimable: usize,
    pub shmem: usize,
    pub swap_total: usize,
    pub swap_free: usize,
    pub swap_cached: usize,
    pub zfs_arc_cache: usize,
    pub zfs_arc_min: usize,
}

/// The accounting all fields start from.
pub open spec fn init_memstate() -> Memstate {
    Memstate {
        mem_total: 0,
        mem_free: 0,
        mem_available: 0,
        buffers: 0,
        pagecache: 0,
        s_reclaimable: 0,
        shmem: 0,
        swap_total: 0,
        swap_free: 0,
        swap_cached: 0,
        zfs_arc_cache: 0,
        zfs_arc_min: 0,
    }
}

/// The field a recognised row updates; unrecognised rows change
/// nothing.
pub open spec fn update_memstate(m: Memstate, name: Seq<char>, val: usize) -> Memstate {
    if name == "MemTotal:"@ {
        Memstate { mem_total: val, ..m }
    } else if name == "MemFree:"@ {
        Memstate { mem_free: val, ..m }
    } else if name == "MemAvailable:"@ {
        Memstate { mem_available: val, ..m }
    } else if name == "Buffers:"@ {
        Memstate { buffers: val, ..m }
    } else if name == "Cached:"@ {
        Memstate { pagecache: val, ..m }
    } else if name == "SReclaimable:"@ {
        Memstate { s_reclaimable: val, ..m }
    } else if name == "Shmem:"@ {
        Memstate { shmem: val, ..m }
    } else if name == "SwapTotal:"@ {
        Memstate { swap_total: val, ..m }
    } else if name == "SwapFree:"@ {
        Memstate { swap_free: val, ..m }
    } else if name == "SwapCached:"@ {
        Memstate { swap_cached: val, ..m }
    } else {
        m
    }
}

/// Folds one row into the accounting: a blank row changes nothing, and
/// any other row must carry a number in its second column.
pub open spec fn apply_meminfo_line(m: Memstate, line: Seq<char>) -> Option<Memstate> {
    let toks = spec_tokens(line);
    if toks.len() == 0 {
        Some(m)
    } else if toks.len() >= 2 {
        match parse_decimal_spec(toks[1]) {
            Some(v) => if v <= usize::MAX {
                Some(update_memstate(m, toks[0], v as usize))
            } else {
                None
            },
            None => None,
        }
    } else {
        None
    }
}

/// The accounting a whole meminfo file denotes.
pub open spec fn parse_meminfo(lines: Seq<Seq<char>>) -> Option<Memstate>
    decreases lines.len(),
{
    if lines.len() == 0 {
        Some(init_memstate())
    } else {
        match parse_meminfo(lines.drop_last()) {
            Some(m) => apply_meminfo_line(m, lines.last()),
            None => None,
        }
    }
}

/// The views of a vector of owned rows.
pub open spec fn row_views(lines: Seq<String>) -> Seq<Seq<char>> {
    lines.map_values(|l: String| l@)
}

/// A spoiled prefix spoils the whole accounting.
proof fn lemma_parse_meminfo_none(lines: Seq<Seq<char>>, k: int)
    requires
        0 <= k <= lines.len(),
        parse_meminfo(lines.take(k)) is None,
    ensures
        parse_meminfo(lines) is None,
    decreases lines.len() - k,
{
    if k < lines.len() {
        assert(lines.take(k + 1).drop_last() =~= lines.take(k));
        lemma_parse_meminfo_none(lines, k + 1);
    } else {
        assert(lines.take(k) =~= lines);
    }
}

/// A memory accounting that could not be parsed.
#[derive(Debug, Clone, Copy, PartialEq, Eq, Structural)]
pub enum MeminfoError {
    /// A non-blank row's second column is missing or is not a number
    /// the accounting can hold.
    BadValue,
}

impl Memstate {
    /// Parses the rows of the kernel's memory accounting.
    pub fn new(lines: &Vec<String>) -> (r: Result<Memstate, MeminfoError>)
        ensures
            match r {
                Ok(m) => parse_meminfo(row_views(lines@)) == Some(m),
                Err(_) => parse_meminfo(row_views(lines@)) is None,
            },
    {
        let mut m = Memstate {
            mem_total: 0,
            mem_free: 0,
            mem_available: 0,
            buffers: 0,
            pagecache: 0,
            s_reclaimable: 0,
            shmem: 0,
            swap_total: 0,
            swap_free: 0,
            swap_cached: 0,
            zfs_arc_cache: 0,
            zfs_arc_min: 0,
        };
        proof {
            assert(row_views(lines@).take(0) =~= Seq::<Seq<char>>::empty());
        }
        let mut i: usize = 0;
        while i < lines.len()
            invariant
                i <= lines@.len(),
                parse_meminfo(row_views(lines@).take(i as int)) == Some(m),
            decreases lines@.len() - i,
        {
            let line: &String = &lines[i];
            let toks = split_ascii_ws(line.as_str());
            let ghost prev = m;
            let mut bad = false;
            if toks.len() == 0 {
            } else if toks.len() >= 2 {
                match parse_usize(toks[1].as_str()) {
                    Some(v) => {
                        let name = &toks[0];
                        if str_eq(name.as_str(), "MemTotal:") {
                            m.mem_total = v;
                        } else if str_eq(name.as_str(), "MemFree:") {
                            m.mem_free = v;
                        } else if str_eq(name.as_str(), "MemAvailable:") {
                            m.mem_available = v;
                        } else if str_eq(name.as_str(), "Buffers:") {
                            m.buffers = v;
                        } else if str_eq(name.as_str(), "Cached:") {
                            m.pagecache = v;
                        } else if str_eq(name.as_str(), "SReclaimable:") {
                            m.s_reclaimable = v;
                        } else if str_eq(name.as_str(), "Shmem:") {
                            m.shmem = v;
                        } else if str_eq(name.as_str(), "SwapTotal:") {
                            m.swap_total = v;
                        } else if str_eq(name.as_str(), "SwapFree:") {
                            m.swap_free = v;
                        } else if str_eq(name.as_str(), "SwapCached:") {
                            m.swap_cached = v;
                        }
                    },
                    None => {
                        bad = true;
                    },
                }
            } else {
                bad = true;
            }
            proof {
                assert(row_views(lines@).take(i as int + 1).drop_last() =~= row_views(
                    lines@,
                ).take(i as int));
                assert(row_views(lines@).take(i as int + 1).last() == line@);
            }
            if bad {
                proof {
                    assert(apply_meminfo_line(prev, line@) is None);
                    lemma_parse_meminfo_none(row_views(lines@), i as int + 1);
                }
                return Err(MeminfoError::BadValue);
            }
            proof {
                assert(apply_meminfo_line(prev, line@) == Some(m));
            }
            i = i + 1;
        }
        proof {
            assert(row_views(lines@).take(lines@.len() as int) =~= row_views(lines@));
        }
        Ok(m)
    }
}

} // verus!
