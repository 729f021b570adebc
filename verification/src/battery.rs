use vstd::prelude::*;

pub mod batdiff;
pub mod ideapad;

verus! {

/// The charging state the kernel reports for a battery.
#[derive(Debug, PartialEq, Eq, Structural, Clone, Copy)]
pub enum PowerStatus {
    NotCharging,
    Discharging,
    Charging,
    Full,
    Unknown,
}

/// One reading of the battery's kernel interface.
#[derive(Debug, Clone)]
pub struct BatteryInfo {
    pub name: String,
    pub status: PowerStatus,
    pub present: u8,
    pub technology: String,
    pub cycle_count: u32,
    pub voltage_min_design: u32,
    pub voltage_now: u32,
    pub power_now: u32,
    pub energy_full_design: u32,
    pub energy_full: u32,
    pub energy_now: u32,
    pub capacity: u8,
    pub capacity_level: String,
    pub model_name: String,
    pub manufacturer: String,
    pub serial_numer: String,
}

impl BatteryInfo {
    /// The charge percentage the kernel itself reports.
    pub fn get_percent(&self) -> (r: u8)
        ensures
            r == self.capacity,
    {
        self.capacity
    }
}

/// Readings published by the battery block.
#[derive(Clone)]
pub enum BatteryOut {
    BatteryInfo(BatteryInfo),
    UnknownBatteryInfo,
}

use vstd::string::StrSliceExecFns;
use vstd::string::StringExecFns;
use crate::strutil::ascii_lower;
use crate::strutil::ascii_lower_eq;
use crate::strutil::find_first;
use crate::strutil::idx_of;
use crate::strutil::parse_decimal_spec;
use crate::strutil::parse_u32;
use crate::strutil::parse_u64;
use crate::strutil::str_eq;

/// Mathematical model of a [`BatteryInfo`].
pub struct BatteryInfoV {
    pub name: Seq<char>,
    pub status: PowerStatus,
    pub present: u8,
    pub technology: Seq<char>,
    pub cycle_count: u32,
    pub voltage_min_design: u32,
    pub voltage_now: u32,
    pub power_now: u32,
    pub energy_full_design: u32,
    pub energy_full: u32,
    pub energy_now: u32,
    pub capacity: u8,
    pub capacity_level: Seq<char>,
    pub model_name: Seq<char>,
    pub manufacturer: Seq<char>,
    pub serial_numer: Seq<char>,
}

impl View for BatteryInfo {
    type V = BatteryInfoV;

    open spec fn view(&self) -> BatteryInfoV {
        BatteryInfoV {
            name: self.name@,
            status: self.status,
            present: self.present,
            technology: self.technology@,
            cycle_count: self.cycle_count,
            voltage_min_design: self.voltage_min_design,
            voltage_now: self.voltage_now,
            power_now: self.power_now,
            energy_full_design: self.energy_full_design,
            energy_full: self.energy_full,
            energy_now: self.energy_now,
            capacity: self.capacity,
            capacity_level: self.capacity_level@,
            model_name: self.model_name@,
            manufacturer: self.manufacturer@,
            serial_numer: self.serial_numer@,
        }
    }
}

/// The reading all fields start from: unknown status, zeros and empty
/// strings.
pub open spec fn init_battery_info() -> BatteryInfoV {
    BatteryInfoV {
        name: Seq::empty(),
        status: PowerStatus::Unknown,
        present: 0,
        technology: Seq::empty(),
        cycle_count: 0,
        voltage_min_design: 0,
        voltage_now: 0,
        power_now: 0,
        energy_full_design: 0,
        energy_full: 0,
        energy_now: 0,
        capacity: 0,
        capacity_level: Seq::empty(),
        model_name: Seq::empty(),
        manufacturer: Seq::empty(),
        serial_numer: Seq::empty(),
    }
}

/// The power status a reported value denotes, compared without regard
/// to ASCII case.
pub open spec fn status_of(v: Seq<char>) -> PowerStatus {
    if ascii_lower(v) == "charging"@ {
        PowerStatus::Charging
    } else if ascii_lower(v) == "not charging"@ {
        PowerStatus::NotCharging
    } else if ascii_lower(v) == "discharging"@ {
        PowerStatus::Discharging
    } else {
        PowerStatus::Unknown
    }
}

/// The key of one `k=v` line: everything before the first separator.
pub open spec fn line_key(line: Seq<char>) -> Seq<char> {
    line.take(idx_of(line, '='))
}

/// The value of one `k=v` line: between the first separator and the
/// second, if any. A line without a separator reads as an empty value.
pub open spec fn line_value(line: Seq<char>) -> Seq<char> {
    if idx_of(line, '=') == line.len() {
        Seq::empty()
    } else {
        let rest = line.skip(idx_of(line, '=') + 1);
        rest.take(idx_of(rest, '='))
    }
}

/// Folds one line into the reading. A recognised numeric key whose
/// value is not a number the field can hold spoils the whole reading;
/// an unrecognised key changes nothing.
pub open spec fn apply_uevent_line(b: BatteryInfoV, line: Seq<char>) -> Option<BatteryInfoV> {
    let k = line_key(line);
    let v = line_value(line);
    if k == "POWER_SUPPLY_NAME"@ {
        Some(BatteryInfoV { name: v, ..b })
    } else if k == "POWER_SUPPLY_STATUS"@ {
        Some(BatteryInfoV { status: status_of(v), ..b })
    } else if k == "POWER_SUPPLY_PRESENT"@ {
        match parse_decimal_spec(v) {
            Some(x) => if x <= u8::MAX {
                Some(BatteryInfoV { present: x as u8, ..b })
            } else {
                None
            },
            None => None,
        }
    } else if k == "POWER_SUPPLY_TECHNOLOGY"@ {
        Some(BatteryInfoV { technology: v, ..b })
    } else if k == "POWER_SUPPLY_CYCLE_COUNT"@ {
        match parse_decimal_spec(v) {
            Some(x) => if x <= u32::MAX {
                Some(BatteryInfoV { cycle_count: x as u32, ..b })
            } else {
                None
            },
            None => None,
        }
    } else if k == "POWER_SUPPLY_VOLTAGE_MIN_DESIGN"@ {
        match parse_decimal_spec(v) {
            Some(x) => if x <= u32::MAX {
                Some(BatteryInfoV { voltage_min_design: x as u32, ..b })
            } else {
                None
            },
            None => None,
        }
    } else if k == "POWER_SUPPLY_VOLTAGE_NOW"@ {
        match parse_decimal_spec(v) {
            Some(x) => if x <= u32::MAX {
                Some(BatteryInfoV { voltage_now: x as u32, ..b })
            } else {
                None
            },
            None => None,
        }
    } else if k == "POWER_SUPPLY_POWER_NOW"@ {
        match parse_decimal_spec(v) {
            Some(x) => if x <= u32::MAX {
                Some(BatteryInfoV { power_now: x as u32, ..b })
            } else {
                None
            },
            None => None,
        }
    } else if k == "POWER_SUPPLY_ENERGY_FULL_DESIGN"@ {
        match parse_decimal_spec(v) {
            Some(x) => if x <= u32::MAX {
                Some(BatteryInfoV { energy_full_design: x as u32, ..b })
            } else {
                None
            },
            None => None,
        }
    } else if k == "POWER_SUPPLY_ENERGY_FULL"@ {
        match parse_decimal_spec(v) {
            Some(x) => if x <= u32::MAX {
                Some(BatteryInfoV { energy_full: x as u32, ..b })
            } else {
                None
            },
            None => None,
        }
    } else if k == "POWER_SUPPLY_ENERGY_NOW"@ {
        match parse_decimal_spec(v) {
            Some(x) => if x <= u32::MAX {
                Some(BatteryInfoV { energy_now: x as u32, ..b })
            } else {
                None
            },
            None => None,
        }
    } else if k == "POWER_SUPPLY_CAPACITY"@ {
        match parse_decimal_spec(v) {
            Some(x) => if x <= u8::MAX {
                Some(BatteryInfoV { capacity: x as u8, ..b })
            } else {
                None
            },
            None => None,
        }
    } else if k == "POWER_SUPPLY_CAPACITY_LEVEL"@ {
        Some(BatteryInfoV { capacity_level: v, ..b })
    } else if k == "POWER_SUPPLY_MODEL_NAME"@ {
        Some(BatteryInfoV { model_name: v, ..b })
    } else if k == "POWER_SUPPLY_MANUFACTURER"@ {
        Some(BatteryInfoV { manufacturer: v, ..b })
    } else if k == "POWER_SUPPLY_SERIAL_NUMBER"@ {
        Some(BatteryInfoV { serial_numer: v, ..b })
    } else {
        Some(b)
    }
}

/// The reading a whole uevent file denotes: every line folded in, in
/// order, over the initial reading.
pub open spec fn parse_uevent(lines: Seq<Seq<char>>) -> Option<BatteryInfoV>
    decreases lines.len(),
{
    if lines.len() == 0 {
        Some(init_battery_info())
    } else {
        match parse_uevent(lines.drop_last()) {
            Some(b) => apply_uevent_line(b, lines.last()),
            None => None,
        }
    }
}

/// The views of a vector of owned lines.
pub open spec fn views_of(lines: Seq<String>) -> Seq<Seq<char>> {
    lines.map_values(|l: String| l@)
}

/// A battery reading that could not be parsed.
#[derive(Debug, Clone, Copy, PartialEq, Eq, Structural)]
pub enum UeventError {
    /// A recognised numeric key carried something that is not a number
    /// its field can hold.
    BadNumber,
}

/// A spoiled prefix spoils the whole reading.
pub proof fn lemma_parse_uevent_none(lines: Seq<Seq<char>>, k: int)
    requires
        0 <= k <= lines.len(),
        parse_uevent(lines.take(k)) is None,
    ensures
        parse_uevent(lines) is None,
    decreases lines.len() - k,
{
    if k < lines.len() {
        assert(lines.take(k + 1).drop_last() =~= lines.take(k));
        lemma_parse_uevent_none(lines, k + 1);
    } else {
        assert(lines.take(k) =~= lines);
    }
}

/// Parses the lines of a battery uevent file into one reading.
pub fn read_event(lines: &Vec<String>) -> (r: Result<BatteryInfo, UeventError>)
    ensures
        match r {
            Ok(info) => parse_uevent(views_of(lines@)) == Some(info@),
            Err(_) => parse_uevent(views_of(lines@)) is None,
        },
{
    let mut info = BatteryInfo {
        name: String::new(),
        status: PowerStatus::Unknown,
        present: 0,
        technology: String::new(),
        cycle_count: 0,
        voltage_min_design: 0,
        voltage_now: 0,
        power_now: 0,
        energy_full_design: 0,
        energy_full: 0,
        energy_now: 0,
        capacity: 0,
        capacity_level: String::new(),
        model_name: String::new(),
        manufacturer: String::new(),
        serial_numer: String::new(),
    };
    proof {
        assert(info@ =~= init_battery_info());
        assert(views_of(lines@).take(0) =~= Seq::<Seq<char>>::empty());
    }
    let mut i: usize = 0;
    while i < lines.len()
        invariant
            i <= lines@.len(),
            parse_uevent(views_of(lines@).take(i as int)) == Some(info@),
        decreases lines@.len() - i,
    {
        let line: &String = &lines[i];
        let s = line.as_str();
        let n = s.unicode_len();
        let eq1 = find_first(s, '=');
        proof {
            crate::strutil::lemma_idx_of_props(s@, '=');
        }
        let k = s.substring_char(0, eq1);
        let v = if eq1 == n {
            ""
        } else {
            let rest = s.substring_char(eq1 + 1, n);
            proof {
                assert(rest@ =~= s@.skip(eq1 as int + 1));
                crate::strutil::lemma_idx_of_props(rest@, '=');
            }
            let e2 = find_first(rest, '=');
            rest.substring_char(0, e2)
        };
        proof {
            reveal_strlit("");
            assert(k@ =~= line_key(s@));
            assert(v@ =~= line_value(s@));
        }
        let ghost prev = info@;
        let mut bad = false;
        if str_eq(k, "POWER_SUPPLY_NAME") {
            info.name = String::from_str(v);
        } else if str_eq(k, "POWER_SUPPLY_STATUS") {
            info.status = if ascii_lower_eq(v, "charging") {
                PowerStatus::Charging
            } else if ascii_lower_eq(v, "not charging") {
                PowerStatus::NotCharging
            } else if ascii_lower_eq(v, "discharging") {
                PowerStatus::Discharging
            } else {
                PowerStatus::Unknown
            };
        } else if str_eq(k, "POWER_SUPPLY_PRESENT") {
            match parse_u64(v) {
                Some(x) => {
                    if x <= 255 {
                        info.present = x as u8;
                    } else {
                        bad = true;
                    }
                },
                None => {
                    bad = true;
                },
            }
        } else if str_eq(k, "POWER_SUPPLY_TECHNOLOGY") {
            info.technology = String::from_str(v);
        } else if str_eq(k, "POWER_SUPPLY_CYCLE_COUNT") {
            match parse_u32(v) {
                Some(x) => {
                    info.cycle_count = x;
                },
                None => {
                    bad = true;
                },
            }
        } else if str_eq(k, "POWER_SUPPLY_VOLTAGE_MIN_DESIGN") {
            match parse_u32(v) {
                Some(x) => {
                    info.voltage_min_design = x;
                },
                None => {
                    bad = true;
                },
            }
        } else if str_eq(k, "POWER_SUPPLY_VOLTAGE_NOW") {
            match parse_u32(v) {
                Some(x) => {
                    info.voltage_now = x;
                },
                None => {
                    bad = true;
                },
            }
        } else if str_eq(k, "POWER_SUPPLY_POWER_NOW") {
            match parse_u32(v) {
                Some(x) => {
                    info.power_now = x;
                },
                None => {
                    bad = true;
                },
            }
        } else if str_eq(k, "POWER_SUPPLY_ENERGY_FULL_DESIGN") {
            match parse_u32(v) {
                Some(x) => {
                    info.energy_full_design = x;
                },
                None => {
                    bad = true;
                },
            }
        } else if str_eq(k, "POWER_SUPPLY_ENERGY_FULL") {
            match parse_u32(v) {
                Some(x) => {
                    info.energy_full = x;
                },
                None => {
                    bad = true;
                },
            }
        } else if str_eq(k, "POWER_SUPPLY_ENERGY_NOW") {
            match parse_u32(v) {
                Some(x) => {
                    info.energy_now = x;
                },
                None => {
                    bad = true;
                },
            }
        } else if str_eq(k, "POWER_SUPPLY_CAPACITY") {
            match parse_u64(v) {
                Some(x) => {
                    if x <= 255 {
                        info.capacity = x as u8;
                    } else {
                        bad = true;
                    }
                },
                None => {
                    bad = true;
                },
            }
        } else if str_eq(k, "POWER_SUPPLY_CAPACITY_LEVEL") {
            info.capacity_level = String::from_str(v);
        } else if str_eq(k, "POWER_SUPPLY_MODEL_NAME") {
            info.model_name = String::from_str(v);
        } else if str_eq(k, "POWER_SUPPLY_MANUFACTURER") {
            info.manufacturer = String::from_str(v);
        } else if str_eq(k, "POWER_SUPPLY_SERIAL_NUMBER") {
            info.serial_numer = String::from_str(v);
        }
        proof {
            assert(views_of(lines@).take(i as int + 1).drop_last() =~= views_of(lines@).take(
                i as int,
            ));
            assert(views_of(lines@).take(i as int + 1).last() == s@);
        }
        if bad {
            proof {
                assert(apply_uevent_line(prev, s@) is None);
                lemma_parse_uevent_none(views_of(lines@), i as int + 1);
            }
            return Err(UeventError::BadNumber);
        }
        proof {
            assert(apply_uevent_line(prev, s@) == Some(info@));
        }
        i = i + 1;
    }
    proof {
        assert(views_of(lines@).take(lines@.len() as int) =~= views_of(lines@));
    }
    Ok(info)
}

} // verus!
