use vstd::prelude::*;

verus! {

use crate::battery::BatteryInfo;
use crate::battery::PowerStatus;
use crate::util::gtk_icon_loader::StatusName;

/// Seconds between two battery polls.
pub const INTERVAL: usize = 2;

/// Tracks what the battery widget last showed, so that only real
/// changes reach the screen.
#[derive(Debug, Clone, Copy)]
pub struct BatDiff {
    pub last_power_status: PowerStatus,
    pub last_percent: u8,
    pub energy_diff: usize,
    pub time_diff: usize,
    pub last_record_seconds: usize,
    pub last_record_energy: usize,
    pub last_remain_time_notify_sec: usize,
    pub last_remain_time_label_time: usize,
}

/// Relies on std::time::SystemTime: seconds since the Unix epoch, zero
/// when the clock reads before the epoch.
#[verifier::external_body]
pub fn seconds_now() -> usize {
    match std::time::SystemTime::now().duration_since(std::time::UNIX_EPOCH) {
        Ok(d) => d.as_secs() as usize,
        Err(_) => 0,
    }
}

/// The icon that belongs to each charge percentage.
pub open spec fn percent_status_name(p: u8) -> StatusName {
    if p <= 9 {
        StatusName::BatteryEmpty
    } else if p <= 30 {
        StatusName::BatteryLow
    } else if p <= 60 {
        StatusName::BatteryMid
    } else if p <= 99 {
        StatusName::BatteryHigh
    } else {
        StatusName::BatteryFull
    }
}

/// The icon that belongs to each power status.
pub open spec fn power_status_name(s: PowerStatus) -> StatusName {
    match s {
        PowerStatus::NotCharging => StatusName::BatteryPowerNotCharging,
        PowerStatus::Discharging => StatusName::BatteryPowerDisconnected,
        PowerStatus::Charging => StatusName::BattetyPowerCharging,
        PowerStatus::Full => StatusName::BatteryPowerFull,
        PowerStatus::Unknown => StatusName::BatteryPowerUnknown,
    }
}

fn map_percent(p: u8) -> (s: StatusName)
    ensures
        s == percent_status_name(p),
{
    if p <= 9 {
        StatusName::BatteryEmpty
    } else if p <= 30 {
        StatusName::BatteryLow
    } else if p <= 60 {
        StatusName::BatteryMid
    } else if p <= 99 {
        StatusName::BatteryHigh
    } else {
        StatusName::BatteryFull
    }
}

fn map_power_status(s: PowerStatus) -> (r: StatusName)
    ensures
        r == power_status_name(s),
{
    match s {
        PowerStatus::NotCharging => StatusName::BatteryPowerNotCharging,
        PowerStatus::Discharging => StatusName::BatteryPowerDisconnected,
        PowerStatus::Charging => StatusName::BattetyPowerCharging,
        PowerStatus::Full => StatusName::BatteryPowerFull,
        PowerStatus::Unknown => StatusName::BatteryPowerUnknown,
    }
}

/// Addition that stops at the largest representable value.
pub open spec fn sat_add(a: int, b: int) -> int {
    if a + b > usize::MAX {
        usize::MAX as int
    } else {
        a + b
    }
}

/// Subtraction that stops at zero.
pub open spec fn sat_sub(a: int, b: int) -> int {
    if a >= b {
        a - b
    } else {
        0
    }
}

impl BatDiff {
    /// Hands the fresh percentage and its icon to the callback when the
    /// percentage changed, and remembers it either way.
    pub fn check_percent<F: Fn(u8, StatusName) -> ()>(
        &mut self,
        battery_info: &BatteryInfo,
        callback: F,
    )
        requires
            forall|p: u8, s: StatusName| #[trigger] callback.requires((p, s)),
        ensures
            *final(self) == (BatDiff { last_percent: battery_info.capacity, ..*old(self) }),
    {
        let percent = battery_info.get_percent();
        if percent != self.last_percent {
            let mapped = map_percent(percent);
            callback(percent, mapped);
            self.last_percent = percent;
        }
    }

    /// Hands the fresh power status icon to the callback when the
    /// status changed, and remembers the status either way.
    pub fn check_power_status<F: Fn(StatusName) -> ()>(
        &mut self,
        battery_info: &BatteryInfo,
        callback: F,
    )
        requires
            forall|s: StatusName| #[trigger] callback.requires((s,)),
        ensures
            *final(self) == (BatDiff { last_power_status: battery_info.status, ..*old(self) }),
    {
        let status = battery_info.status;
        if self.last_power_status != status {
            let mapped = map_power_status(status);
            self.last_power_status = status;
            callback(mapped);
        }
    }

    /// Updates the discharge bookkeeping from a fresh reading and
    /// decides what to show. The callback gets `Some(remaining
    /// seconds)` when a new label is due, `None` when the battery is
    /// not discharging or no estimate exists yet; the function returns
    /// `Some(remaining seconds)` when a low-battery notification is
    /// due. Time runs through saturating arithmetic, so a clock that
    /// jumps backwards cannot underflow the bookkeeping.
    pub fn check_remain_time<F: Fn(Option<usize>) -> ()>(
        &mut self,
        battery_info: &BatteryInfo,
        now: usize,
        callback: F,
    ) -> (notify: Option<usize>)
        requires
            now >= old(self).last_record_seconds,
            forall|o: Option<usize>| #[trigger] callback.requires((o,)),
        ensures
            battery_info.status != PowerStatus::Discharging ==> *final(self) == *old(self)
                && notify is None,
            battery_info.status == PowerStatus::Discharging ==> ({
                let time_cost = now - old(self).last_record_seconds;
                let td = if time_cost < INTERVAL + 3 {
                    sat_add(old(self).time_diff as int, time_cost)
                } else {
                    old(self).time_diff as int
                };
                let cap_diff = sat_sub(
                    old(self).last_record_energy as int,
                    battery_info.energy_now as int,
                );
                let ed = sat_add(old(self).energy_diff as int, cap_diff);
                if ed > 0 {
                    let remain_full = (battery_info.energy_now * td) / ed;
                    let remain = if remain_full > usize::MAX {
                        usize::MAX as int
                    } else {
                        remain_full
                    };
                    let notify_due = battery_info.capacity < 30 && sat_sub(
                        now as int,
                        old(self).last_remain_time_notify_sec as int,
                    ) > 300;
                    let label_due = sat_sub(
                        now as int,
                        old(self).last_remain_time_label_time as int,
                    ) > 30;
                    &&& notify == if notify_due {
                        Some(remain as usize)
                    } else {
                        None::<usize>
                    }
                    &&& *final(self) == (BatDiff {
                        last_record_seconds: now,
                        time_diff: td as usize,
                        energy_diff: ed as usize,
                        last_record_energy: battery_info.energy_now as usize,
                        last_remain_time_notify_sec: if notify_due {
                            now
                        } else {
                            old(self).last_remain_time_notify_sec
                        },
                        last_remain_time_label_time: if label_due {
                            now
                        } else {
                            old(self).last_remain_time_label_time
                        },
                        ..*old(self)
                    })
                } else {
                    &&& notify is None
                    &&& *final(self) == (BatDiff {
                        last_record_seconds: now,
                        time_diff: td as usize,
                        energy_diff: 0,
                        last_record_energy: battery_info.energy_now as usize,
                        ..*old(self)
                    })
                }
            }),
    {
        let status = battery_info.status;
        if status != PowerStatus::Discharging {
            callback(None);
            return None;
        }
        let time_cost = now - self.last_record_seconds;
        self.last_record_seconds = now;
        if time_cost < INTERVAL + 3 {
            self.time_diff = match self.time_diff.checked_add(time_cost) {
                Some(t) => t,
                None => usize::MAX,
            };
        }
        let energy_now = battery_info.energy_now as usize;
        let cap_diff = if self.last_record_energy >= energy_now {
            self.last_record_energy - energy_now
        } else {
            0
        };
        self.energy_diff = match self.energy_diff.checked_add(cap_diff) {
            Some(e) => e,
            None => usize::MAX,
        };
        self.last_record_energy = energy_now;
        if self.energy_diff > 0 {
            proof {
                assert((energy_now as int) * (self.time_diff as int) <= 0xffff_ffff
                    * 0xffff_ffff_ffff_ffff) by (nonlinear_arith)
                    requires
                        0 <= energy_now as int <= 0xffff_ffff,
                        0 <= self.time_diff as int <= 0xffff_ffff_ffff_ffff,
                ;
            }
            let product: u128 = (energy_now as u128) * (self.time_diff as u128);
            let q: u128 = product / (self.energy_diff as u128);
            let remain_secs: usize = if q > usize::MAX as u128 {
                usize::MAX
            } else {
                q as usize
            };
            let mut notify: Option<usize> = None;
            let since_notify = if now >= self.last_remain_time_notify_sec {
                now - self.last_remain_time_notify_sec
            } else {
                0
            };
            if battery_info.get_percent() < 30 && since_notify > 300 {
                notify = Some(remain_secs);
                self.last_remain_time_notify_sec = now;
            }
            let since_label = if now >= self.last_remain_time_label_time {
                now - self.last_remain_time_label_time
            } else {
                0
            };
            if since_label > 30 {
                callback(Some(remain_secs));
                self.last_remain_time_label_time = now;
            }
            notify
        } else {
            callback(None);
            None
        }
    }
}

} // verus!
