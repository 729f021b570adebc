use vstd::prelude::*;

verus! {

/// The status icons the bar can show.
#[derive(PartialEq, Clone, Debug)]
pub enum StatusName {
    CPU,
    RAM,
    WIFI,
    BatteryFull,
    BatteryHigh,
    BatteryMid,
    BatteryLow,
    BatteryEmpty,
    BattetyPowerCharging,
    BatteryPowerNotCharging,
    BatteryPowerDisconnected,
    BatteryPowerUnknown,
    BatteryPowerFull,
    BatteryConservationOn,
    BatteryConservationOff,
    BatteryConservationUnknown,
    Headphone,
    Headset,
    VolumeHigh,
    VolumeMedium,
    VolumeLow,
    VolumeMute,
}

} // verus!
