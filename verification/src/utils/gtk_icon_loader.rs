use vstd::prelude::*;

verus! {

/// The icons the bar uses, by role.
#[derive(PartialEq, Clone)]
pub enum IconName {
    CPU,
    RAM,
    WIFI,
    BatteryFull,
    BatteryHigh,
    BatteryMid,
    BatteryLow,
    BatteryEmpty,
    BatteryUnk,
    BattetyPSCharging,
    BatteryPSNotCharging,
    BatteryPSDisconnected,
    BatteryPSUnk,
    BatteryCMOn,
    BatteryCMOff,
    BatteryCMUnk,
    Headphone,
    Headset,
    VolumeHigh,
    VolumeMidium,
    VolumeLow,
    VolumeMute,
}

} // verus!
