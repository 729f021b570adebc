use vstd::prelude::*;

pub mod pulse;
pub mod session;

verus! {

/// Commands that consumers send into the audio block.
#[derive(Clone)]
pub enum PulseBM {
    ToggleMute,
    SetVolume(u32),
    Increase(u32),
    Decrease(u32),
    GetVolume,
}

/// Which default-device namespace a name belongs to.
#[derive(Debug, Clone, Copy, PartialEq, Eq, Hash, Structural)]
pub enum DeviceKind {
    Sink,
    Source,
}

/// Rough classification of a device, derived from its form factor and
/// active port.
#[derive(Clone, Debug)]
pub enum DeviceType {
    Headset,
    Headphone,
    HandsFree,
    Portable,
    Default,
}

/// Notifications that the audio block sends out to consumers.
#[derive(Clone)]
pub enum PulseWM {
    Muted(bool),
    Volume(u32),
    Earphone(bool),
    Full { muted: bool, vol: u32, device_type: DeviceType },
}

use crate::audio::pulse::Device;
use crate::audio::pulse::apply_step_spec;
use crate::audio::pulse::percent_to_units;
use crate::audio::pulse::opt_view;
use crate::audio::pulse::VOLUME_MAX;
use crate::strutil::seq_contains_sub;
use crate::strutil::str_contains;
use crate::strutil::str_eq;
use crate::util::gtk_icon_loader::StatusName;

/// True when the device matches one classification key: its form factor
/// is exactly the key, or its active port mentions the key.
pub open spec fn matches_kind(
    ff: Option<Seq<char>>,
    ap: Option<Seq<char>>,
    key: Seq<char>,
) -> bool {
    ff == Some(key) || match ap {
        Some(p) => seq_contains_sub(p, key),
        None => false,
    }
}

/// The classification a device's form factor and active port yield,
/// checking headset, headphone, hands-free and portable in that order.
pub open spec fn classify_spec(ff: Option<Seq<char>>, ap: Option<Seq<char>>) -> DeviceType {
    if matches_kind(ff, ap, "headset"@) {
        DeviceType::Headset
    } else if matches_kind(ff, ap, "headphone"@) {
        DeviceType::Headphone
    } else if matches_kind(ff, ap, "hands-free"@) {
        DeviceType::HandsFree
    } else if matches_kind(ff, ap, "portable"@) {
        DeviceType::Portable
    } else {
        DeviceType::Default
    }
}

fn matches_key(device: &Device, active_port: &Option<String>, key: &str) -> (r: bool)
    requires
        opt_view(*active_port) == device@.active_port,
    ensures
        r == matches_kind(device@.form_factor, device@.active_port, key@),
{
    match device.form_factor() {
        Some(f) => {
            if str_eq(f, key) {
                return true;
            }
        },
        None => {},
    }
    match active_port {
        Some(p) => str_contains(p.as_str(), key),
        None => false,
    }
}

/// Classifies a device from its cached form factor and active port.
pub fn is_headphone(device: &Device) -> (t: DeviceType)
    ensures
        t == classify_spec(device@.form_factor, device@.active_port),
{
    let active_port = device.active_port();
    if matches_key(device, &active_port, "headset") {
        return DeviceType::Headset;
    }
    if matches_key(device, &active_port, "headphone") {
        return DeviceType::Headphone;
    }
    if matches_key(device, &active_port, "hands-free") {
        return DeviceType::HandsFree;
    }
    if matches_key(device, &active_port, "portable") {
        return DeviceType::Portable;
    }
    DeviceType::Default
}

/// What the audio block does with one inbound command.
#[derive(Debug, Clone, Copy, PartialEq, Eq, Structural)]
pub enum CommandAction {
    /// Flip the mute flag and tell the daemon.
    Toggle,
    /// Apply a relative volume step, capped at the given percentage.
    ApplyVolume { step: i32, max_vol: Option<u32> },
    /// A volume step arrived too soon after the last one; drop it.
    RateLimited,
    /// Refresh the cached state from the registry and notify consumers.
    FetchInfo,
    /// Nothing to do.
    Idle,
}

/// The block's reaction to each command: toggles and fetches always go
/// through; volume steps are dropped unless more than 100 ms have passed
/// since the last applied step, and are capped at 150 % of normal.
pub open spec fn handle_command_spec(cmd: PulseBM, now_ms: u64, last_ms: u64) -> CommandAction {
    match cmd {
        PulseBM::ToggleMute => CommandAction::Toggle,
        PulseBM::SetVolume(_) => CommandAction::Idle,
        PulseBM::Increase(v) => if now_ms - last_ms > 100 {
            CommandAction::ApplyVolume { step: v as i32, max_vol: Some(150) }
        } else {
            CommandAction::RateLimited
        },
        PulseBM::Decrease(v) => if now_ms - last_ms > 100 {
            CommandAction::ApplyVolume { step: (-(v as int)) as i32, max_vol: Some(150) }
        } else {
            CommandAction::RateLimited
        },
        PulseBM::GetVolume => CommandAction::FetchInfo,
    }
}

/// Decides what to do with one inbound command, given the current time
/// and the time the last volume step was applied, in milliseconds.
pub fn handle_command(cmd: &PulseBM, now_ms: u64, last_ms: u64) -> (a: CommandAction)
    requires
        cmd matches PulseBM::Increase(v) ==> v <= 0x7fff_ffff,
        cmd matches PulseBM::Decrease(v) ==> v <= 0x7fff_ffff,
    ensures
        a == handle_command_spec(*cmd, now_ms, last_ms),
{
    match cmd {
        PulseBM::ToggleMute => CommandAction::Toggle,
        PulseBM::SetVolume(_) => CommandAction::Idle,
        PulseBM::Increase(v) => {
            if now_ms > last_ms && now_ms - last_ms > 100 {
                CommandAction::ApplyVolume { step: *v as i32, max_vol: Some(150) }
            } else {
                CommandAction::RateLimited
            }
        },
        PulseBM::Decrease(v) => {
            if now_ms > last_ms && now_ms - last_ms > 100 {
                CommandAction::ApplyVolume { step: -(*v as i32), max_vol: Some(150) }
            } else {
                CommandAction::RateLimited
            }
        },
        PulseBM::GetVolume => CommandAction::FetchInfo,
    }
}

/// The notification sent to consumers after a state change: the cached
/// mute flag, the cached average volume, and the device classification.
pub fn vol_changed(device: &Device) -> (m: PulseWM)
    ensures
        m == (PulseWM::Full {
            muted: device@.muted,
            vol: device@.volume_avg,
            device_type: classify_spec(device@.form_factor, device@.active_port),
        }),
{
    let device_type = is_headphone(device);
    let muted = device.muted();
    let vol = device.volume();
    PulseWM::Full { muted, vol, device_type }
}

/// The icon that belongs to a volume level: the mute icon when muted,
/// else low up to 30 %, medium up to 65 %, high above.
pub open spec fn volume_status_spec(muted: bool, vol: u32) -> StatusName {
    if muted {
        StatusName::VolumeMute
    } else if vol <= 30 {
        StatusName::VolumeLow
    } else if vol <= 65 {
        StatusName::VolumeMedium
    } else {
        StatusName::VolumeHigh
    }
}

/// Picks the status icon for a mute flag and volume percentage.
pub fn volume_status_name(muted: bool, vol: u32) -> (s: StatusName)
    ensures
        s == volume_status_spec(muted, vol),
{
    if muted {
        StatusName::VolumeMute
    } else if vol <= 30 {
        StatusName::VolumeLow
    } else if vol <= 65 {
        StatusName::VolumeMedium
    } else {
        StatusName::VolumeHigh
    }
}

/// However a volume step lands, the resulting volume of every channel
/// stays within the protocol's range, and within the given cap.
pub proof fn lemma_apply_step_bounds(v: int, step: int, max_vol: Option<u32>)
    requires
        v >= 0,
    ensures
        0 <= apply_step_spec(v, step, max_vol) <= VOLUME_MAX,
        max_vol matches Some(m) ==> apply_step_spec(v, step, max_vol) <= percent_to_units(
            m as int,
        ),
{
}

} // verus!
