use rgbar::audio::pulse::{
    Client, DefaultDeviceNames, Device, DeviceRegistry, EventListeners, MainloopWaker, VolInfo,
};
use rgbar::audio::{handle_command, is_headphone, vol_changed, volume_status_name, CommandAction,
    DeviceKind, DeviceType, PulseBM, PulseWM};
use rgbar::util::gtk_icon_loader::StatusName;

fn device_with(form_factor: Option<&str>, active_port: Option<&str>) -> Device {
    let (tx_req, _rx_req) = std::sync::mpsc::channel();
    let waker = MainloopWaker::new().unwrap();
    let client = Client::new(tx_req, waker);
    let mut listeners = EventListeners::new();
    let names = DefaultDeviceNames::new();
    let (tx, _rx) = async_channel::bounded::<PulseBM>(8);
    let mut device = Device::new(
        DeviceKind::Sink,
        Some("dev".to_string()),
        tx,
        &client,
        &mut listeners,
        &names,
    )
    .unwrap();

    let mut registry = DeviceRegistry::new();
    let info = VolInfo::from_parts(
        Some("dev".to_string()),
        vec![32768],
        true,
        None,
        active_port.map(|s| s.to_string()),
        form_factor.map(|s| s.to_string()),
    )
    .unwrap();
    registry.insert(DeviceKind::Sink, info);
    device.get_info(&registry, &names).unwrap();
    device
}

#[test]
fn form_factor_and_port_classify_the_device() {
    assert!(matches!(
        is_headphone(&device_with(Some("headset"), None)),
        DeviceType::Headset
    ));
    assert!(matches!(
        is_headphone(&device_with(None, Some("analog-output-headphones"))),
        DeviceType::Headphone
    ));
    assert!(matches!(
        is_headphone(&device_with(Some("hands-free"), None)),
        DeviceType::HandsFree
    ));
    assert!(matches!(
        is_headphone(&device_with(None, Some("portable-speaker"))),
        DeviceType::Portable
    ));
    assert!(matches!(
        is_headphone(&device_with(Some("speaker"), Some("analog-output"))),
        DeviceType::Default
    ));
    assert!(matches!(
        is_headphone(&device_with(None, None)),
        DeviceType::Default
    ));
}

#[test]
fn state_change_notification_carries_the_cached_state() {
    let device = device_with(Some("headset"), None);
    match vol_changed(&device) {
        PulseWM::Full { muted, vol, device_type } => {
            assert!(muted);
            assert_eq!(vol, 50);
            assert!(matches!(device_type, DeviceType::Headset));
        }
        _ => panic!("expected a full status notification"),
    }
}

#[test]
fn volume_steps_are_rate_limited() {
    assert_eq!(
        handle_command(&PulseBM::Increase(3), 1000, 0),
        CommandAction::ApplyVolume { step: 3, max_vol: Some(150) }
    );
    assert_eq!(
        handle_command(&PulseBM::Increase(3), 1000, 950),
        CommandAction::RateLimited
    );
    assert_eq!(
        handle_command(&PulseBM::Decrease(3), 1000, 0),
        CommandAction::ApplyVolume { step: -3, max_vol: Some(150) }
    );
    assert_eq!(
        handle_command(&PulseBM::Decrease(3), 100, 1000),
        CommandAction::RateLimited
    );
    assert_eq!(handle_command(&PulseBM::ToggleMute, 0, 0), CommandAction::Toggle);
    assert_eq!(handle_command(&PulseBM::GetVolume, 0, 0), CommandAction::FetchInfo);
    assert_eq!(handle_command(&PulseBM::SetVolume(10), 0, 0), CommandAction::Idle);
}

#[test]
fn volume_levels_map_to_icons() {
    assert_eq!(volume_status_name(true, 80), StatusName::VolumeMute);
    assert_eq!(volume_status_name(false, 0), StatusName::VolumeLow);
    assert_eq!(volume_status_name(false, 30), StatusName::VolumeLow);
    assert_eq!(volume_status_name(false, 31), StatusName::VolumeMedium);
    assert_eq!(volume_status_name(false, 65), StatusName::VolumeMedium);
    assert_eq!(volume_status_name(false, 66), StatusName::VolumeHigh);
}
