use rgbar::audio::pulse::{
    Client, DefaultDeviceNames, Device, DeviceRegistry, EventListeners, MainloopWaker, PulseError,
    VolInfo, ClientRequest,
};
use rgbar::audio::{DeviceKind, PulseBM};

fn test_client() -> (Client, std::sync::mpsc::Receiver<ClientRequest>) {
    let (tx, rx) = std::sync::mpsc::channel();
    let waker = MainloopWaker::new().unwrap();
    (Client::new(tx, waker), rx)
}

fn make_device(
    name: &str,
    client: &Client,
    listeners: &mut EventListeners,
    names: &DefaultDeviceNames,
) -> (Device, async_channel::Receiver<PulseBM>) {
    let (tx, rx) = async_channel::bounded::<PulseBM>(8);
    let device = Device::new(
        DeviceKind::Sink,
        Some(name.to_string()),
        tx,
        client,
        listeners,
        names,
    )
    .unwrap();
    (device, rx)
}

fn seeded_registry(name: &str, volumes: Vec<u32>, mute: bool) -> DeviceRegistry {
    let mut registry = DeviceRegistry::new();
    let info = VolInfo::from_parts(
        Some(name.to_string()),
        volumes,
        mute,
        Some("a test device".to_string()),
        None,
        None,
    )
    .unwrap();
    registry.insert(DeviceKind::Sink, info);
    registry
}

#[test]
fn scenario_half_volume_step_up_capped() {
    let (client, rx_req) = test_client();
    let mut listeners = EventListeners::new();
    let names = DefaultDeviceNames::new();
    let (mut device, _rx) = make_device("dev", &client, &mut listeners, &names);

    // 50 % of normal on both channels.
    let registry = seeded_registry("dev", vec![32768, 32768], false);
    device.get_info(&registry, &names).unwrap();
    assert_eq!(device.volume(), 50);

    device.set_volume(10, Some(150), &client, &names).unwrap();
    assert_eq!(device.volume(), 60);

    // The worker got the seeding requests first, then the volume command.
    assert!(matches!(rx_req.try_recv().unwrap(), ClientRequest::GetDefaultDevice));
    assert!(matches!(rx_req.try_recv().unwrap(), ClientRequest::GetInfoByName(..)));
    match rx_req.try_recv().unwrap() {
        ClientRequest::SetVolumeByName(kind, name, vols) => {
            assert_eq!(kind, DeviceKind::Sink);
            assert_eq!(name, "dev");
            assert_eq!(vols, vec![39322, 39322]);
        }
        other => panic!("unexpected request: {:?}", other),
    }
}

#[test]
fn scenario_large_step_down_clamps_to_zero() {
    let (client, _rx_req) = test_client();
    let mut listeners = EventListeners::new();
    let names = DefaultDeviceNames::new();
    let (mut device, _rx) = make_device("dev", &client, &mut listeners, &names);

    let registry = seeded_registry("dev", vec![13107], false);
    device.get_info(&registry, &names).unwrap();
    assert_eq!(device.volume(), 20);

    device.set_volume(-1000, None, &client, &names).unwrap();
    assert_eq!(device.volume(), 0);
}

#[test]
fn volume_never_exceeds_cap_or_protocol_max() {
    let (client, _rx_req) = test_client();
    let mut listeners = EventListeners::new();
    let names = DefaultDeviceNames::new();
    let (mut device, _rx) = make_device("dev", &client, &mut listeners, &names);

    let registry = seeded_registry("dev", vec![65536], false);
    device.get_info(&registry, &names).unwrap();

    // A gigantic step lands exactly on the 150 % cap.
    device.set_volume(2000000, Some(150), &client, &names).unwrap();
    assert_eq!(device.volume(), 150);
}

#[test]
fn registry_miss_keeps_cached_fields() {
    let (client, _rx_req) = test_client();
    let mut listeners = EventListeners::new();
    let names = DefaultDeviceNames::new();
    let (mut device, _rx) = make_device("dev", &client, &mut listeners, &names);

    let registry = seeded_registry("dev", vec![32768, 32768], true);
    device.get_info(&registry, &names).unwrap();
    assert_eq!(device.volume(), 50);
    assert!(device.muted());
    assert_eq!(device.output_description(), Some("a test device".to_string()));

    // The same device against a registry that lacks its name.
    let empty = DeviceRegistry::new();
    device.get_info(&empty, &names).unwrap();
    assert_eq!(device.volume(), 50);
    assert!(device.muted());
    assert_eq!(device.output_description(), Some("a test device".to_string()));
}

#[test]
fn identical_update_twice_changes_nothing() {
    let (client, _rx_req) = test_client();
    let mut listeners = EventListeners::new();
    let names = DefaultDeviceNames::new();
    let (mut device, _rx) = make_device("dev", &client, &mut listeners, &names);

    let mut registry = DeviceRegistry::new();
    for _ in 0..2 {
        let info = VolInfo::from_parts(
            Some("dev".to_string()),
            vec![32768],
            false,
            Some("desc".to_string()),
            Some("port".to_string()),
            Some("headset".to_string()),
        )
        .unwrap();
        registry.insert(DeviceKind::Sink, info);
        device.get_info(&registry, &names).unwrap();
        assert_eq!(device.volume(), 50);
        assert!(!device.muted());
        assert_eq!(device.output_description(), Some("desc".to_string()));
        assert_eq!(device.active_port(), Some("port".to_string()));
        assert_eq!(device.form_factor(), Some("headset"));
    }
}

#[test]
fn optimistic_updates_apply_before_any_round_trip() {
    let (client, _rx_req) = test_client();
    let mut listeners = EventListeners::new();
    let names = DefaultDeviceNames::new();
    let (mut device, _rx) = make_device("dev", &client, &mut listeners, &names);

    let registry = seeded_registry("dev", vec![65536], false);
    device.get_info(&registry, &names).unwrap();

    // No worker is running anywhere: the cache still updates at once.
    device.set_volume(-30, None, &client, &names).unwrap();
    assert_eq!(device.volume(), 70);
    assert!(!device.muted());
    device.toggle(&client, &names).unwrap();
    assert!(device.muted());
    device.toggle(&client, &names).unwrap();
    assert!(!device.muted());
}

#[test]
fn set_volume_without_cached_volume_fails() {
    let (client, _rx_req) = test_client();
    let mut listeners = EventListeners::new();
    let names = DefaultDeviceNames::new();
    let (mut device, _rx) = make_device("dev", &client, &mut listeners, &names);

    assert_eq!(
        device.set_volume(10, None, &client, &names),
        Err(PulseError::VolumeUnknown)
    );
}

#[test]
fn dead_queue_is_reported_but_mute_still_flips() {
    let (tx, rx) = std::sync::mpsc::channel();
    let waker = MainloopWaker::new().unwrap();
    let client = Client::new(tx, waker);
    let mut listeners = EventListeners::new();
    let names = DefaultDeviceNames::new();
    let (mut device, _rx) = make_device("dev", &client, &mut listeners, &names);
    drop(rx);

    assert_eq!(device.toggle(&client, &names), Err(PulseError::Disconnected));
    assert!(device.muted());
}

#[test]
fn unnamed_device_tracks_the_default_name() {
    let (client, rx_req) = test_client();
    let mut listeners = EventListeners::new();
    let mut names = DefaultDeviceNames::new();
    let (tx, _rx) = async_channel::bounded::<PulseBM>(8);
    let device = Device::new(DeviceKind::Sink, None, tx, &client, &mut listeners, &names).unwrap();
    assert_eq!(device.name(&names), "@DEFAULT_SINK@");

    names.apply_server_info(Some("alpha".to_string()), None);
    assert_eq!(device.name(&names), "alpha");
    assert_eq!(device.output_name(&names), "alpha");
    assert_eq!(DeviceKind::Source.default_name(&names), "@DEFAULT_SOURCE@");

    drop(rx_req);
}

#[test]
fn nameless_record_is_rejected() {
    assert!(VolInfo::from_parts(None, vec![1, 2], false, None, None, None).is_none());
}

#[test]
fn request_builders_pin_what_goes_on_the_wire() {
    let (client, _rx_req) = test_client();
    let mut listeners = EventListeners::new();
    let names = DefaultDeviceNames::new();
    let (mut device, _rx) = make_device("dev", &client, &mut listeners, &names);

    // Before any cached volume, no volume command can be built.
    assert!(device.volume_request(10, Some(150), &names).is_err());

    let registry = seeded_registry("dev", vec![32768, 32768], false);
    device.get_info(&registry, &names).unwrap();

    match device.volume_request(10, Some(150), &names).unwrap() {
        ClientRequest::SetVolumeByName(kind, name, vols) => {
            assert_eq!(kind, DeviceKind::Sink);
            assert_eq!(name, "dev");
            assert_eq!(vols, vec![39322, 39322]);
        }
        other => panic!("unexpected request: {:?}", other),
    }

    match device.info_request(&names) {
        ClientRequest::GetInfoByName(kind, name) => {
            assert_eq!(kind, DeviceKind::Sink);
            assert_eq!(name, "dev");
        }
        other => panic!("unexpected request: {:?}", other),
    }

    match device.mute_request(&names) {
        ClientRequest::SetMuteByName(kind, name, mute) => {
            assert_eq!(kind, DeviceKind::Sink);
            assert_eq!(name, "dev");
            assert!(!mute);
        }
        other => panic!("unexpected request: {:?}", other),
    }
}

#[test]
fn callbacks_report_the_delivery_outcomes() {
    let mut registry = DeviceRegistry::new();
    let mut listeners = EventListeners::new();
    let (tx, rx) = async_channel::bounded::<PulseBM>(8);
    listeners.register(tx);

    let info = VolInfo::from_parts(Some("dev".to_string()), vec![1], false, None, None, None);
    let delivered = rgbar::audio::pulse::Client::sink_info_callback(
        &mut registry,
        &mut listeners,
        info,
    );
    assert_eq!(delivered, vec![true]);
    assert!(matches!(rx.try_recv().unwrap(), PulseBM::GetVolume));

    // A query that produced nothing notifies nobody.
    let delivered = rgbar::audio::pulse::Client::sink_info_callback(
        &mut registry,
        &mut listeners,
        None,
    );
    assert!(delivered.is_empty());
    assert!(rx.try_recv().is_err());
}
