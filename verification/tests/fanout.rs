use rgbar::audio::pulse::{Client, EventListeners};
use rgbar::audio::PulseBM;

#[test]
fn dropped_receiver_is_pruned_on_next_update() {
    let mut listeners = EventListeners::new();
    let (tx_alive, rx_alive) = async_channel::bounded::<PulseBM>(8);
    let (tx_dead, rx_dead) = async_channel::bounded::<PulseBM>(8);
    listeners.register(tx_alive);
    listeners.register(tx_dead);
    assert_eq!(listeners.count(), 2);

    drop(rx_dead);
    let delivered = Client::send_update_event(&mut listeners);
    assert_eq!(delivered, vec![true, false]);
    assert_eq!(listeners.count(), 1);

    // The surviving listener got the nudge.
    assert!(matches!(rx_alive.try_recv().unwrap(), PulseBM::GetVolume));

    // A second pass keeps the survivor.
    let delivered = Client::send_update_event(&mut listeners);
    assert_eq!(delivered, vec![true]);
    assert_eq!(listeners.count(), 1);
}

#[test]
fn full_channel_keeps_its_sender_and_drops_the_oldest() {
    let mut listeners = EventListeners::new();
    let (tx, rx) = async_channel::bounded::<PulseBM>(1);
    tx.try_send(PulseBM::ToggleMute).unwrap();
    listeners.register(tx);

    // The bounded channel is full: the stale pending message is
    // displaced by the nudge rather than blocking the worker, and the
    // sender stays subscribed.
    let delivered = Client::send_update_event(&mut listeners);
    assert_eq!(delivered, vec![true]);
    assert_eq!(listeners.count(), 1);
    assert!(matches!(rx.try_recv().unwrap(), PulseBM::GetVolume));
    assert!(rx.try_recv().is_err());
}
