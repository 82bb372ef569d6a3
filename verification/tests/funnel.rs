use nokota::device::Device;
use nokota::event::BltEvent;
use nokota::event::Event;
use nokota::event::EventQueue;
use nokota::event::KeyPress;

fn device(address: u64) -> Device {
    Device::new(address, format!("dev{address}"), false, false, false, None)
}

#[test]
fn events_leave_the_funnel_in_arrival_order() {
    // Tick, a key, another tick, a hot-plug notification: the loop sees
    // exactly that order, then an empty funnel.
    let mut queue = EventQueue::new();
    queue.send(Event::Tick);
    queue.send(Event::Input(KeyPress::Up));
    queue.send(Event::Tick);
    queue.send(Event::Blt(BltEvent::Add(device(11))));
    assert_eq!(queue.len(), 4);

    assert!(matches!(queue.next(), Some(Event::Tick)));
    assert!(matches!(queue.next(), Some(Event::Input(KeyPress::Up))));
    assert!(matches!(queue.next(), Some(Event::Tick)));
    match queue.next() {
        Some(Event::Blt(BltEvent::Add(d))) => assert_eq!(d.address, 11),
        _ => panic!("expected the hot-plug event last"),
    }
    assert!(queue.next().is_none());
}

#[test]
fn interleaved_sends_and_takes_keep_order() {
    let mut queue = EventQueue::new();
    queue.send(Event::Input(KeyPress::Down));
    queue.send(Event::Tick);
    assert!(matches!(queue.next(), Some(Event::Input(KeyPress::Down))));
    queue.send(Event::Blt(BltEvent::Remove(3)));
    assert!(matches!(queue.next(), Some(Event::Tick)));
    assert!(matches!(queue.next(), Some(Event::Blt(BltEvent::Remove(3)))));
    assert_eq!(queue.len(), 0);
}
