use ruuvitag_sensor_rs::controller::{Action, Controller, Dispatcher, Event, Mode, SinkQueue};
use ruuvitag_sensor_rs::ruuvitag::{DeviceAddress, RuuviTag, SensorValues, SensorValuesType};

fn address(last: u8) -> DeviceAddress {
    DeviceAddress { address: [last, 1, 2, 3, 4, 5] }
}

fn tag(last: u8, time: i64) -> RuuviTag {
    RuuviTag {
        mac: address(last),
        time,
        sensor_values: SensorValuesType::Raw(SensorValues {
            temperature: Some(21000),
            humidity: None,
            pressure: Some(100000),
            acceleration: None,
            battery_voltage: Some(3000),
            tx_power: Some(4),
            movement_counter: Some(1),
            measurement_sequence_number: Some(time as u32),
        }),
    }
}

fn forwarded_time(a: Action) -> Option<i64> {
    match a {
        Action::Forward(t) => Some(t.time),
        _ => None,
    }
}

#[test]
fn find_announces_discoveries_only() {
    let c = Controller::find();
    assert!(matches!(c.handle(&Event::DeviceDiscovered(tag(1, 1))), Action::Announce(a) if a == address(1)));
    assert!(matches!(c.handle(&Event::DeviceUpdated(tag(1, 1))), Action::Skip));
}

#[test]
fn show_prints_every_event() {
    let raw = Controller::write(false);
    assert!(matches!(raw.handle(&Event::DeviceUpdated(tag(1, 1))), Action::Show(t) if matches!(t.sensor_values, SensorValuesType::Raw(_))));
    assert!(matches!(raw.handle(&Event::DeviceDiscovered(tag(1, 1))), Action::Show(_)));
    let normalized = Controller::write(true);
    match normalized.handle(&Event::DeviceDiscovered(tag(2, 7))) {
        Action::Show(t) => {
            assert!(matches!(t.sensor_values, SensorValuesType::Normalized(_)));
            assert_eq!(t.mac, address(2));
            assert_eq!(t.time, 7);
        }
        _ => panic!("expected a reading to show"),
    }
}

#[test]
fn empty_allow_list_passes_every_update() {
    let c = Controller::collect(vec![]);
    for last in 0..5u8 {
        assert_eq!(forwarded_time(c.handle(&Event::DeviceUpdated(tag(last, last as i64)))), Some(last as i64));
    }
    assert!(matches!(c.handle(&Event::DeviceDiscovered(tag(1, 1))), Action::Skip));
}

#[test]
fn allow_list_passes_listed_addresses_only() {
    let c = Controller::new(Mode::Collect { ruuvitags_macs: vec![address(3)] });
    assert_eq!(forwarded_time(c.handle(&Event::DeviceUpdated(tag(3, 9)))), Some(9));
    assert!(matches!(c.handle(&Event::DeviceUpdated(tag(4, 9))), Action::Skip));
    assert!(matches!(c.handle(&Event::DeviceDiscovered(tag(3, 9))), Action::Skip));
    assert!(Controller::is_allowed(&vec![address(1), address(3)], &address(3)));
    assert!(!Controller::is_allowed(&vec![address(1), address(3)], &address(2)));
}

#[test]
fn stalled_sink_does_not_hold_back_the_other() {
    let mut d = Dispatcher::new(Controller::collect(vec![]), 2);
    let n = 50;
    let mut seen = Vec::new();
    for i in 0..n {
        d.dispatch(&Event::DeviceUpdated(tag(1, i)));
        // sink 0 reads as it goes; sink 1 never reads
        while let Some(t) = d.receive(0) {
            seen.push(t.time);
        }
    }
    assert_eq!(seen, (0..n).collect::<Vec<i64>>());
    assert_eq!(d.sinks[1].pending.len(), n as usize);
    assert_eq!(d.receive(1).map(|t| t.time), Some(0));
}

#[test]
fn closed_sink_drops_readings() {
    let mut d = Dispatcher::new(Controller::collect(vec![address(1)]), 2);
    d.close(1);
    d.dispatch(&Event::DeviceUpdated(tag(1, 1)));
    d.dispatch(&Event::DeviceUpdated(tag(2, 2)));
    d.dispatch(&Event::DeviceUpdated(tag(1, 3)));
    assert!(d.receive(1).is_none());
    assert_eq!(d.receive(0).map(|t| t.time), Some(1));
    assert_eq!(d.receive(0).map(|t| t.time), Some(3));
    assert!(d.receive(0).is_none());
}

#[test]
fn sink_queue_is_fifo() {
    let mut q = SinkQueue::new();
    q.send(tag(1, 1));
    q.send(tag(1, 2));
    assert_eq!(q.receive().map(|t| t.time), Some(1));
    q.close();
    q.send(tag(1, 3));
    assert!(q.receive().is_none());
    assert!(!q.open);
}
