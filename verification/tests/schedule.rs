use eddystone_beacon::advert::Advertisement;
use eddystone_beacon::advert::ADV_DATA_CAPACITY;
use eddystone_beacon::advert::ADV_STRUCTURE_OVERHEAD;
use eddystone_beacon::advert::EDDYSTONE_UUID;
use eddystone_beacon::frames::TLM_FRAME_TYPE;
use eddystone_beacon::identity::AddressKind;
use eddystone_beacon::identity::DeviceAddress;
use eddystone_beacon::scheduler::Action;
use eddystone_beacon::scheduler::Event;
use eddystone_beacon::scheduler::Phase;
use eddystone_beacon::scheduler::Scheduler;
use eddystone_beacon::scheduler::PERIOD_TICKS;
use eddystone_beacon::scheduler::SENSOR_INDEX_SENTINEL;

fn node() -> Scheduler {
    let id = DeviceAddress {
        bytes: [0xA1, 0xA2, 0xA3, 0xA4, 0xA5, 0xA6],
        kind: AddressKind::Random,
    };
    Scheduler::new(id, SENSOR_INDEX_SENTINEL)
}

/// A platform double that records what it was asked to do, in order.
#[derive(Clone, Copy, PartialEq, Eq, Debug)]
enum Call {
    ConfigureTimerPeriod(u32),
    EnableCompareInterrupt,
    ClearTimer,
    StartTimer,
    ClearCompareEvent,
    MeasureTemperature,
    Broadcast(u8),
}

fn execute(actions: &[Action], log: &mut Vec<Call>) {
    for action in actions {
        log.push(match action {
            Action::ConfigureTimerPeriod(t) => Call::ConfigureTimerPeriod(*t),
            Action::EnableCompareInterrupt => Call::EnableCompareInterrupt,
            Action::ClearTimer => Call::ClearTimer,
            Action::StartTimer => Call::StartTimer,
            Action::ClearCompareEvent => Call::ClearCompareEvent,
            Action::MeasureTemperature => Call::MeasureTemperature,
            Action::Advertise(adv) => Call::Broadcast(adv.service_data[0]),
        });
    }
}

#[test]
fn arming_configures_and_starts_the_timer() {
    let mut sched = node();
    let mut log = Vec::new();
    execute(&sched.arm(), &mut log);
    assert_eq!(
        log,
        vec![
            Call::ConfigureTimerPeriod(PERIOD_TICKS),
            Call::EnableCompareInterrupt,
            Call::ClearTimer,
            Call::StartTimer,
        ]
    );
    assert_eq!(PERIOD_TICKS, 312_500);
}

#[test]
fn acknowledgment_is_the_first_effect_of_a_firing() {
    let mut sched = node();
    sched.arm();
    let mut log = Vec::new();
    execute(&sched.step(Event::CompareFired), &mut log);
    // The event is cleared before any other work, measurement included.
    assert_eq!(log[0], Call::ClearCompareEvent);
    assert_eq!(log, vec![Call::ClearCompareEvent, Call::MeasureTemperature]);
}

#[test]
fn uid_is_broadcast_strictly_before_tlm() {
    let mut sched = node();
    sched.arm();
    sched.step(Event::CompareFired);
    let actions = sched.step(Event::TemperatureRead(102));
    assert_eq!(actions.len(), 2);
    let Action::Advertise(uid) = &actions[0] else {
        panic!("first action is not a broadcast");
    };
    let Action::Advertise(tlm) = &actions[1] else {
        panic!("second action is not a broadcast");
    };
    // UID first: its frame type byte is zero; TLM second.
    assert_eq!(uid.service_data[0], 0x00);
    assert_eq!(tlm.service_data[0], TLM_FRAME_TYPE);
    // Both advertise the stored address with the big-endian sensor index
    // overlaid at bytes 3-4; the stored identity itself is untouched.
    assert_eq!(uid.address.bytes, [0xA1, 0xA2, 0xA3, 0xFF, 0xFF, 0xA6]);
    assert_eq!(tlm.address.bytes, uid.address.bytes);
    assert_eq!(sched.identity.bytes, [0xA1, 0xA2, 0xA3, 0xA4, 0xA5, 0xA6]);
    assert_eq!(uid.service_uuid, EDDYSTONE_UUID);
    assert_eq!(tlm.service_uuid, EDDYSTONE_UUID);
}

#[test]
fn broadcasts_advertise_the_overlaid_derived_address() {
    // Full path from the factory words: derive, fire once, and check the
    // over-the-air device address.
    let id = eddystone_beacon::identity::derive_address(0x12345678, 0x9ABC, true);
    let mut sched = Scheduler::new(id, SENSOR_INDEX_SENTINEL);
    sched.arm();
    sched.step(Event::CompareFired);
    let actions = sched.step(Event::TemperatureRead(102));
    for action in &actions {
        let Action::Advertise(adv) = action else {
            panic!("expected only broadcasts");
        };
        assert_eq!(adv.address.bytes, [0x78, 0x56, 0x34, 0xFF, 0xFF, 0x9A]);
        assert!(matches!(adv.address.kind, AddressKind::Public));
    }
    // The derived identity keeps its own bytes: the overlay is on a copy.
    assert_eq!(sched.identity.bytes, [0x78, 0x56, 0x34, 0x12, 0xBC, 0x9A]);
}

#[test]
fn broadcast_frames_carry_the_encoded_payloads() {
    let mut sched = node();
    sched.arm();
    sched.step(Event::CompareFired);
    let actions = sched.step(Event::TemperatureRead(-40));
    let Action::Advertise(uid) = &actions[0] else {
        panic!("first action is not a broadcast");
    };
    let Action::Advertise(tlm) = &actions[1] else {
        panic!("second action is not a broadcast");
    };
    assert_eq!(
        uid.service_data,
        vec![
            0x00, 0x04, 0xDE, 0xAD, 0xBE, 0xEF, 0xA1, 0xA2, 0xA3, 0xFF, 0xFF, 0xA6, 0x00, 0xC0,
            0xFF, 0xEE, 0xFF, 0xFF, 0x00, 0x00,
        ]
    );
    assert_eq!(
        tlm.service_data,
        vec![0x20, 0, 0, 0, 0xF6, 0x00, 0, 0, 0, 0, 0, 0, 0, 0]
    );
}

#[test]
fn advertisements_fit_the_minimum_packet_buffer() {
    let mut sched = node();
    sched.arm();
    sched.step(Event::CompareFired);
    let actions = sched.step(Event::TemperatureRead(0));
    for action in &actions {
        let Action::Advertise(adv) = action else {
            panic!("expected only broadcasts");
        };
        assert!(adv.service_data.len() + ADV_STRUCTURE_OVERHEAD <= ADV_DATA_CAPACITY);
    }
}

#[test]
fn n_periods_produce_exactly_n_broadcast_pairs() {
    // A simulated clock fires the compare event five times; each firing
    // hands back one reading. Exactly five UID/TLM pairs must go out.
    let readings: [i32; 5] = [0, 102, -40, 511, -512];
    let mut sched = node();
    let mut log = Vec::new();
    sched.arm();
    for reading in readings {
        execute(&sched.step(Event::CompareFired), &mut log);
        execute(&sched.step(Event::TemperatureRead(reading)), &mut log);
    }
    assert_eq!(log.len(), 4 * readings.len());
    let mut pairs = 0;
    for chunk in log.chunks(4) {
        assert_eq!(chunk[0], Call::ClearCompareEvent);
        assert_eq!(chunk[1], Call::MeasureTemperature);
        assert_eq!(chunk[2], Call::Broadcast(0x00));
        assert_eq!(chunk[3], Call::Broadcast(TLM_FRAME_TYPE));
        pairs += 1;
    }
    assert_eq!(pairs, readings.len());
}

#[test]
fn the_phase_returns_to_armed_after_each_firing() {
    let mut sched = node();
    assert!(matches!(sched.phase, Phase::Uninitialized));
    sched.arm();
    assert!(matches!(sched.phase, Phase::Armed));
    sched.step(Event::CompareFired);
    assert!(matches!(sched.phase, Phase::Firing));
    sched.step(Event::TemperatureRead(0));
    assert!(matches!(sched.phase, Phase::Armed));
}

#[test]
fn build_advertisement_wraps_the_frame_unchanged() {
    let id = DeviceAddress {
        bytes: [1, 2, 3, 4, 5, 6],
        kind: AddressKind::Public,
    };
    let frame = [0x20, 0, 0, 0, 0x19, 0x80, 0, 0, 0, 0, 0, 0, 0, 0];
    let adv: Advertisement = eddystone_beacon::advert::build_advertisement(id, &frame);
    assert_eq!(adv.service_uuid, EDDYSTONE_UUID);
    assert_eq!(adv.service_data, frame.to_vec());
    assert_eq!(adv.address.bytes, [1, 2, 3, 4, 5, 6]);
}
