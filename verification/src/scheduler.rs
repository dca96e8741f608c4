//! The periodic broadcast schedule as an explicit state machine.
//!
//! The hardware side — timer registers, the radio, the sensor — stays
//! outside this crate. Here the schedule is a function from the current
//! phase and an incoming hardware event to the next phase and the list of
//! actions the platform must perform, in order. The interrupt handler
//! feeds events in and executes the returned actions; everything it may
//! do is therefore pinned down and proved here.

use vstd::prelude::*;
use crate::advert::Advertisement;
use crate::advert::EDDYSTONE_UUID;
use crate::advert::build_advertisement;
use crate::frames::encode_tlm;
use crate::frames::encode_uid;
use crate::frames::tlm_frame_bytes;
use crate::frames::uid_frame_bytes;
use crate::identity::DeviceAddress;
use crate::identity::sensor_overlaid_bytes;
use crate::temperature::Temperature;
use crate::temperature::native_in_range;

verus! {

/// Frequency of the beacon timer after prescaling, in ticks per second.
pub const TIMER_HZ: u32 = 31250;

/// The broadcast period in seconds.
pub const BEACON_PERIOD_SECONDS: u32 = 10;

/// Compare value programmed into the beacon timer: one period in ticks.
pub const PERIOD_TICKS: u32 = TIMER_HZ * BEACON_PERIOD_SECONDS;

/// Sensor index of the single on-board sensor: the reserved maximum
/// value, kept for a future multi-sensor extension.
pub const SENSOR_INDEX_SENTINEL: u16 = 0xFFFF;

/// A hardware event handed to the schedule: the periodic compare
/// interrupt fired, or the sensor returned a native quarter-degree
/// temperature reading.
#[derive(Clone, Copy, PartialEq, Eq, Structural, Debug)]
pub enum Event {
    CompareFired,
    TemperatureRead(i32),
}

/// One operation the platform must perform on behalf of the schedule,
/// in the order returned.
pub enum Action {
    /// Program the timer's compare channel with [`PERIOD_TICKS`].
    ConfigureTimerPeriod(u32),
    /// Enable the compare channel's interrupt.
    EnableCompareInterrupt,
    /// Reset the timer's counter to zero.
    ClearTimer,
    /// Start the timer counting.
    StartTimer,
    /// Acknowledge the pending compare event.
    ClearCompareEvent,
    /// Take one temperature measurement and hand it back as an event.
    MeasureTemperature,
    /// Broadcast one advertisement.
    Advertise(Advertisement),
}

/// The shape of an [`Action`] with its payload forgotten: the alphabet of
/// the schedule's observable traces.
#[derive(Clone, Copy, PartialEq, Eq, Structural, Debug)]
pub enum ActionKind {
    ConfigureTimerPeriod,
    EnableCompareInterrupt,
    ClearTimer,
    StartTimer,
    ClearCompareEvent,
    MeasureTemperature,
    AdvertiseUid,
    AdvertiseTlm,
}

/// The kind of an action. An advertisement counts as a UID broadcast
/// exactly when its payload opens with the UID frame type, byte zero.
pub open spec fn action_kind(a: Action) -> ActionKind {
    match a {
        Action::ConfigureTimerPeriod(_) => ActionKind::ConfigureTimerPeriod,
        Action::EnableCompareInterrupt => ActionKind::EnableCompareInterrupt,
        Action::ClearTimer => ActionKind::ClearTimer,
        Action::StartTimer => ActionKind::StartTimer,
        Action::ClearCompareEvent => ActionKind::ClearCompareEvent,
        Action::MeasureTemperature => ActionKind::MeasureTemperature,
        Action::Advertise(adv) => if adv.service_data@.len() > 0 && adv.service_data@[0] == 0u8 {
            ActionKind::AdvertiseUid
        } else {
            ActionKind::AdvertiseTlm
        },
    }
}

/// The kinds of a whole action list, in order.
pub open spec fn kinds_of(acts: Seq<Action>) -> Seq<ActionKind> {
    acts.map_values(|a: Action| action_kind(a))
}

/// Where the schedule stands: not yet armed, armed and waiting for the
/// timer, or inside a firing waiting for the temperature reading.
#[derive(Clone, Copy, PartialEq, Eq, Structural, Debug)]
pub enum Phase {
    Uninitialized,
    Armed,
    Firing,
}

/// The resources the periodic logic owns: the device identity derived at
/// startup, the node's sensor index, and the schedule's phase. Built once
/// during initialization and from then on touched only by the interrupt
/// handler — the hardware handles it drives live with the platform.
pub struct Scheduler {
    pub identity: DeviceAddress,
    pub sensor_index: u16,
    pub phase: Phase,
}

/// The phase after one event.
pub open spec fn step_phase(p: Phase, e: Event) -> Phase {
    match (p, e) {
        (Phase::Armed, Event::CompareFired) => Phase::Firing,
        (Phase::Firing, Event::TemperatureRead(_)) => Phase::Armed,
        _ => p,
    }
}

/// The trace one event adds: acknowledging the compare event and then
/// measuring when the timer fires; the UID broadcast and then the TLM
/// broadcast once the reading arrives.
pub open spec fn step_kinds(p: Phase, e: Event) -> Seq<ActionKind> {
    match (p, e) {
        (Phase::Armed, Event::CompareFired) => seq![
            ActionKind::ClearCompareEvent,
            ActionKind::MeasureTemperature,
        ],
        (Phase::Firing, Event::TemperatureRead(_)) => seq![
            ActionKind::AdvertiseUid,
            ActionKind::AdvertiseTlm,
        ],
        _ => Seq::empty(),
    }
}

/// An event the schedule is prepared for in phase `p`: the compare
/// interrupt only while armed, a reading — representable in 8.8 — only
/// while firing.
pub open spec fn event_expected(p: Phase, e: Event) -> bool {
    match (p, e) {
        (Phase::Armed, Event::CompareFired) => true,
        (Phase::Firing, Event::TemperatureRead(r)) => native_in_range(r),
        _ => false,
    }
}

impl Scheduler {
    /// Take ownership of the derived identity and sensor index; the
    /// schedule starts out uninitialized.
    pub fn new(identity: DeviceAddress, sensor_index: u16) -> (s: Scheduler)
        ensures
            s.identity == identity,
            s.sensor_index == sensor_index,
            s.phase == Phase::Uninitialized,
    {
        Scheduler { identity, sensor_index, phase: Phase::Uninitialized }
    }

    /// One-time arming: the timer operations that configure the period,
    /// enable the compare interrupt and start the counter, in order.
    /// After this the schedule is armed for the rest of the device's life.
    pub fn arm(&mut self) -> (acts: Vec<Action>)
        requires
            old(self).phase == Phase::Uninitialized,
        ensures
            final(self).phase == Phase::Armed,
            final(self).identity == old(self).identity,
            final(self).sensor_index == old(self).sensor_index,
            acts@.len() == 4,
            acts@[0] == Action::ConfigureTimerPeriod(PERIOD_TICKS),
            acts@[1] == Action::EnableCompareInterrupt,
            acts@[2] == Action::ClearTimer,
            acts@[3] == Action::StartTimer,
    {
        self.phase = Phase::Armed;
        let mut acts: Vec<Action> = Vec::new();
        acts.push(Action::ConfigureTimerPeriod(PERIOD_TICKS));
        acts.push(Action::EnableCompareInterrupt);
        acts.push(Action::ClearTimer);
        acts.push(Action::StartTimer);
        acts
    }

    /// Advance the schedule by one event.
    ///
    /// When the compare interrupt fires, the first action is always the
    /// event acknowledgment, before any other work; the measurement
    /// follows. When the reading arrives, exactly two broadcasts are
    /// ordered: the UID frame strictly first, then the TLM frame, both
    /// advertising a working copy of the stored address with the
    /// big-endian sensor index overwritten into bytes 3 and 4. The
    /// stored identity itself is never changed.
    pub fn step(&mut self, event: Event) -> (acts: Vec<Action>)
        requires
            event_expected(old(self).phase, event),
        ensures
            final(self).identity == old(self).identity,
            final(self).sensor_index == old(self).sensor_index,
            final(self).phase == step_phase(old(self).phase, event),
            kinds_of(acts@) == step_kinds(old(self).phase, event),
            old(self).phase == Phase::Armed ==> {
                &&& acts@.len() == 2
                &&& acts@[0] == Action::ClearCompareEvent
                &&& acts@[1] == Action::MeasureTemperature
            },
            old(self).phase == Phase::Firing ==> {
                &&& acts@.len() == 2
                &&& (event matches Event::TemperatureRead(r) ==> {
                    &&& (acts@[0] matches Action::Advertise(adv) && {
                        &&& adv.wf()
                        &&& adv.address.bytes@ == sensor_overlaid_bytes(
                            old(self).identity.bytes@,
                            old(self).sensor_index,
                        )
                        &&& adv.address.kind == old(self).identity.kind
                        &&& adv.service_uuid == EDDYSTONE_UUID
                        &&& adv.service_data@ == uid_frame_bytes(
                            old(self).identity.bytes@,
                            old(self).sensor_index,
                        )
                    })
                    &&& (acts@[1] matches Action::Advertise(adv) && {
                        &&& adv.wf()
                        &&& adv.address.bytes@ == sensor_overlaid_bytes(
                            old(self).identity.bytes@,
                            old(self).sensor_index,
                        )
                        &&& adv.address.kind == old(self).identity.kind
                        &&& adv.service_uuid == EDDYSTONE_UUID
                        &&& adv.service_data@ == tlm_frame_bytes((r * 64) as i16)
                    })
                })
            },
    {
        match event {
            Event::CompareFired => {
                self.phase = Phase::Firing;
                let mut acts: Vec<Action> = Vec::new();
                acts.push(Action::ClearCompareEvent);
                acts.push(Action::MeasureTemperature);
                proof {
                    assert(kinds_of(acts@) =~= step_kinds(old(self).phase, event));
                }
                acts
            },
            Event::TemperatureRead(native_raw) => {
                self.phase = Phase::Armed;
                let temperature = Temperature::from_native(native_raw);
                let advertised = self.identity.with_sensor_index(self.sensor_index);
                let uid_frame = encode_uid(&self.identity, self.sensor_index);
                let tlm_frame = encode_tlm(temperature);
                let uid_adv = build_advertisement(
                    advertised,
                    vstd::array::array_as_slice(&uid_frame),
                );
                let tlm_adv = build_advertisement(
                    advertised,
                    vstd::array::array_as_slice(&tlm_frame),
                );
                let mut acts: Vec<Action> = Vec::new();
                acts.push(Action::Advertise(uid_adv));
                acts.push(Action::Advertise(tlm_adv));
                proof {
                    assert(kinds_of(acts@) =~= step_kinds(old(self).phase, event));
                }
                acts
            },
        }
    }
}

/// The trace of one complete firing: acknowledge, measure, broadcast the
/// UID frame, broadcast the TLM frame.
pub open spec fn firing_block() -> Seq<ActionKind> {
    seq![
        ActionKind::ClearCompareEvent,
        ActionKind::MeasureTemperature,
        ActionKind::AdvertiseUid,
        ActionKind::AdvertiseTlm,
    ]
}

/// The trace of `n` complete firings, one [`firing_block`] per firing.
pub open spec fn firing_kinds(n: nat) -> Seq<ActionKind>
    decreases n,
{
    if n == 0 {
        Seq::empty()
    } else {
        firing_block() + firing_kinds((n - 1) as nat)
    }
}

/// The event sequence of consecutive periods: for each reading, one
/// compare interrupt followed by that reading.
pub open spec fn firing_events(readings: Seq<i32>) -> Seq<Event>
    decreases readings.len(),
{
    if readings.len() == 0 {
        Seq::empty()
    } else {
        seq![Event::CompareFired, Event::TemperatureRead(readings[0])] + firing_events(
            readings.drop_first(),
        )
    }
}

/// The phase after a whole event sequence.
pub open spec fn run_phase(p: Phase, events: Seq<Event>) -> Phase
    decreases events.len(),
{
    if events.len() == 0 {
        p
    } else {
        run_phase(step_phase(p, events[0]), events.drop_first())
    }
}

/// The trace a whole event sequence produces, in order.
pub open spec fn run_kinds(p: Phase, events: Seq<Event>) -> Seq<ActionKind>
    decreases events.len(),
{
    if events.len() == 0 {
        Seq::empty()
    } else {
        step_kinds(p, events[0]) + run_kinds(step_phase(p, events[0]), events.drop_first())
    }
}

/// How often a kind occurs in a trace.
pub open spec fn count_kind(kinds: Seq<ActionKind>, k: ActionKind) -> int
    decreases kinds.len(),
{
    if kinds.len() == 0 {
        0
    } else {
        (if kinds[0] == k {
            1int
        } else {
            0int
        }) + count_kind(kinds.drop_first(), k)
    }
}

/// Counting distributes over concatenation of traces.
pub proof fn lemma_count_kind_concat(a: Seq<ActionKind>, b: Seq<ActionKind>, k: ActionKind)
    ensures
        count_kind(a + b, k) == count_kind(a, k) + count_kind(b, k),
    decreases a.len(),
{
    if a.len() == 0 {
        assert(a + b =~= b);
    } else {
        assert((a + b).drop_first() =~= a.drop_first() + b);
        lemma_count_kind_concat(a.drop_first(), b, k);
    }
}

/// Acknowledgment comes first: whenever the compare interrupt fires, the
/// very first action of the handler is clearing the compare event — the
/// measurement, and with it any dependence on the reading, only follows.
pub proof fn lemma_ack_is_first_effect()
    ensures
        step_kinds(Phase::Armed, Event::CompareFired) == seq![
            ActionKind::ClearCompareEvent,
            ActionKind::MeasureTemperature,
        ],
        step_kinds(Phase::Armed, Event::CompareFired)[0] == ActionKind::ClearCompareEvent,
{
}

/// Broadcast order: whatever reading a firing delivers, the firing's
/// broadcasts are exactly the UID frame strictly before the TLM frame.
pub proof fn lemma_uid_before_tlm(r: i32)
    ensures
        step_kinds(Phase::Firing, Event::TemperatureRead(r)) == seq![
            ActionKind::AdvertiseUid,
            ActionKind::AdvertiseTlm,
        ],
{
}

/// Every firing in a trace of `n` firings has the same shape: position
/// `i` holds the `i % 4`-th entry of [`firing_block`], so each period
/// acknowledges first and broadcasts UID before TLM.
pub proof fn lemma_firing_trace_shape(n: nat)
    ensures
        firing_kinds(n).len() == 4 * n,
        forall|i: int|
            0 <= i < 4 * n ==> #[trigger] firing_kinds(n)[i] == firing_block()[i % 4],
    decreases n,
{
    if n > 0 {
        lemma_firing_trace_shape((n - 1) as nat);
        assert forall|i: int| 0 <= i < 4 * n implies #[trigger] firing_kinds(n)[i]
            == firing_block()[i % 4] by {
            if i >= 4 {
                assert(firing_kinds(n)[i] == firing_kinds((n - 1) as nat)[i - 4]);
                assert((i - 4) % 4 == i % 4);
            } else {
                assert(i % 4 == i);
            }
        }
    }
}

/// Monotonic periodicity: starting armed, `n` consecutive compare events
/// with their readings drive the schedule through exactly `n` firings —
/// the trace is exactly `n` firing blocks and the schedule is armed again
/// at the end, ready for the next period.
pub proof fn lemma_periodic_run(readings: Seq<i32>)
    ensures
        run_phase(Phase::Armed, firing_events(readings)) == Phase::Armed,
        run_kinds(Phase::Armed, firing_events(readings)) == firing_kinds(readings.len()),
    decreases readings.len(),
{
    if readings.len() > 0 {
        let rest = firing_events(readings.drop_first());
        let evs = firing_events(readings);
        let tail = seq![Event::TemperatureRead(readings[0])] + rest;
        assert(evs.drop_first() =~= tail);
        assert(tail.drop_first() =~= rest);
        lemma_periodic_run(readings.drop_first());
        assert(evs[0] == Event::CompareFired);
        assert(run_kinds(Phase::Armed, evs) == step_kinds(Phase::Armed, Event::CompareFired)
            + run_kinds(Phase::Firing, tail));
        assert(tail[0] == Event::TemperatureRead(readings[0]));
        assert(run_kinds(Phase::Firing, tail) == step_kinds(
            Phase::Firing,
            Event::TemperatureRead(readings[0]),
        ) + run_kinds(Phase::Armed, rest));
        assert(run_kinds(Phase::Armed, evs) =~= firing_kinds(readings.len()));
        assert(run_phase(Phase::Armed, evs) == run_phase(Phase::Firing, tail));
        assert(run_phase(Phase::Firing, tail) == run_phase(Phase::Armed, rest));
    }
}

/// One firing block holds each of its four kinds exactly once.
proof fn lemma_firing_block_counts()
    ensures
        count_kind(firing_block(), ActionKind::AdvertiseUid) == 1,
        count_kind(firing_block(), ActionKind::AdvertiseTlm) == 1,
        count_kind(firing_block(), ActionKind::ClearCompareEvent) == 1,
        count_kind(firing_block(), ActionKind::MeasureTemperature) == 1,
{
    reveal_with_fuel(count_kind, 5);
    let b = firing_block();
    assert(b.drop_first()[0] == b[1]);
    assert(b.drop_first().drop_first()[0] == b[2]);
    assert(b.drop_first().drop_first().drop_first()[0] == b[3]);
    assert(b.drop_first().drop_first().drop_first().drop_first().len() == 0);
}

/// Exactly `n` broadcast pairs: over `n` consecutive periods the trace
/// holds exactly `n` UID broadcasts, `n` TLM broadcasts and `n` event
/// acknowledgments — no more, no fewer.
pub proof fn lemma_periodic_broadcast_count(readings: Seq<i32>)
    ensures
        count_kind(
            run_kinds(Phase::Armed, firing_events(readings)),
            ActionKind::AdvertiseUid,
        ) == readings.len(),
        count_kind(
            run_kinds(Phase::Armed, firing_events(readings)),
            ActionKind::AdvertiseTlm,
        ) == readings.len(),
        count_kind(
            run_kinds(Phase::Armed, firing_events(readings)),
            ActionKind::ClearCompareEvent,
        ) == readings.len(),
{
    lemma_periodic_run(readings);
    lemma_firing_kind_counts(readings.len());
}

/// Per-kind counts of the `n`-firing trace: one acknowledgment, one
/// measurement, one UID broadcast and one TLM broadcast per firing.
pub proof fn lemma_firing_kind_counts(n: nat)
    ensures
        count_kind(firing_kinds(n), ActionKind::AdvertiseUid) == n,
        count_kind(firing_kinds(n), ActionKind::AdvertiseTlm) == n,
        count_kind(firing_kinds(n), ActionKind::ClearCompareEvent) == n,
        count_kind(firing_kinds(n), ActionKind::MeasureTemperature) == n,
    decreases n,
{
    if n > 0 {
        lemma_firing_kind_counts((n - 1) as nat);
        lemma_firing_block_counts();
        lemma_count_kind_concat(firing_block(), firing_kinds((n - 1) as nat),
            ActionKind::AdvertiseUid);
        lemma_count_kind_concat(firing_block(), firing_kinds((n - 1) as nat),
            ActionKind::AdvertiseTlm);
        lemma_count_kind_concat(firing_block(), firing_kinds((n - 1) as nat),
            ActionKind::ClearCompareEvent);
        lemma_count_kind_concat(firing_block(), firing_kinds((n - 1) as nat),
            ActionKind::MeasureTemperature);
    }
}

} // verus!
