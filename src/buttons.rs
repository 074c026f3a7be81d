//! Debouncing of the machine's four push-buttons.
//!
//! Each button line remembers its last accepted event. An edge on a line is
//! the line reaching the opposite of its recorded state. It is accepted when
//! at least `DEBOUNCE_INTERVAL_MS` have passed since the line's last accepted
//! event; otherwise it is contact bounce and discarded, and the line keeps
//! waiting for the same level.
use vstd::prelude::*;

use crate::time::Instant;

verus! {

/// Minimum time between two accepted transitions of one button, in milliseconds.
pub const DEBOUNCE_INTERVAL_MS: u64 = 50;

/// The kind of button that may be pressed or released.
#[derive(Clone, Copy, Debug, PartialEq, Eq, Structural)]
pub enum ButtonKind {
    /// The one cup button.
    OneCup,
    /// The two cups button.
    TwoCup,
    /// The hot water button.
    HotWater,
    /// The steam button.
    Steam,
}

/// State of a button: either `Pressed` or `Released`.
#[derive(Clone, Copy, Debug, PartialEq, Eq, Structural)]
pub enum ButtonState {
    /// The button is pressed.
    Pressed,
    /// The button is released.
    Released,
}

impl ButtonState {
    /// The other state.
    pub open spec fn spec_not(self) -> ButtonState {
        match self {
            ButtonState::Pressed => ButtonState::Released,
            ButtonState::Released => ButtonState::Pressed,
        }
    }

    /// The other state.
    pub fn not(&self) -> (r: ButtonState)
        ensures
            r == self.spec_not(),
    {
        match self {
            ButtonState::Pressed => ButtonState::Released,
            ButtonState::Released => ButtonState::Pressed,
        }
    }
}

/// A button that entered a state at some instant.
#[derive(Clone, Copy, Debug, PartialEq, Eq, Structural)]
pub struct ButtonEvent {
    /// The button that caused the event.
    pub source: ButtonKind,
    /// The state the button entered.
    pub state: ButtonState,
    /// When the button entered the state.
    pub timestamp: Instant,
}

impl ButtonEvent {
    /// The button that caused the event.
    pub open spec fn spec_source(self) -> ButtonKind {
        self.source
    }

    /// The state the button entered.
    pub open spec fn spec_state(self) -> ButtonState {
        self.state
    }

    /// When the button entered the state.
    pub open spec fn spec_timestamp(self) -> Instant {
        self.timestamp
    }

    /// The event with the given fields.
    pub open spec fn spec_new(source: ButtonKind, state: ButtonState, timestamp: Instant) -> ButtonEvent {
        ButtonEvent { source, state, timestamp }
    }

    /// Create a new button event.
    pub fn new(source: ButtonKind, state: ButtonState, timestamp: Instant) -> (r: ButtonEvent)
        ensures
            r == ButtonEvent::spec_new(source, state, timestamp),
            r.spec_source() == source,
            r.spec_state() == state,
            r.spec_timestamp() == timestamp,
    {
        ButtonEvent { source, state, timestamp }
    }

    /// The event of the same button entering the other state at `now`.
    fn state_transition(self, now: Instant) -> (r: ButtonEvent)
        ensures
            r == ButtonEvent::spec_new(self.spec_source(), self.spec_state().spec_not(), now),
    {
        ButtonEvent::new(self.source, self.state.not(), now)
    }

    /// Milliseconds from this event to `now` (zero if `now` is earlier).
    pub fn elapsed(&self, now: Instant) -> (r: u64)
        ensures
            r == now.spec_millis_since(self.spec_timestamp()),
    {
        now.millis_since(self.timestamp)
    }

    /// The button that caused the event.
    pub fn source(&self) -> (r: ButtonKind)
        ensures
            r == self.spec_source(),
    {
        self.source
    }

    /// The state the button entered.
    pub fn state(&self) -> (r: ButtonState)
        ensures
            r == self.spec_state(),
    {
        self.state
    }

    /// The instant at which this event happened.
    pub fn timestamp(&self) -> (r: Instant)
        ensures
            r == self.spec_timestamp(),
    {
        self.timestamp
    }
}

/// An accepted change of a button from pressed to released or the other way round.
#[derive(Clone, Copy, Debug, PartialEq, Eq, Structural)]
pub struct ButtonStateTransitionEvent {
    /// The event that the button was in before the transition.
    pub old_state: ButtonEvent,
    /// The event that the transition produced.
    pub new_state: ButtonEvent,
}

impl ButtonStateTransitionEvent {
    /// The event that the button was in before the transition.
    pub open spec fn spec_old_state(self) -> ButtonEvent {
        self.old_state
    }

    /// The event that the transition produced.
    pub open spec fn spec_new_state(self) -> ButtonEvent {
        self.new_state
    }

    /// The transition from `old_state` to `new_state`.
    pub open spec fn spec_new(old_state: ButtonEvent, new_state: ButtonEvent) -> ButtonStateTransitionEvent {
        ButtonStateTransitionEvent { old_state, new_state }
    }

    /// The state of the button before the transition; its timestamp gives,
    /// for example, how long a press lasted.
    pub fn old_state(&self) -> (r: &ButtonEvent)
        ensures
            *r == self.spec_old_state(),
    {
        &self.old_state
    }

    /// The new (current) state of the button.
    pub fn new_state(&self) -> (r: &ButtonEvent)
        ensures
            *r == self.spec_new_state(),
    {
        &self.new_state
    }
}

/// The debounce state of all buttons of the machine: the last accepted event
/// of each button line.
pub struct Buttons {
    last_one_cup_event: ButtonEvent,
    last_two_cup_event: ButtonEvent,
    last_hot_water_event: ButtonEvent,
    last_steam_event: ButtonEvent,
}

impl Buttons {
    /// The last accepted event of the line of `kind`.
    pub closed spec fn last_event(self, kind: ButtonKind) -> ButtonEvent {
        match kind {
            ButtonKind::OneCup => self.last_one_cup_event,
            ButtonKind::TwoCup => self.last_two_cup_event,
            ButtonKind::HotWater => self.last_hot_water_event,
            ButtonKind::Steam => self.last_steam_event,
        }
    }

    /// Each line's last event is an event of that line's button.
    pub open spec fn wf(self) -> bool {
        forall|k: ButtonKind| #[trigger] self.last_event(k).spec_source() == k
    }

    /// All buttons released, as recorded at `now`.
    pub fn new(now: Instant) -> (r: Buttons)
        ensures
            r.wf(),
            forall|k: ButtonKind|
                #[trigger] r.last_event(k) == ButtonEvent::spec_new(k, ButtonState::Released, now),
    {
        Buttons {
            last_one_cup_event: ButtonEvent::new(ButtonKind::OneCup, ButtonState::Released, now),
            last_two_cup_event: ButtonEvent::new(ButtonKind::TwoCup, ButtonState::Released, now),
            last_hot_water_event: ButtonEvent::new(ButtonKind::HotWater, ButtonState::Released, now),
            last_steam_event: ButtonEvent::new(ButtonKind::Steam, ButtonState::Released, now),
        }
    }

    /// The last accepted event of the line of `kind`.
    pub fn kind_to_last_event(&self, kind: ButtonKind) -> (r: &ButtonEvent)
        ensures
            *r == self.last_event(kind),
    {
        match kind {
            ButtonKind::OneCup => &self.last_one_cup_event,
            ButtonKind::TwoCup => &self.last_two_cup_event,
            ButtonKind::HotWater => &self.last_hot_water_event,
            ButtonKind::Steam => &self.last_steam_event,
        }
    }

    /// The slot that holds the last accepted event of the line of `kind`.
    fn kind_to_last_event_mut(&mut self, kind: ButtonKind) -> (r: &mut ButtonEvent)
        ensures
            *r == old(self).last_event(kind),
            final(self).last_event(kind) == *final(r),
            forall|k: ButtonKind| k != kind ==> #[trigger] final(self).last_event(k) == old(self).last_event(k),
    {
        match kind {
            ButtonKind::OneCup => &mut self.last_one_cup_event,
            ButtonKind::TwoCup => &mut self.last_two_cup_event,
            ButtonKind::HotWater => &mut self.last_hot_water_event,
            ButtonKind::Steam => &mut self.last_steam_event,
        }
    }

    /// The state that the line of `kind` is watched for: the opposite of its
    /// recorded state (a released button waits for its line to go high).
    pub fn awaited_state(&self, kind: ButtonKind) -> (r: ButtonState)
        ensures
            r == self.last_event(kind).spec_state().spec_not(),
    {
        self.kind_to_last_event(kind).state().not()
    }

    /// Handles the line of `kind` reaching its awaited state at `now`. Within
    /// the debounce interval of the line's last accepted event the edge is
    /// discarded and nothing changes; otherwise the new event becomes the
    /// line's last event and the transition is returned.
    pub fn on_edge(&mut self, kind: ButtonKind, now: Instant) -> (r: Option<ButtonStateTransitionEvent>)
        requires
            old(self).wf(),
        ensures
            final(self).wf(),
            match debounce_step(old(self).last_event(kind), now) {
                None => r.is_none() && *final(self) == *old(self),
                Some(e) => {
                    &&& r == Some(ButtonStateTransitionEvent::spec_new(old(self).last_event(kind), e))
                    &&& final(self).last_event(kind) == e
                    &&& forall|k: ButtonKind| k != kind ==> #[trigger] final(self).last_event(k) == old(self).last_event(k)
                },
            },
            debounce_step(old(self).last_event(kind), now) is Some ==> r.unwrap().spec_new_state().spec_source() == kind,
    {
        let last = *self.kind_to_last_event(kind);
        if last.elapsed(now) < DEBOUNCE_INTERVAL_MS {
            None
        } else {
            let event = last.state_transition(now);
            let slot = self.kind_to_last_event_mut(kind);
            *slot = event;
            proof {
                assert forall|k: ButtonKind| #[trigger] self.last_event(k).spec_source() == k by {
                    if k != kind {
                        assert(self.last_event(k) == old(self).last_event(k));
                    }
                }
            }
            Some(ButtonStateTransitionEvent { old_state: last, new_state: event })
        }
    }
}

/// What an edge on a line whose last accepted event is `last` yields at
/// `now`: the new event, or `None` when it comes within the debounce interval.
pub open spec fn debounce_step(last: ButtonEvent, now: Instant) -> Option<ButtonEvent> {
    if now.spec_millis_since(last.spec_timestamp()) < DEBOUNCE_INTERVAL_MS {
        None
    } else {
        Some(ButtonEvent::spec_new(last.spec_source(), last.spec_state().spec_not(), now))
    }
}

/// The events accepted from edges at `times` on a line whose last accepted
/// event is `last`, in order.
pub open spec fn accepted_edges(last: ButtonEvent, times: Seq<Instant>) -> Seq<ButtonEvent>
    decreases times.len(),
{
    if times.len() == 0 {
        Seq::empty()
    } else {
        match debounce_step(last, times[0]) {
            Some(e) => seq![e] + accepted_edges(e, times.drop_first()),
            None => accepted_edges(last, times.drop_first()),
        }
    }
}

/// Edges that all come before `lo + DEBOUNCE_INTERVAL_MS`, on a line whose
/// last accepted event is no earlier than `lo`, are all discarded.
proof fn lemma_edges_within_interval_discarded(last: ButtonEvent, times: Seq<Instant>, lo: int)
    requires
        lo <= last.spec_timestamp().millis,
        forall|i: int| 0 <= i < times.len() ==> (#[trigger] times[i]).millis < lo + DEBOUNCE_INTERVAL_MS,
    ensures
        accepted_edges(last, times).len() == 0,
    decreases times.len(),
{
    if times.len() > 0 {
        assert(debounce_step(last, times[0]) is None);
        assert forall|i: int| 0 <= i < times.drop_first().len() implies
            (#[trigger] times.drop_first()[i]).millis < lo + DEBOUNCE_INTERVAL_MS by {
            assert(times.drop_first()[i] == times[i + 1]);
        }
        lemma_edges_within_interval_discarded(last, times.drop_first(), lo);
    }
}

/// Bounce: edges on one button line that all fall within one debounce
/// interval, counted from the first of them, yield at most one transition.
pub proof fn lemma_bounce_yields_at_most_one(last: ButtonEvent, times: Seq<Instant>)
    requires
        times.len() > 0,
        forall|i: int| 0 <= i < times.len() ==>
            times[0].millis <= (#[trigger] times[i]).millis < times[0].millis + DEBOUNCE_INTERVAL_MS,
    ensures
        accepted_edges(last, times).len() <= 1,
{
    lemma_bounce_from(last, times, times[0].millis as int);
}

proof fn lemma_bounce_from(last: ButtonEvent, times: Seq<Instant>, lo: int)
    requires
        forall|i: int| 0 <= i < times.len() ==>
            lo <= (#[trigger] times[i]).millis < lo + DEBOUNCE_INTERVAL_MS,
    ensures
        accepted_edges(last, times).len() <= 1,
    decreases times.len(),
{
    if times.len() > 0 {
        let rest = times.drop_first();
        assert forall|i: int| 0 <= i < rest.len() implies
            lo <= (#[trigger] rest[i]).millis < lo + DEBOUNCE_INTERVAL_MS by {
            assert(rest[i] == times[i + 1]);
        }
        match debounce_step(last, times[0]) {
            Some(e) => {
                lemma_edges_within_interval_discarded(e, rest, lo);
            },
            None => {
                lemma_bounce_from(last, rest, lo);
            },
        }
    }
}

/// Edges on one button line that are each at least one debounce interval
/// after the one before (the first one after the line's last accepted event)
/// are all accepted, at their own instants, and the new states alternate,
/// starting with the opposite of the line's recorded state.
pub proof fn lemma_spaced_edges_all_accepted(last: ButtonEvent, times: Seq<Instant>)
    requires
        times.len() > 0 ==> times[0].millis >= last.spec_timestamp().millis + DEBOUNCE_INTERVAL_MS,
        forall|i: int| 0 < i < times.len() ==>
            (#[trigger] times[i]).millis >= times[i - 1].millis + DEBOUNCE_INTERVAL_MS,
    ensures
        accepted_edges(last, times).len() == times.len(),
        forall|i: int| 0 <= i < times.len() ==> {
            &&& (#[trigger] accepted_edges(last, times)[i]).spec_timestamp() == times[i]
            &&& accepted_edges(last, times)[i].spec_source() == last.spec_source()
            &&& accepted_edges(last, times)[i].spec_state() == if i % 2 == 0 {
                last.spec_state().spec_not()
            } else {
                last.spec_state()
            }
        },
    decreases times.len(),
{
    if times.len() > 0 {
        let e = ButtonEvent::spec_new(last.spec_source(), last.spec_state().spec_not(), times[0]);
        assert(debounce_step(last, times[0]) == Some(e));
        let rest = times.drop_first();
        assert forall|i: int| 0 < i < rest.len() implies
            (#[trigger] rest[i]).millis >= rest[i - 1].millis + DEBOUNCE_INTERVAL_MS by {
            assert(rest[i] == times[i + 1]);
            assert(rest[i - 1] == times[i]);
        }
        if rest.len() > 0 {
            assert(rest[0] == times[1]);
        }
        lemma_spaced_edges_all_accepted(e, rest);
        let rr = accepted_edges(e, rest);
        let r = accepted_edges(last, times);
        assert(r == seq![e] + rr);
        assert forall|i: int| 0 <= i < times.len() implies {
            &&& (#[trigger] r[i]).spec_timestamp() == times[i]
            &&& r[i].spec_source() == last.spec_source()
            &&& r[i].spec_state() == if i % 2 == 0 {
                last.spec_state().spec_not()
            } else {
                last.spec_state()
            }
        } by {
            if i > 0 {
                assert(r[i] == rr[i - 1]);
                assert(rest[i - 1] == times[i]);
            }
        }
    }
}

/// Whatever the edges, each accepted event comes at least one debounce
/// interval after the one before it (the first one after the line's last
/// accepted event).
pub proof fn lemma_accepted_events_are_spaced(last: ButtonEvent, times: Seq<Instant>)
    ensures
        forall|i: int| 0 <= i < accepted_edges(last, times).len() ==>
            (#[trigger] accepted_edges(last, times)[i]).spec_timestamp().millis >= (if i == 0 {
                last
            } else {
                accepted_edges(last, times)[i - 1]
            }).spec_timestamp().millis + DEBOUNCE_INTERVAL_MS,
    decreases times.len(),
{
    if times.len() > 0 {
        let rest = times.drop_first();
        match debounce_step(last, times[0]) {
            Some(e) => {
                lemma_accepted_events_are_spaced(e, rest);
                let rr = accepted_edges(e, rest);
                let r = accepted_edges(last, times);
                assert(r == seq![e] + rr);
                assert forall|i: int| 0 <= i < r.len() implies
                    (#[trigger] r[i]).spec_timestamp().millis >= (if i == 0 { last } else { r[i - 1] }).spec_timestamp().millis
                        + DEBOUNCE_INTERVAL_MS by {
                    if i > 0 {
                        assert(r[i] == rr[i - 1]);
                        if i > 1 {
                            assert(r[i - 1] == rr[i - 2]);
                        }
                    }
                }
            },
            None => {
                lemma_accepted_events_are_spaced(last, rest);
            },
        }
    }
}

} // verus!
