//! The input poller's timing: how long to wait for a key, and which events
//! to send once the wait is over.

use vstd::prelude::*;
use crate::state::{Event, KeyEvent};

verus! {

/// The time left until the next tick is due, and none once it is overdue.
/// All times are in milliseconds.
pub open spec fn time_left(tick_rate: u64, elapsed: u64) -> u64 {
    if elapsed <= tick_rate {
        (tick_rate - elapsed) as u64
    } else {
        0
    }
}

/// The events that one round of the poller sends, in their order: the key
/// that arrived during the wait, if one did, and then a tick if the tick
/// interval has run out.
pub open spec fn events_of_round(tick_rate: u64, elapsed: u64, key: Option<KeyEvent>) -> Seq<
    Event<KeyEvent>,
> {
    let input = match key {
        Some(key) => seq![Event::Input(key)],
        None => Seq::empty(),
    };
    if elapsed >= tick_rate {
        input.push(Event::Tick)
    } else {
        input
    }
}

/// How long the poller may wait for a key, `elapsed` milliseconds after the
/// last tick.
pub fn poll_timeout(tick_rate: u64, elapsed: u64) -> (timeout: u64)
    ensures
        timeout == time_left(tick_rate, elapsed),
        timeout <= tick_rate,
{
    match tick_rate.checked_sub(elapsed) {
        Some(timeout) => timeout,
        None => 0,
    }
}

/// Whether a tick is due `elapsed` milliseconds after the last one.
pub fn tick_due(tick_rate: u64, elapsed: u64) -> (due: bool)
    ensures
        due == (elapsed >= tick_rate),
        due == (time_left(tick_rate, elapsed) == 0),
{
    elapsed >= tick_rate
}

/// One round of the poller, after its wait: `key` is the key that arrived,
/// `elapsed` the milliseconds since the last tick. Returns the events to
/// send, in their order. When a tick is among them and was sent, the caller
/// starts the next interval.
pub fn accept_user_input(tick_rate: u64, elapsed: u64, key: Option<KeyEvent>) -> (events: Vec<
    Event<KeyEvent>,
>)
    ensures
        events@ == events_of_round(tick_rate, elapsed, key),
{
    let mut events: Vec<Event<KeyEvent>> = Vec::new();
    if let Some(key) = key {
        events.push(Event::Input(key));
    }
    if tick_due(tick_rate, elapsed) {
        events.push(Event::Tick);
    }
    assert(events@ =~= events_of_round(tick_rate, elapsed, key));
    events
}

/// A round in which no key arrived and the interval ran out sends exactly
/// one tick and nothing else; a round in which the interval has not run out
/// sends no tick.
pub proof fn a_quiet_interval_sends_one_tick(tick_rate: u64, elapsed: u64, key: Option<KeyEvent>)
    ensures
        elapsed >= tick_rate ==> events_of_round(tick_rate, elapsed, None) == seq![
            Event::<KeyEvent>::Tick,
        ],
        elapsed < tick_rate ==> !events_of_round(tick_rate, elapsed, key).contains(Event::Tick),
{
    if elapsed >= tick_rate {
        assert(events_of_round(tick_rate, elapsed, None) =~= seq![Event::<KeyEvent>::Tick]);
    } else {
        let events = events_of_round(tick_rate, elapsed, key);
        assert forall|i: int| 0 <= i < events.len() implies events[i] != Event::<KeyEvent>::Tick by {}
    }
}

} // verus!
