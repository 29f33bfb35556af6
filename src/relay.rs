use vstd::prelude::*;

use crate::pump::{
    filled, fresh_pump, pump_read, pump_written, Pump, PumpAction, PumpModel, PumpState, Step,
};

verus! {

/// The two directions of a relay.
#[derive(PartialEq, Eq, Structural, Clone, Copy, Debug)]
pub enum Direction {
    /// From the local connection to the channel.
    Upstream,
    /// From the channel to the local connection.
    Downstream,
}

/// The abstract state of a relay: one pump per direction, and whether both
/// endpoints have been released.
pub ghost struct RelayModel {
    pub up: PumpModel,
    pub down: PumpModel,
    pub closed: bool,
}

/// What a relay can be told.
pub ghost enum RelayEvent {
    /// A read in this direction gave these bytes (`None`: it failed).
    Read(Direction, Option<Seq<u8>>),
    /// The write in this direction succeeded or failed.
    Written(Direction, bool),
    /// The driver asks whether to release both endpoints now.
    Close,
}

pub open spec fn pump_of(r: RelayModel, d: Direction) -> PumpModel {
    match d {
        Direction::Upstream => r.up,
        Direction::Downstream => r.down,
    }
}

pub open spec fn with_pump(r: RelayModel, d: Direction, p: PumpModel) -> RelayModel {
    match d {
        Direction::Upstream => RelayModel { up: p, ..r },
        Direction::Downstream => RelayModel { down: p, ..r },
    }
}

pub open spec fn other(d: Direction) -> Direction {
    match d {
        Direction::Upstream => Direction::Downstream,
        Direction::Downstream => Direction::Upstream,
    }
}

/// A relay is finished once both directions have ended, or as soon as
/// either has failed.
pub open spec fn relay_done(r: RelayModel) -> bool {
    ||| (r.up.state == PumpState::Ended && r.down.state == PumpState::Ended)
    ||| r.up.state == PumpState::Failed
    ||| r.down.state == PumpState::Failed
}

pub open spec fn fresh_relay() -> RelayModel {
    RelayModel { up: fresh_pump(), down: fresh_pump(), closed: false }
}

/// The transition of a relay on one event. Once finished, a relay ignores
/// further reads and writes.
pub open spec fn relay_next(r: RelayModel, e: RelayEvent) -> RelayModel {
    match e {
        RelayEvent::Read(d, got) => if relay_done(r) {
            r
        } else {
            with_pump(r, d, pump_read(pump_of(r, d), got).0)
        },
        RelayEvent::Written(d, ok) => if relay_done(r) {
            r
        } else {
            with_pump(r, d, pump_written(pump_of(r, d), ok).0)
        },
        RelayEvent::Close => if relay_done(r) {
            RelayModel { closed: true, ..r }
        } else {
            r
        },
    }
}

/// The action a relay hands its driver on one read or write event.
pub open spec fn relay_step(r: RelayModel, e: RelayEvent) -> Step {
    match e {
        RelayEvent::Read(d, got) => if relay_done(r) {
            Step::Stop
        } else {
            pump_read(pump_of(r, d), got).1
        },
        RelayEvent::Written(d, ok) => if relay_done(r) {
            Step::Stop
        } else {
            pump_written(pump_of(r, d), ok).1
        },
        RelayEvent::Close => Step::Stop,
    }
}

/// A relay after a sequence of events.
pub open spec fn relay_run(r: RelayModel, evs: Seq<RelayEvent>) -> RelayModel
    decreases evs.len(),
{
    if evs.len() == 0 {
        r
    } else {
        relay_run(relay_next(r, evs[0]), evs.drop_first())
    }
}

/// Two relays after an interleaving of events, each event tagged with the
/// relay it is for (`true`: the first).
pub open spec fn relay_run_pair(
    a: RelayModel,
    b: RelayModel,
    evs: Seq<(bool, RelayEvent)>,
) -> (RelayModel, RelayModel)
    decreases evs.len(),
{
    if evs.len() == 0 {
        (a, b)
    } else if evs[0].0 {
        relay_run_pair(relay_next(a, evs[0].1), b, evs.drop_first())
    } else {
        relay_run_pair(a, relay_next(b, evs[0].1), evs.drop_first())
    }
}

/// The events of an interleaving that are for one of the two relays.
pub open spec fn events_for(evs: Seq<(bool, RelayEvent)>, first: bool) -> Seq<RelayEvent>
    decreases evs.len(),
{
    if evs.len() == 0 {
        Seq::empty()
    } else if evs[0].0 == first {
        seq![evs[0].1] + events_for(evs.drop_first(), first)
    } else {
        events_for(evs.drop_first(), first)
    }
}

/// Relays a local connection and a channel: one pump per direction, and the
/// release of both endpoints exactly once when the relay is finished.
pub struct Relay {
    pub upstream: Pump,
    pub downstream: Pump,
    pub closed: bool,
}

impl View for Relay {
    type V = RelayModel;

    open spec fn view(&self) -> RelayModel {
        RelayModel { up: self.upstream@, down: self.downstream@, closed: self.closed }
    }
}

impl Relay {
    pub open spec fn wf(&self) -> bool {
        &&& self.upstream.wf()
        &&& self.downstream.wf()
        &&& self.closed ==> relay_done(self@)
    }

    pub fn new() -> (r: Relay)
        ensures
            r.wf(),
            r@ == fresh_relay(),
    {
        Relay { upstream: Pump::new(), downstream: Pump::new(), closed: false }
    }

    /// Whether both directions have ended or either has failed.
    pub fn is_done(&self) -> (r: bool)
        ensures
            r == relay_done(self@),
    {
        (self.upstream.state == PumpState::Ended && self.downstream.state == PumpState::Ended)
            || self.upstream.state == PumpState::Failed || self.downstream.state
            == PumpState::Failed
    }

    /// Whether the driver should read the source of direction `d` now.
    pub fn wants_read(&self, d: Direction) -> (r: bool)
        ensures
            r == (!relay_done(self@) && pump_of(self@, d).state == PumpState::Reading),
    {
        if self.is_done() {
            false
        } else {
            match d {
                Direction::Upstream => self.upstream.wants_read(),
                Direction::Downstream => self.downstream.wants_read(),
            }
        }
    }

    /// A read in direction `d` put `n` bytes at the front of `buf` (zero:
    /// that source has ended).
    pub fn on_read(&mut self, d: Direction, buf: &Vec<u8>, n: usize) -> (act: PumpAction)
        requires
            old(self).wf(),
            n <= buf.len(),
        ensures
            final(self).wf(),
            final(self)@ == relay_next(old(self)@, RelayEvent::Read(d, Some(filled(buf@, n as nat)))),
            act@ == relay_step(old(self)@, RelayEvent::Read(d, Some(filled(buf@, n as nat)))),
    {
        if self.is_done() {
            return PumpAction::Stop;
        }
        match d {
            Direction::Upstream => self.upstream.on_read(buf, n),
            Direction::Downstream => self.downstream.on_read(buf, n),
        }
    }

    /// A read in direction `d` failed.
    pub fn on_read_failed(&mut self, d: Direction) -> (act: PumpAction)
        requires
            old(self).wf(),
        ensures
            final(self).wf(),
            final(self)@ == relay_next(old(self)@, RelayEvent::Read(d, None)),
            act@ == relay_step(old(self)@, RelayEvent::Read(d, None)),
    {
        if self.is_done() {
            return PumpAction::Stop;
        }
        match d {
            Direction::Upstream => self.upstream.on_read_failed(),
            Direction::Downstream => self.downstream.on_read_failed(),
        }
    }

    /// The write in direction `d` succeeded (`ok`) or failed.
    pub fn on_written(&mut self, d: Direction, ok: bool) -> (act: PumpAction)
        requires
            old(self).wf(),
        ensures
            final(self).wf(),
            final(self)@ == relay_next(old(self)@, RelayEvent::Written(d, ok)),
            act@ == relay_step(old(self)@, RelayEvent::Written(d, ok)),
    {
        if self.is_done() {
            return PumpAction::Stop;
        }
        match d {
            Direction::Upstream => self.upstream.on_written(ok),
            Direction::Downstream => self.downstream.on_written(ok),
        }
    }

    /// Tells whether to release both endpoints now: true exactly once, on the
    /// first call after the relay has finished.
    pub fn close(&mut self) -> (close_now: bool)
        requires
            old(self).wf(),
        ensures
            final(self).wf(),
            final(self)@ == relay_next(old(self)@, RelayEvent::Close),
            close_now == (relay_done(old(self)@) && !old(self).closed),
    {
        if self.is_done() && !self.closed {
            self.closed = true;
            true
        } else {
            false
        }
    }
}

/// Half-close: when one source ends while the relay runs, the end is passed
/// on to that direction's destination, the other direction is left exactly
/// as it was, and the relay goes on unless that other direction had ended
/// too.
pub proof fn lemma_half_close(r: RelayModel, d: Direction)
    requires
        !relay_done(r),
        pump_of(r, d).state == PumpState::Reading,
    ensures
        relay_step(r, RelayEvent::Read(d, Some(Seq::empty()))) == Step::SendEof,
        pump_of(relay_next(r, RelayEvent::Read(d, Some(Seq::empty()))), d).state
            == PumpState::Ended,
        pump_of(relay_next(r, RelayEvent::Read(d, Some(Seq::empty()))), other(d)) == pump_of(
            r,
            other(d),
        ),
        relay_done(relay_next(r, RelayEvent::Read(d, Some(Seq::empty())))) <==> pump_of(
            r,
            other(d),
        ).state == PumpState::Ended,
{
}

/// Release happens once: after `close` has said yes, the relay stays closed
/// whatever comes, and no later `close` says yes again.
pub proof fn lemma_close_once(r: RelayModel, evs: Seq<RelayEvent>)
    requires
        r.closed,
        relay_done(r),
    ensures
        relay_run(r, evs).closed,
        relay_done(relay_run(r, evs)),
        relay_step(relay_run(r, evs), RelayEvent::Close) == Step::Stop,
    decreases evs.len(),
{
    if evs.len() > 0 {
        lemma_close_once(relay_next(r, evs[0]), evs.drop_first());
    }
}

/// Independence: however the events of two relays interleave, each ends in
/// the state it reaches on its own events alone.
pub proof fn lemma_relays_independent(
    a: RelayModel,
    b: RelayModel,
    evs: Seq<(bool, RelayEvent)>,
)
    ensures
        relay_run_pair(a, b, evs) == (relay_run(a, events_for(evs, true)), relay_run(
            b,
            events_for(evs, false),
        )),
    decreases evs.len(),
{
    if evs.len() > 0 {
        let rest = evs.drop_first();
        let e = evs[0].1;
        if evs[0].0 {
            lemma_relays_independent(relay_next(a, e), b, rest);
            assert((seq![e] + events_for(rest, true)).drop_first() =~= events_for(rest, true));
        } else {
            lemma_relays_independent(a, relay_next(b, e), rest);
            assert((seq![e] + events_for(rest, false)).drop_first() =~= events_for(rest, false));
        }
    }
}

} // verus!
