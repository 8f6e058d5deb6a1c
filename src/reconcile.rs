use vstd::prelude::*;
use crate::error::UpdateError;
use crate::record::{current_value, is_upsert_of, lemma_upsert_then_read, upserted, RecordSet, UpsertChange};
use crate::text::trimmed;

verus! {

/// Where a reconcile tick stands. `Idle` waits for the timer; the others are
/// the steps of a running tick, each waiting for one outside answer.
#[derive(Debug)]
pub enum TickState {
    Idle,
    /// Waiting for the public-IP lookup.
    AwaitingIp,
    /// Waiting for the DNS record's current value; `target` is the public IP.
    AwaitingRecord { target: String },
    /// Waiting for the upsert of `target` to complete.
    AwaitingWrite { target: String },
}

/// An answer from outside the library that moves a tick forward.
#[derive(Debug)]
pub enum Event {
    /// The timer fired, or the process started.
    TimerFired,
    IpResolved(Result<String, UpdateError>),
    RecordRead(Result<String, UpdateError>),
    WriteDone(Result<(), UpdateError>),
}

/// How a tick ended.
#[derive(Debug)]
pub enum TickOutcome {
    /// The record already held `ip`; nothing was written.
    Unchanged { ip: String },
    /// The record was set to `ip`.
    Updated { ip: String },
    Failed(UpdateError),
}

impl TickOutcome {
    /// Whether this outcome ends the process: only a failure of the startup
    /// tick does; a failed periodic tick is reported and the next one runs.
    pub fn ends_process(&self, startup: bool) -> (r: bool)
        ensures
            r == (startup && *self is Failed),
    {
        startup && match self {
            TickOutcome::Failed(_) => true,
            _ => false,
        }
    }
}

/// What the caller is to do next.
#[derive(Debug)]
pub enum Action {
    /// Look up the public IP and answer with `IpResolved`.
    ResolveIp,
    /// Read the record's current value and answer with `RecordRead`.
    ReadRecord,
    /// Upsert the record with `value` and answer with `WriteDone`.
    Write { value: String },
    /// The tick is over; report the outcome and wait for the timer.
    Finish(TickOutcome),
    /// The event does not belong to the current state; nothing changes.
    Ignore,
}

/// The reconcile protocol: the state and the action that follow `e` in `s`.
pub open spec fn step_spec(s: TickState, e: Event) -> (TickState, Action) {
    match s {
        TickState::Idle => match e {
            Event::TimerFired => (TickState::AwaitingIp, Action::ResolveIp),
            _ => (s, Action::Ignore),
        },
        TickState::AwaitingIp => match e {
            Event::IpResolved(Ok(ip)) => (TickState::AwaitingRecord { target: ip }, Action::ReadRecord),
            Event::IpResolved(Err(err)) => (TickState::Idle, Action::Finish(TickOutcome::Failed(err))),
            _ => (s, Action::Ignore),
        },
        TickState::AwaitingRecord { target } => match e {
            Event::RecordRead(Ok(current)) => if current@ == target@ {
                (TickState::Idle, Action::Finish(TickOutcome::Unchanged { ip: target }))
            } else {
                (TickState::AwaitingWrite { target }, Action::Write { value: target })
            },
            Event::RecordRead(Err(err)) => (TickState::Idle, Action::Finish(TickOutcome::Failed(err))),
            _ => (s, Action::Ignore),
        },
        TickState::AwaitingWrite { target } => match e {
            Event::WriteDone(Ok(())) => (TickState::Idle, Action::Finish(TickOutcome::Updated { ip: target })),
            Event::WriteDone(Err(err)) => (TickState::Idle, Action::Finish(TickOutcome::Failed(err))),
            _ => (s, Action::Ignore),
        },
    }
}

/// Moves a tick forward by one event: resolve, then read, then write only
/// where the record differs from the public IP (exact string comparison).
pub fn reconcile_step(s: TickState, e: Event) -> (r: (TickState, Action))
    ensures
        r == step_spec(s, e),
{
    match s {
        TickState::Idle => match e {
            Event::TimerFired => (TickState::AwaitingIp, Action::ResolveIp),
            _ => (TickState::Idle, Action::Ignore),
        },
        TickState::AwaitingIp => match e {
            Event::IpResolved(Ok(ip)) => (TickState::AwaitingRecord { target: ip }, Action::ReadRecord),
            Event::IpResolved(Err(err)) => (TickState::Idle, Action::Finish(TickOutcome::Failed(err))),
            _ => (TickState::AwaitingIp, Action::Ignore),
        },
        TickState::AwaitingRecord { target } => match e {
            Event::RecordRead(Ok(current)) => if current == target {
                (TickState::Idle, Action::Finish(TickOutcome::Unchanged { ip: target }))
            } else {
                let value = target.clone();
                (TickState::AwaitingWrite { target }, Action::Write { value })
            },
            Event::RecordRead(Err(err)) => (TickState::Idle, Action::Finish(TickOutcome::Failed(err))),
            _ => (TickState::AwaitingRecord { target }, Action::Ignore),
        },
        TickState::AwaitingWrite { target } => match e {
            Event::WriteDone(Ok(())) => (TickState::Idle, Action::Finish(TickOutcome::Updated { ip: target })),
            Event::WriteDone(Err(err)) => (TickState::Idle, Action::Finish(TickOutcome::Failed(err))),
            _ => (TickState::AwaitingWrite { target }, Action::Ignore),
        },
    }
}

/// The event with which the outside world answers action `a`, given the
/// lookup result `ip`, the record read result `current` and the write result
/// `written`; `None` where `a` asks for no answer.
pub open spec fn answer(
    a: Action,
    ip: Result<String, UpdateError>,
    current: Result<String, UpdateError>,
    written: Result<(), UpdateError>,
) -> Option<Event> {
    match a {
        Action::ResolveIp => Some(Event::IpResolved(ip)),
        Action::ReadRecord => Some(Event::RecordRead(current)),
        Action::Write { .. } => Some(Event::WriteDone(written)),
        _ => None,
    }
}

/// The actions taken from state `s` on event `e`, with every later event the
/// outside world's answer to the action before it, for at most `fuel` more
/// answers.
pub open spec fn run(
    s: TickState,
    e: Event,
    ip: Result<String, UpdateError>,
    current: Result<String, UpdateError>,
    written: Result<(), UpdateError>,
    fuel: nat,
) -> Seq<Action>
    decreases fuel,
{
    let (t, a) = step_spec(s, e);
    if fuel == 0 {
        seq![a]
    } else {
        match answer(a, ip, current, written) {
            Some(next) => seq![a].add(run(t, next, ip, current, written, (fuel - 1) as nat)),
            None => seq![a],
        }
    }
}

/// The actions of one whole tick, from the timer to its end.
pub open spec fn tick_actions(
    ip: Result<String, UpdateError>,
    current: Result<String, UpdateError>,
    written: Result<(), UpdateError>,
) -> Seq<Action> {
    run(TickState::Idle, Event::TimerFired, ip, current, written, 3)
}

/// The values written by the `Write` actions of `acts`, in order.
pub open spec fn written_values(acts: Seq<Action>) -> Seq<Seq<char>>
    decreases acts.len(),
{
    if acts.len() == 0 {
        Seq::empty()
    } else {
        let rest = written_values(acts.drop_first());
        match acts[0] {
            Action::Write { value } => seq![value@].add(rest),
            _ => rest,
        }
    }
}

proof fn lemma_written_values_of_cons(a: Action, rest: Seq<Action>)
    ensures
        written_values(seq![a].add(rest)) == match a {
            Action::Write { value } => seq![value@].add(written_values(rest)),
            _ => written_values(rest),
        },
{
    assert(seq![a].add(rest).drop_first() =~= rest);
}

/// A tick in which the record's current value equals the public IP writes
/// nothing.
pub proof fn lemma_no_write_when_equal(target: String, current: String, written: Result<(), UpdateError>)
    requires
        current@ == target@,
    ensures
        written_values(tick_actions(Ok(target), Ok(current), written)) == Seq::<Seq<char>>::empty(),
{
    let ip = Ok::<String, UpdateError>(target);
    let cur = Ok::<String, UpdateError>(current);
    let a3 = Action::Finish(TickOutcome::Unchanged { ip: target });
    assert(run(TickState::AwaitingRecord { target }, Event::RecordRead(cur), ip, cur, written, 1) == seq![a3]);
    let tail2 = seq![Action::ReadRecord].add(seq![a3]);
    assert(run(TickState::AwaitingIp, Event::IpResolved(ip), ip, cur, written, 2) == tail2);
    assert(tick_actions(ip, cur, written) == seq![Action::ResolveIp].add(tail2));
    lemma_written_values_of_cons(Action::ResolveIp, tail2);
    lemma_written_values_of_cons(Action::ReadRecord, seq![a3]);
    lemma_written_values_of_cons(a3, Seq::empty());
    assert(seq![a3] =~= seq![a3].add(Seq::<Action>::empty()));
}

/// A tick in which the record's current value differs from the public IP
/// writes exactly once, and writes the public IP.
pub proof fn lemma_single_write_when_different(
    target: String,
    current: String,
    written: Result<(), UpdateError>,
)
    requires
        current@ != target@,
    ensures
        written_values(tick_actions(Ok(target), Ok(current), written)) == seq![target@],
{
    let ip = Ok::<String, UpdateError>(target);
    let cur = Ok::<String, UpdateError>(current);
    let a3 = Action::Write { value: target };
    let a4 = step_spec(TickState::AwaitingWrite { target }, Event::WriteDone(written)).1;
    assert(a4 is Finish);
    assert(run(TickState::AwaitingWrite { target }, Event::WriteDone(written), ip, cur, written, 0) == seq![a4]);
    let tail3 = seq![a3].add(seq![a4]);
    assert(run(TickState::AwaitingRecord { target }, Event::RecordRead(cur), ip, cur, written, 1) == tail3);
    let tail2 = seq![Action::ReadRecord].add(tail3);
    assert(run(TickState::AwaitingIp, Event::IpResolved(ip), ip, cur, written, 2) == tail2);
    assert(tick_actions(ip, cur, written) == seq![Action::ResolveIp].add(tail2));
    lemma_written_values_of_cons(Action::ResolveIp, tail2);
    lemma_written_values_of_cons(Action::ReadRecord, tail3);
    lemma_written_values_of_cons(a3, seq![a4]);
    lemma_written_values_of_cons(a4, Seq::empty());
    assert(seq![a4] =~= seq![a4].add(Seq::<Action>::empty()));
    assert(seq![target@].add(Seq::<Seq<char>>::empty()) =~= seq![target@]);
}

/// Once a tick has upserted the public IP `target` (trimmed, as the resolver
/// hands it out), the next tick that resolves the same `target` reads it back
/// from the record and writes nothing.
pub proof fn lemma_no_write_after_update(
    sets: Seq<RecordSet>,
    c: UpsertChange,
    name: Seq<char>,
    target: String,
    current: String,
    written: Result<(), UpdateError>,
)
    requires
        is_upsert_of(c, name, target@),
        trimmed(target@) == target@,
        current_value(upserted(sets, c), name) == Ok::<Seq<char>, UpdateError>(current@),
    ensures
        current@ == target@,
        written_values(tick_actions(Ok(target), Ok(current), written)) == Seq::<Seq<char>>::empty(),
{
    lemma_upsert_then_read(sets, c, name, target@);
    lemma_no_write_when_equal(target, current, written);
}

} // verus!
