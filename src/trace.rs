//! Runs of the connection manager over a sequence of events, and what holds
//! of every run.
use crate::manager::{end, fits, next, Action, ConnectionManager, Event, Phase};
use crate::message::Message;
use vstd::prelude::*;

verus! {

/// Every event of `evs` reports the outcome that the manager waits for when
/// it comes, starting from `m`.
pub open spec fn valid_trace<E>(m: ConnectionManager, evs: Seq<Event<E>>) -> bool
    decreases evs.len(),
{
    evs.len() == 0 || (fits(m.phase, evs[0]) && valid_trace(next(m, evs[0]).0, evs.drop_first()))
}

/// The manager after it took every event of `evs`, starting from `m`.
pub open spec fn after<E>(m: ConnectionManager, evs: Seq<Event<E>>) -> ConnectionManager
    decreases evs.len(),
{
    if evs.len() == 0 {
        m
    } else {
        after(next(m, evs[0]).0, evs.drop_first())
    }
}

/// The actions handed out, one for each event of `evs`, starting from `m`.
pub open spec fn actions<E>(m: ConnectionManager, evs: Seq<Event<E>>) -> Seq<Action<E>>
    decreases evs.len(),
{
    if evs.len() == 0 {
        seq![]
    } else {
        seq![next(m, evs[0]).1] + actions(next(m, evs[0]).0, evs.drop_first())
    }
}

/// What the transport is asked to send by action `a`, as a message.
pub open spec fn sent_by<E>(a: Action<E>) -> Seq<Message> {
    match a {
        Action::SendReported(v) => seq![Message::Reported(v)],
        Action::SendD2C(x) => seq![Message::D2C(x)],
        _ => seq![],
    }
}

/// The messages handed to the transport by `acts`, in order.
pub open spec fn dispatched<E>(acts: Seq<Action<E>>) -> Seq<Message>
    decreases acts.len(),
{
    if acts.len() == 0 {
        seq![]
    } else {
        sent_by(acts[0]) + dispatched(acts.drop_first())
    }
}

/// The reported state or telemetry that event `e` brings from the
/// application, if any.
pub open spec fn submitted_by<E>(e: Event<E>) -> Seq<Message> {
    match e {
        Event::Received(Some(Message::Reported(v))) => seq![Message::Reported(v)],
        Event::Received(Some(Message::D2C(x))) => seq![Message::D2C(x)],
        _ => seq![],
    }
}

/// The reported states and telemetry that the application submitted in
/// `evs`, in order.
pub open spec fn submitted<E>(evs: Seq<Event<E>>) -> Seq<Message>
    decreases evs.len(),
{
    if evs.len() == 0 {
        seq![]
    } else {
        submitted_by(evs[0]) + submitted(evs.drop_first())
    }
}

/// Event `e` ends the loop with result `r`: the run flag read false, a
/// `Terminate` message, or a failed step.
pub open spec fn stops_with<E>(e: Event<E>, r: Result<(), E>) -> bool {
    match e {
        Event::Flag(running) => !running && r == Ok::<(), E>(()),
        Event::Received(Some(Message::Terminate)) => r == Ok::<(), E>(()),
        Event::LivenessInitialized(x) => x is Err && x == r,
        Event::Constructed(x) => x is Err && x == r,
        Event::Sent(x) => x is Err && x == r,
        Event::Notified(x) => x is Err && x == r,
        _ => false,
    }
}

/// Once the loop has ended, the manager waits for nothing: no event of any
/// kind is taken, so no further action is handed out.
pub proof fn lemma_terminated_takes_nothing<E>(m: ConnectionManager, evs: Seq<Event<E>>)
    requires
        m.phase is Terminated,
        valid_trace(m, evs),
    ensures
        evs.len() == 0,
{
    if evs.len() > 0 {
        assert(!fits(m.phase, evs[0]));
    }
}

/// One action for each event.
pub proof fn lemma_actions_len<E>(m: ConnectionManager, evs: Seq<Event<E>>)
    ensures
        actions(m, evs).len() == evs.len(),
    decreases evs.len(),
{
    if evs.len() > 0 {
        lemma_actions_len(next(m, evs[0]).0, evs.drop_first());
    }
}

proof fn lemma_step_stops<E>(m: ConnectionManager, e: Event<E>, r: Result<(), E>)
    requires
        fits(m.phase, e),
        stops_with(e, r),
    ensures
        next(m, e) == end(m, r),
{
}

/// An event that ends the loop is the last event of any run, and the last
/// action hands out its result.
pub proof fn lemma_stop_is_last<E>(m: ConnectionManager, evs: Seq<Event<E>>, i: int, r: Result<(), E>)
    requires
        valid_trace(m, evs),
        0 <= i < evs.len(),
        stops_with(evs[i], r),
    ensures
        evs.len() == i + 1,
        actions(m, evs).len() == evs.len(),
        actions(m, evs)[i] == Action::Exit(r),
        after(m, evs).phase is Terminated,
    decreases i,
{
    lemma_actions_len(m, evs);
    let m1 = next(m, evs[0]).0;
    let rest = evs.drop_first();
    if i == 0 {
        lemma_step_stops(m, evs[0], r);
        lemma_terminated_takes_nothing(m1, rest);
        assert(actions(m1, rest) =~= seq![]);
    } else {
        lemma_stop_is_last(m1, rest, i - 1, r);
        assert(rest[i - 1] == evs[i]);
    }
}

proof fn lemma_step_sends<E>(m: ConnectionManager, e: Event<E>)
    requires
        fits(m.phase, e),
    ensures
        sent_by(next(m, e).1) == submitted_by(e),
{
}

/// The transport is asked to send reported states and telemetry exactly in
/// the order in which the application submitted them, none left out and
/// none added.
pub proof fn lemma_sends_keep_submission_order<E>(m: ConnectionManager, evs: Seq<Event<E>>)
    requires
        valid_trace(m, evs),
    ensures
        dispatched(actions(m, evs)) == submitted(evs),
    decreases evs.len(),
{
    if evs.len() > 0 {
        let (m1, a) = next(m, evs[0]);
        let rest = evs.drop_first();
        lemma_step_sends(m, evs[0]);
        lemma_sends_keep_submission_order(m1, rest);
        let acts = actions(m, evs);
        assert(acts[0] == a);
        assert(acts.drop_first() =~= actions(m1, rest));
    }
}

/// A `Terminate` message ends the loop on the spot: the exit is the very
/// action that answers it, with no tick of background work or wait for the
/// run flag before it, and nothing comes after it.
pub proof fn lemma_terminate_exits_at_once<E>(m: ConnectionManager, evs: Seq<Event<E>>, i: int)
    requires
        valid_trace(m, evs),
        0 <= i < evs.len(),
        evs[i] == Event::<E>::Received(Some(Message::Terminate)),
    ensures
        evs.len() == i + 1,
        actions(m, evs)[i] == Action::<E>::Exit(Ok(())),
        after(m, evs).phase is Terminated,
{
    lemma_stop_is_last(m, evs, i, Ok(()));
}

/// Once the run flag is read false, the loop ends with success: no further
/// iteration, receive or tick follows.
pub proof fn lemma_stop_flag_ends_loop<E>(m: ConnectionManager, evs: Seq<Event<E>>, i: int)
    requires
        valid_trace(m, evs),
        0 <= i < evs.len(),
        evs[i] == Event::<E>::Flag(false),
    ensures
        evs.len() == i + 1,
        actions(m, evs)[i] == Action::<E>::Exit(Ok(())),
        after(m, evs).phase is Terminated,
{
    lemma_stop_is_last(m, evs, i, Ok(()));
}

/// A failed send ends the loop with that very error, and no later message
/// is processed.
pub proof fn lemma_failed_send_ends_loop<E>(m: ConnectionManager, evs: Seq<Event<E>>, i: int, err: E)
    requires
        valid_trace(m, evs),
        0 <= i < evs.len(),
        evs[i] == Event::Sent(Err::<(), E>(err)),
    ensures
        evs.len() == i + 1,
        actions(m, evs)[i] == Action::Exit(Err::<(), E>(err)),
        after(m, evs).phase is Terminated,
{
    lemma_stop_is_last(m, evs, i, Err(err));
}

/// The transport exists, or the loop has ended.
pub open spec fn started(p: Phase) -> bool {
    !(p is Idle || p is InitializingLiveness || p is Constructing)
}

/// Once the transport exists, it is never constructed again.
proof fn lemma_constructed_once<E>(m: ConnectionManager, evs: Seq<Event<E>>)
    requires
        valid_trace(m, evs),
        started(m.phase),
    ensures
        forall|j: int| 0 <= j < evs.len() ==> !(#[trigger] evs[j] is Constructed),
    decreases evs.len(),
{
    if evs.len() > 0 {
        let rest = evs.drop_first();
        lemma_constructed_once(next(m, evs[0]).0, rest);
        assert forall|j: int| 0 < j < evs.len() implies !(#[trigger] evs[j] is Constructed) by {
            assert(evs[j] == rest[j - 1]);
        }
    }
}

proof fn lemma_nothing_submitted_before_construction<E>(
    m: ConnectionManager,
    evs: Seq<Event<E>>,
    i: int,
    err: E,
)
    requires
        valid_trace(m, evs),
        !started(m.phase),
        0 <= i < evs.len(),
        evs[i] == Event::Constructed(Err::<(), E>(err)),
    ensures
        submitted(evs) == Seq::<Message>::empty(),
    decreases i,
{
    let m1 = next(m, evs[0]).0;
    let rest = evs.drop_first();
    lemma_stop_is_last(m, evs, i, Err(err));
    if i == 0 {
        assert(rest.len() == 0);
        assert(submitted(rest) == Seq::<Message>::empty());
        assert(submitted_by(evs[0]) == Seq::<Message>::empty());
        assert(submitted(evs) =~= Seq::<Message>::empty());
    } else {
        assert(rest.len() == evs.len() - 1);
        assert(rest[i - 1] == evs[i]);
        assert(submitted_by(evs[0]) == Seq::<Message>::empty());
        if started(m1.phase) {
            lemma_constructed_once(m1, rest);
            assert(!(rest[i - 1] is Constructed));
        }
        lemma_nothing_submitted_before_construction(m1, rest, i - 1, err);
        assert(submitted(evs) =~= Seq::<Message>::empty());
    }
}

/// When the transport cannot be constructed, the loop ends with that very
/// error, and nothing is ever sent to the transport.
pub proof fn lemma_failed_construction_sends_nothing<E>(
    m: ConnectionManager,
    evs: Seq<Event<E>>,
    i: int,
    err: E,
)
    requires
        m.phase is Idle,
        valid_trace(m, evs),
        0 <= i < evs.len(),
        evs[i] == Event::Constructed(Err::<(), E>(err)),
    ensures
        evs.len() == i + 1,
        actions(m, evs)[i] == Action::Exit(Err::<(), E>(err)),
        after(m, evs).phase is Terminated,
        dispatched(actions(m, evs)) == Seq::<Message>::empty(),
{
    lemma_stop_is_last(m, evs, i, Err(err));
    lemma_nothing_submitted_before_construction(m, evs, i, err);
    lemma_sends_keep_submission_order(m, evs);
}

} // verus!
