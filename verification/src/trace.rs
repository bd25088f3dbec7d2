use vstd::prelude::*;
use crate::error::ReadError;
use crate::request::{BUFFER_SIZE, READ_OFFSET, REQUEST_TAG};
use crate::session::{finish, step, Action, Event, Phase, Session};

verus! {

/// Where a fresh session stands after `events`, and the actions it has asked
/// for on the way. A refused event changes nothing.
pub open spec fn play(events: Seq<Event>) -> (Phase, Seq<Action>)
    decreases events.len(),
{
    if events.len() == 0 {
        (Phase::Idle, Seq::empty())
    } else {
        let (phase, asked) = play(events.drop_last());
        match step(phase, events.last()) {
            Some((next, action)) => (next, asked.push(action)),
            None => (phase, asked),
        }
    }
}

/// Whether `actions` asks for a ring anywhere.
pub open spec fn asks_for_ring(actions: Seq<Action>) -> bool {
    exists|i: int| 0 <= i < actions.len() && (#[trigger] actions[i]) is CreateRing
}

/// Feeds `events` to a fresh session, one after the other, and returns the
/// session together with the actions it asked for.
pub fn replay(events: &Vec<Event>) -> (result: (Session, Vec<Action>))
    ensures
        result.0@ == play(events@).0,
        result.1@ == play(events@).1,
{
    let mut session = Session::new();
    let mut asked: Vec<Action> = Vec::new();
    let mut i: usize = 0;
    assert(events@.take(0) =~= Seq::<Event>::empty());
    while i < events.len()
        invariant
            i <= events.len(),
            session@ == play(events@.take(i as int)).0,
            asked@ == play(events@.take(i as int)).1,
        decreases events.len() - i,
    {
        proof {
            let longer = events@.take(i + 1);
            assert(longer.drop_last() =~= events@.take(i as int));
            assert(longer.last() == events@[i as int]);
        }
        match session.advance(events[i]) {
            Some(action) => {
                asked.push(action);
            },
            None => {},
        }
        i += 1;
    }
    assert(events@.take(events.len() as int) =~= events@);
    (session, asked)
}

/// Once a read is over, no event is accepted any more.
pub proof fn completed_is_terminal(phase: Phase, event: Event)
    requires
        phase is Completed,
    ensures
        step(phase, event) is None,
{
}

/// Every accepted event moves the read forward: to the next phase in order,
/// or straight to its end. No phase is entered twice or out of turn.
pub proof fn steps_go_forward(phase: Phase, event: Event)
    requires
        step(phase, event) is Some,
    ensures
        ({
            let (next, _) = step(phase, event)->0;
            &&& next.rank() > phase.rank()
            &&& (next.rank() == phase.rank() + 1 || next is Completed)
        }),
{
}

/// A reported failure ends the read at once with an error, and that error is
/// what the driver is told to hand on. Nothing is retried.
pub proof fn failure_is_final(phase: Phase, event: Event)
    requires
        event.is_failure(),
        step(phase, event) is Some,
    ensures
        ({
            let (next, action) = step(phase, event)->0;
            &&& next matches Phase::Completed { outcome }
            &&& outcome is Err
            &&& action == (Action::Finish { outcome })
        }),
{
}

/// A read is reported as a success only when a completion was taken in the
/// phase that follows the wait, and the byte count is that completion's code.
pub proof fn success_needs_completion(phase: Phase, event: Event, n: usize)
    requires
        step(phase, event) == Some(finish(Ok(n))),
    ensures
        phase is Submitted,
        event matches Event::Completion { result } && result.code >= 0 && result.code == n,
{
}

/// A failed read operation is reported only for a completion with a negative
/// code, and the error number is the absolute value of that code.
pub proof fn read_error_needs_negative_code(phase: Phase, event: Event, errno: u32)
    requires
        step(phase, event) == Some(finish(Err(ReadError::ReadOperation { errno }))),
    ensures
        phase is Submitted,
        event matches Event::Completion { result } && result.code < 0 && errno == -result.code,
{
}

/// The buffer is lent to the kernel when the request is pushed and at no
/// other moment, and it comes back only when the read is over.
pub proof fn lease_spans_enqueue_to_completion(phase: Phase, event: Event)
    requires
        step(phase, event) is Some,
    ensures
        ({
            let (next, _) = step(phase, event)->0;
            &&& !phase.kernel_holds_buffer() && next.kernel_holds_buffer() ==> phase is Built
                && event is Pushed
            &&& phase.kernel_holds_buffer() && !next.kernel_holds_buffer() ==> next is Completed
        }),
{
}

/// Once built, a request is frozen: as long as the session carries one, it is
/// the same one.
pub proof fn request_is_frozen(phase: Phase, event: Event)
    requires
        step(phase, event) is Some,
        phase.request() is Some,
    ensures
        ({
            let (next, _) = step(phase, event)->0;
            next.request() is Some ==> next.request() == phase.request()
        }),
{
}

/// Whatever the events, the phase that a session reaches is well formed, and
/// while the kernel holds the buffer the request in flight is the fixed one:
/// it names a region that lies inside the buffer, starts at the fixed offset
/// and carries the fixed tag.
pub proof fn leased_region_fits(events: Seq<Event>)
    ensures
        play(events).0.wf(),
        play(events).0.kernel_holds_buffer() ==> (play(events).0.request() matches Some(r)
            && r.fits(BUFFER_SIZE as nat) && r.offset == READ_OFFSET && r.tag == REQUEST_TAG),
    decreases events.len(),
{
    if events.len() > 0 {
        leased_region_fits(events.drop_last());
    }
}

/// A session asks for at most six actions, and never for more than the rank
/// of the phase it has reached.
pub proof fn actions_are_bounded(events: Seq<Event>)
    ensures
        play(events).1.len() <= play(events).0.rank() <= 6,
    decreases events.len(),
{
    if events.len() > 0 {
        actions_are_bounded(events.drop_last());
    }
}

/// A read that ended because the file could not be opened never asked for a
/// ring, and no session asks for one before the file is open.
pub proof fn open_failure_precedes_ring(events: Seq<Event>)
    ensures
        play(events).0.rank() < 2 ==> !asks_for_ring(play(events).1),
        (play(events).0 matches Phase::Completed { outcome: Err(ReadError::FileOpen { .. }) })
            ==> !asks_for_ring(play(events).1),
    decreases events.len(),
{
    if events.len() > 0 {
        let shorter = events.drop_last();
        open_failure_precedes_ring(shorter);
        let (phase, asked) = play(shorter);
        let now = play(events).1;
        match step(phase, events.last()) {
            Some((next, action)) => {
                if !(action is CreateRing) && !asks_for_ring(asked) && asks_for_ring(now) {
                    let i = choose|i: int| 0 <= i < now.len() && (#[trigger] now[i]) is CreateRing;
                    if i < asked.len() {
                        assert(asked[i] is CreateRing);
                    }
                }
            },
            None => {},
        }
    }
}

} // verus!
