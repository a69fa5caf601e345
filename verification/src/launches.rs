//! What holds of whole sequences of launches within one session.

use crate::arbiter::{directive_of, exit_status_of, Directive, Outcome};
use crate::session::{Channel, LaunchAttemptView, ProcessInstanceView, SessionView};
use vstd::prelude::*;

verus! {

/// A launch as the session sees it: the attempt, and the state of the
/// marker mechanism when the process asks.
pub struct Launch {
    pub attempt: LaunchAttemptView,
    pub channel: Channel,
}

/// The launches of the given attempts when the marker mechanism works each
/// time.
pub open spec fn healthy(attempts: Seq<LaunchAttemptView>) -> Seq<Launch> {
    Seq::new(attempts.len(), |i: int| Launch { attempt: attempts[i], channel: Channel::Healthy })
}

/// The session after a sequence of launches, oldest first.
pub open spec fn session_after(session: SessionView, launches: Seq<Launch>) -> SessionView
    decreases launches.len(),
{
    if launches.len() == 0 {
        session
    } else {
        session_after(session, launches.drop_last()).launched(
            launches.last().attempt,
            launches.last().channel,
        )
    }
}

/// The outcome of each launch of a sequence, in the order of the launches.
pub open spec fn outcomes(session: SessionView, launches: Seq<Launch>) -> Seq<Outcome> {
    Seq::new(
        launches.len(),
        |i: int| session_after(session, launches.take(i)).outcome(launches[i].channel),
    )
}

/// The attempts of a sequence of launches that were given the secondary
/// role, in the order of their arrival.
pub open spec fn secondaries(session: SessionView, launches: Seq<Launch>) -> Seq<LaunchAttemptView>
    decreases launches.len(),
{
    if launches.len() == 0 {
        Seq::empty()
    } else {
        let earlier = secondaries(session, launches.drop_last());
        let before = session_after(session, launches.drop_last());
        if before.outcome(launches.last().channel) == Outcome::Secondary {
            earlier.push(launches.last().attempt)
        } else {
            earlier
        }
    }
}

/// While the marker is held, every launch leaves it held: launching never
/// frees the marker.
pub proof fn lemma_marker_stays_held(session: SessionView, launches: Seq<Launch>)
    requires
        session.primary is Some,
    ensures
        session_after(session, launches).primary is Some,
    decreases launches.len(),
{
    if launches.len() > 0 {
        lemma_marker_stays_held(session, launches.drop_last());
    }
}

/// The session after the first `i + 1` launches is the session after the
/// first `i`, with launch `i` made.
proof fn lemma_session_after_take(session: SessionView, launches: Seq<Launch>, i: int)
    requires
        0 <= i < launches.len(),
    ensures
        session_after(session, launches.take(i + 1)) == session_after(
            session,
            launches.take(i),
        ).launched(launches[i].attempt, launches[i].channel),
{
    assert(launches.take(i + 1).drop_last() == launches.take(i));
}

/// No launch is given the primary role while the marker is held.
pub proof fn lemma_no_primary_while_held(session: SessionView, launches: Seq<Launch>)
    requires
        session.primary is Some,
    ensures
        forall|i: int|
            0 <= i < launches.len() ==> #[trigger] outcomes(session, launches)[i]
                != Outcome::Primary,
{
    assert forall|i: int| 0 <= i < launches.len() implies #[trigger] outcomes(
        session,
        launches,
    )[i] != Outcome::Primary by {
        lemma_marker_stays_held(session, launches.take(i));
    }
}

/// In every sequence of launches, whatever the session was before and
/// whether the marker mechanism works or not, at most one launch is given
/// the primary role.
pub proof fn lemma_at_most_one_primary(session: SessionView, launches: Seq<Launch>)
    ensures
        forall|i: int, j: int|
            0 <= i < j < launches.len() && #[trigger] outcomes(session, launches)[i]
                == Outcome::Primary ==> #[trigger] outcomes(session, launches)[j]
                != Outcome::Primary,
{
    assert forall|i: int, j: int|
        0 <= i < j < launches.len() && #[trigger] outcomes(session, launches)[i]
            == Outcome::Primary implies #[trigger] outcomes(session, launches)[j]
        != Outcome::Primary by {
        lemma_session_after_take(session, launches, i);
        let held = session_after(session, launches.take(i + 1));
        assert(held.primary is Some);
        let rest = launches.take(j).skip(i + 1);
        lemma_session_after_concat(session, launches.take(i + 1), rest);
        assert(launches.take(i + 1) + rest == launches.take(j));
        lemma_marker_stays_held(held, rest);
    }
}

/// Launching two sequences one after the other is launching their
/// concatenation.
pub proof fn lemma_session_after_concat(
    session: SessionView,
    first: Seq<Launch>,
    second: Seq<Launch>,
)
    ensures
        session_after(session, first + second) == session_after(
            session_after(session, first),
            second,
        ),
    decreases second.len(),
{
    if second.len() == 0 {
        assert(first + second == first);
    } else {
        lemma_session_after_concat(session, first, second.drop_last());
        assert((first + second).drop_last() == first + second.drop_last());
        assert((first + second).last() == second.last());
    }
}

/// Of one or more launches into an idle session with a working marker
/// mechanism, exactly one is given the primary role, and it is the first.
/// Every other launch is given the secondary role, is told to forward its
/// launch and exit successfully, and opens no window: the session has no
/// window that the primary has not recorded itself.
pub proof fn lemma_exactly_one_primary(attempts: Seq<LaunchAttemptView>)
    requires
        attempts.len() >= 1,
    ensures
        ({
            let given = outcomes(SessionView::idle(), healthy(attempts));
            &&& given.len() == attempts.len()
            &&& given[0] == Outcome::Primary
            &&& forall|i: int|
                1 <= i < attempts.len() ==> {
                    &&& #[trigger] given[i] == Outcome::Secondary
                    &&& directive_of(given[i]) == Directive::ForwardAndExit
                    &&& exit_status_of(directive_of(given[i])) == Some(0i32)
                }
            &&& session_after(SessionView::idle(), healthy(attempts)).window() is None
        }),
{
    let idle = SessionView::idle();
    let launches = healthy(attempts);
    let given = outcomes(idle, launches);
    assert(launches.take(0).len() == 0);
    assert forall|i: int| 1 <= i < attempts.len() implies {
        &&& #[trigger] given[i] == Outcome::Secondary
        &&& directive_of(given[i]) == Directive::ForwardAndExit
        &&& exit_status_of(directive_of(given[i])) == Some(0i32)
    } by {
        lemma_queue_after_healthy_launches(attempts.take(i));
        assert(healthy(attempts.take(i)) == launches.take(i));
    }
    lemma_queue_after_healthy_launches(attempts);
}

/// After one or more launches into an idle session with a working marker
/// mechanism, the first process is the primary, it has no window yet, and
/// its queue holds every later attempt, once each, in the order of arrival.
pub proof fn lemma_queue_after_healthy_launches(attempts: Seq<LaunchAttemptView>)
    requires
        attempts.len() >= 1,
    ensures
        session_after(SessionView::idle(), healthy(attempts)).primary == Some(
            ProcessInstanceView { window: None, inbox: attempts.skip(1) },
        ),
    decreases attempts.len(),
{
    let idle = SessionView::idle();
    let launches = healthy(attempts);
    let before = session_after(idle, launches.drop_last());
    assert(launches.last() == Launch { attempt: attempts.last(), channel: Channel::Healthy });
    assert(session_after(idle, launches) == before.launched(attempts.last(), Channel::Healthy));
    if attempts.len() == 1 {
        assert(launches.drop_last().len() == 0);
        assert(before == idle);
        assert(attempts.skip(1) =~= Seq::empty());
    } else {
        lemma_queue_after_healthy_launches(attempts.drop_last());
        assert(healthy(attempts.drop_last()) == launches.drop_last());
        assert(before.primary->0.inbox == attempts.drop_last().skip(1));
        assert(attempts.drop_last().skip(1).push(attempts.last()) =~= attempts.skip(1));
    }
}

/// A primary that dispatches until nothing is left answers the launches in
/// its queue once each, oldest first.
pub proof fn lemma_dispatch_is_fifo(instance: ProcessInstanceView)
    ensures
        instance.answered() == instance.inbox,
    decreases instance.inbox.len(),
{
    if instance.inbox.len() > 0 {
        lemma_dispatch_is_fifo(instance.dispatched());
        assert(seq![instance.inbox[0]] + instance.dispatched().inbox =~= instance.inbox);
    }
}

/// Every secondary launch is answered by the primary exactly once, and the
/// answers come in the order in which the launches arrived: after launches
/// into an idle session with a working marker mechanism, the primary
/// answers the second, the third, and so on up to the last attempt.
pub proof fn lemma_secondaries_answered_in_order(attempts: Seq<LaunchAttemptView>)
    requires
        attempts.len() >= 1,
    ensures
        session_after(SessionView::idle(), healthy(attempts)).primary is Some,
        session_after(SessionView::idle(), healthy(attempts)).primary->0.answered()
            == attempts.skip(1),
{
    lemma_queue_after_healthy_launches(attempts);
    lemma_dispatch_is_fifo(session_after(SessionView::idle(), healthy(attempts)).primary->0);
}

/// Whatever the session was before and whether the marker mechanism works
/// or not, a sequence of launches adds to the primary's queue exactly the
/// attempts that were given the secondary role, in the order of arrival,
/// and takes nothing from it.
pub proof fn lemma_queue_grows_by_secondaries(session: SessionView, launches: Seq<Launch>)
    ensures
        session_after(session, launches).inbox() == session.inbox() + secondaries(
            session,
            launches,
        ),
    decreases launches.len(),
{
    if launches.len() == 0 {
        assert(session.inbox() + Seq::<LaunchAttemptView>::empty() =~= session.inbox());
    } else {
        lemma_queue_grows_by_secondaries(session, launches.drop_last());
        let before = session_after(session, launches.drop_last());
        let earlier = secondaries(session, launches.drop_last());
        match before.outcome(launches.last().channel) {
            Outcome::Primary => {
                assert(before.inbox() =~= Seq::empty());
            },
            Outcome::Secondary => {
                assert((session.inbox() + earlier).push(launches.last().attempt)
                    =~= session.inbox() + earlier.push(launches.last().attempt));
            },
            Outcome::AcquisitionError => {},
        }
    }
}

} // verus!
