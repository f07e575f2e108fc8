//! Runs of a session: what it does over a whole sequence of events, and what
//! holds of every such sequence.

use crate::change::differs;
use crate::monitor::{
    transition, ActionView, EventView, NotificationView, Phase, SessionView, POLL_INTERVAL_MILLIS,
};
use crate::window::{most_recent, SnapshotView};
use vstd::prelude::*;

verus! {

/// One event, and whether a stop had been asked for when it was handed in.
pub ghost struct Input {
    pub event: EventView,
    pub cancelled: bool,
}

/// Where a run has left the session, with all that the observer was told and
/// all that was asked of the program, in order.
pub ghost struct Run {
    pub state: SessionView,
    pub notifications: Seq<NotificationView>,
    pub actions: Seq<ActionView>,
}

/// The run of `session` over `inputs`, handed in one after the other.
pub open spec fn run(session: SessionView, inputs: Seq<Input>) -> Run
    decreases inputs.len(),
{
    if inputs.len() == 0 {
        Run { state: session, notifications: Seq::empty(), actions: Seq::empty() }
    } else {
        let before = run(session, inputs.drop_last());
        let last = transition(before.state, inputs.last().event, inputs.last().cancelled);
        Run {
            state: last.state,
            notifications: before.notifications + last.step.notifications,
            actions: before.actions.push(last.step.action),
        }
    }
}

/// The version numbers of the critiques among `notifications`, in order.
pub open spec fn delivered_versions(notifications: Seq<NotificationView>) -> Seq<nat>
    decreases notifications.len(),
{
    if notifications.len() == 0 {
        Seq::empty()
    } else {
        let earlier = delivered_versions(notifications.drop_last());
        match notifications.last() {
            NotificationView::FeedbackReceived { version, .. } => earlier.push(version),
            _ => earlier,
        }
    }
}

/// Whether each number in `versions` is greater than all before it.
pub open spec fn strictly_increasing(versions: Seq<nat>) -> bool {
    forall|i: int, j: int| 0 <= i < j < versions.len() ==> versions[i] < versions[j]
}

/// Whether `input` is a wait that ended, or a read of a text that is no
/// change from `seen`, with no stop asked for.
pub open spec fn is_quiet(seen: Seq<char>, input: Input) -> bool {
    !input.cancelled && match input.event {
        EventView::WaitElapsed => true,
        EventView::ContentRead { text } => !differs(seen, text),
        _ => false,
    }
}

/// The versions delivered in two stretches of notifications are those of the
/// first followed by those of the second.
proof fn lemma_delivered_versions_of_concatenation(
    first: Seq<NotificationView>,
    second: Seq<NotificationView>,
)
    ensures
        delivered_versions(first + second) == delivered_versions(first) + delivered_versions(
            second,
        ),
    decreases second.len(),
{
    if second.len() == 0 {
        assert(first + second =~= first);
        assert(delivered_versions(first) + delivered_versions(second) =~= delivered_versions(
            first,
        ));
    } else {
        lemma_delivered_versions_of_concatenation(first, second.drop_last());
        assert((first + second).drop_last() =~= first + second.drop_last());
        assert((first + second).last() == second.last());
        match second.last() {
            NotificationView::FeedbackReceived { version, .. } => {
                assert((delivered_versions(first) + delivered_versions(second.drop_last())).push(
                    version,
                ) =~= delivered_versions(first) + delivered_versions(second.drop_last()).push(
                    version,
                ));
            },
            _ => {},
        }
    }
}

/// One event delivers at most one critique. If it delivers one, the critique
/// carries the session's version number and the number goes up by one; if it
/// delivers none, the number stays.
proof fn lemma_one_step_delivers_in_order(session: SessionView, input: Input)
    ensures
        ({
            let after = transition(session, input.event, input.cancelled);
            let delivered = delivered_versions(after.step.notifications);
            ||| delivered == Seq::<nat>::empty() && after.state.next_version
                == session.next_version
            ||| delivered == seq![session.next_version] && after.state.next_version
                == session.next_version + 1
        }),
{
    let after = transition(session, input.event, input.cancelled);
    let told = after.step.notifications;
    reveal_with_fuel(delivered_versions, 5);
    if told.len() == 0 {
    } else if told.len() == 1 {
        assert(told.drop_last().len() == 0);
        assert(delivered_versions(told) =~= Seq::<nat>::empty());
    } else if told.len() == 2 {
        assert(told.drop_last().len() == 1);
        assert(told.drop_last().drop_last().len() == 0);
        assert(told.drop_last().last() == told[0]);
        if told[1] is FeedbackReceived {
            assert(delivered_versions(told) =~= seq![session.next_version]);
        } else {
            assert(delivered_versions(told) =~= Seq::<nat>::empty());
        }
    } else {
        assert(told.len() == 3);
        assert(told.drop_last().len() == 2);
        assert(told.drop_last().last() == told[1]);
        assert(told.drop_last().drop_last().len() == 1);
        assert(told.drop_last().drop_last().last() == told[0]);
        assert(told.drop_last().drop_last().drop_last().len() == 0);
        if told[1] is FeedbackReceived {
            assert(delivered_versions(told) =~= seq![session.next_version]);
        } else {
            assert(delivered_versions(told) =~= Seq::<nat>::empty());
        }
    }
}

/// Whatever happens, in whatever order, and however many requests fail in
/// between: the critiques that reach the observer carry version numbers that
/// strictly increase, so none comes twice. They start at the session's number
/// and leave no number out.
pub proof fn lemma_delivered_versions_strictly_increase(session: SessionView, inputs: Seq<Input>)
    ensures
        strictly_increasing(delivered_versions(run(session, inputs).notifications)),
        forall|i: int|
            0 <= i < delivered_versions(run(session, inputs).notifications).len()
                ==> #[trigger] delivered_versions(run(session, inputs).notifications)[i]
                == session.next_version + i,
        run(session, inputs).state.next_version == session.next_version + delivered_versions(
            run(session, inputs).notifications,
        ).len(),
    decreases inputs.len(),
{
    if inputs.len() > 0 {
        let before = run(session, inputs.drop_last());
        let last = transition(before.state, inputs.last().event, inputs.last().cancelled);
        lemma_delivered_versions_strictly_increase(session, inputs.drop_last());
        lemma_one_step_delivers_in_order(before.state, inputs.last());
        lemma_delivered_versions_of_concatenation(before.notifications, last.step.notifications);
    }
}

/// Whether `held` is no text yet, or a text from which `reference` is no
/// change.
pub open spec fn agrees(held: Option<Seq<char>>, reference: Seq<char>) -> bool {
    held matches Some(text) ==> !differs(text, reference)
}

/// While the text that is read stays what it was, but for the whitespace
/// around it, a polling session does nothing: its window gets no snapshot,
/// its version number stays, the observer is told nothing, and no request is
/// asked for, only reads and waits. This holds of a session that has read
/// nothing yet as well: the text that it finds first is no change. A session
/// that had a text to hold the reads against stays exactly as it is.
pub proof fn lemma_unchanged_reads_do_nothing(
    session: SessionView,
    reference: Seq<char>,
    inputs: Seq<Input>,
)
    requires
        session.phase == Phase::Polling,
        agrees(session.last_content, reference),
        forall|i: int| 0 <= i < inputs.len() ==> is_quiet(reference, #[trigger] inputs[i]),
    ensures
        run(session, inputs).state.phase == Phase::Polling,
        run(session, inputs).state.window == session.window,
        run(session, inputs).state.next_version == session.next_version,
        agrees(run(session, inputs).state.last_content, reference),
        session.last_content is Some ==> run(session, inputs).state == session,
        run(session, inputs).notifications == Seq::<NotificationView>::empty(),
        run(session, inputs).actions.len() == inputs.len(),
        forall|i: int|
            0 <= i < inputs.len() ==> #[trigger] run(session, inputs).actions[i] == (
            if inputs[i].event is WaitElapsed {
                ActionView::ReadContent
            } else {
                ActionView::Wait { millis: POLL_INTERVAL_MILLIS as nat }
            }),
    decreases inputs.len(),
{
    if inputs.len() > 0 {
        lemma_unchanged_reads_do_nothing(session, reference, inputs.drop_last());
        assert(is_quiet(reference, inputs.last()));
        let before = run(session, inputs.drop_last());
        assert(before.notifications + Seq::<NotificationView>::empty() =~= Seq::<
            NotificationView,
        >::empty());
        assert forall|i: int| 0 <= i < inputs.len() implies #[trigger] run(
            session,
            inputs,
        ).actions[i] == (if inputs[i].event is WaitElapsed {
            ActionView::ReadContent
        } else {
            ActionView::Wait { millis: POLL_INTERVAL_MILLIS as nat }
        }) by {
            if i < inputs.len() - 1 {
                assert(inputs.drop_last()[i] == inputs[i]);
                assert(run(session, inputs).actions[i] == before.actions[i]);
            }
        }
    }
}

/// The text as a session finds it at its first read is no change: the session
/// takes it as the text to hold later reads against, tells the observer
/// nothing, asks for no request, and waits.
pub proof fn lemma_first_read_brings_no_request(session: SessionView, text: Seq<char>)
    requires
        session.phase == Phase::Polling,
        session.last_content is None,
    ensures
        transition(session, EventView::ContentRead { text }, false).state == (SessionView {
            last_content: Some(text),
            ..session
        }),
        transition(session, EventView::ContentRead { text }, false).step.notifications == Seq::<
            NotificationView,
        >::empty(),
        transition(session, EventView::ContentRead { text }, false).step.action == (
        ActionView::Wait { millis: POLL_INTERVAL_MILLIS as nat }),
{
}

/// Whether no snapshot in `snapshots` holds the text of the one before it,
/// but for the whitespace around it.
pub open spec fn never_repeats(snapshots: Seq<SnapshotView>) -> bool {
    forall|i: int|
        0 <= i < snapshots.len() - 1 ==> differs(
            (#[trigger] snapshots[i]).text,
            snapshots[i + 1].text,
        )
}

/// Whether the window of `session` never repeats itself and ends with the
/// text that the session holds its reads against.
pub open spec fn window_follows_changes(session: SessionView) -> bool {
    &&& never_repeats(session.window.snapshots)
    &&& session.window.snapshots.len() > 0 ==> session.last_content == Some(
        session.window.snapshots.last().text,
    )
}

/// One event keeps the window free of repetitions.
proof fn lemma_one_step_never_repeats(session: SessionView, input: Input)
    requires
        window_follows_changes(session),
    ensures
        window_follows_changes(transition(session, input.event, input.cancelled).state),
{
    let after = transition(session, input.event, input.cancelled).state;
    if after.window != session.window {
        let text = input.event->ContentRead_text;
        let held = session.window.snapshots;
        let all = held.push(SnapshotView { version: session.next_version, text });
        assert(never_repeats(all)) by {
            assert forall|i: int| 0 <= i < all.len() - 1 implies differs(
                (#[trigger] all[i]).text,
                all[i + 1].text,
            ) by {
                if i < held.len() - 1 {
                    assert(all[i] == held[i]);
                    assert(all[i + 1] == held[i + 1]);
                }
            }
        }
        let kept = after.window.snapshots;
        assert(kept == most_recent(all, session.window.capacity));
        assert forall|i: int| 0 <= i < kept.len() - 1 implies differs(
            (#[trigger] kept[i]).text,
            kept[i + 1].text,
        ) by {
            let shift = all.len() - kept.len();
            assert(kept[i] == all[shift + i]);
            assert(kept[i + 1] == all[shift + i + 1]);
        }
    }
}

/// The window of a session never holds the same text twice in a row: from a
/// session whose window is empty, whatever happens, each snapshot in the
/// window differs from the one before it by more than the whitespace around
/// it.
pub proof fn lemma_window_never_repeats(session: SessionView, inputs: Seq<Input>)
    requires
        session.window.snapshots.len() == 0,
    ensures
        never_repeats(run(session, inputs).state.window.snapshots),
        window_follows_changes(run(session, inputs).state),
    decreases inputs.len(),
{
    if inputs.len() > 0 {
        lemma_window_never_repeats(session, inputs.drop_last());
        lemma_one_step_never_repeats(run(session, inputs.drop_last()).state, inputs.last());
    }
}

/// A session that has stopped stays stopped, whatever happens: it tells the
/// observer nothing more and asks for nothing but the end of the loop.
pub proof fn lemma_stopped_is_final(session: SessionView, event: EventView, cancelled: bool)
    requires
        session.phase == Phase::Stopped,
    ensures
        transition(session, event, cancelled).state == session,
        transition(session, event, cancelled).step.notifications == Seq::<NotificationView>::empty(),
        transition(session, event, cancelled).step.action == ActionView::Halt,
{
}

/// A request is asked for only by a session that is polling, and puts the
/// session into the phase in which it asks for no other until the request has
/// ended: at most one request is under way.
pub proof fn lemma_one_request_at_a_time(session: SessionView, event: EventView, cancelled: bool)
    ensures
        transition(session, event, cancelled).step.action is Complete ==> session.phase
            == Phase::Polling && transition(session, event, cancelled).state.phase
            == Phase::Requesting,
        session.phase == Phase::Requesting ==> !(transition(
            session,
            event,
            cancelled,
        ).step.action is Complete),
        session.phase == Phase::Requesting && !(event is Completed) ==> transition(
            session,
            event,
            cancelled,
        ).state == session,
{
}

} // verus!
