//! The order in which the moments of utterances are announced.
//!
//! The statements here speak of whole runs of a queue, and of what the
//! transitions of a queue record for the callbacks. They are proved of the
//! functions by which the transitions themselves are stated.

use crate::ids::UtteranceId;
use crate::queue::{
    finish_effects, pending_after_finish, pending_after_speak, speak_effects, start_effects,
    stop_effects, stop_notifications,
};
use crate::utterance::{
    is_kept, lemma_notifications_concat, notifications, notify, EffectView, Moment, Notification,
    UtteranceView,
};
use crate::winrt::WinRtView;
use vstd::prelude::*;

verus! {

/// One thing that happens to a queue that is never stopped: a request is
/// submitted without interrupting, or the engine finishes what it plays.
pub enum Step {
    Speak(UtteranceView),
    Finish,
}

/// A queue and everything it has recorded since it was made.
pub struct Run {
    pub pending: Seq<UtteranceView>,
    pub trace: Seq<EffectView>,
}

/// The queue after `steps`, begun idle, and the effects it recorded on the
/// way.
pub open spec fn run(steps: Seq<Step>) -> Run
    decreases steps.len(),
{
    if steps.len() == 0 {
        Run { pending: Seq::empty(), trace: Seq::empty() }
    } else {
        let before = run(steps.drop_last());
        match steps.last() {
            Step::Speak(record) => Run {
                pending: pending_after_speak(before.pending, record, false),
                trace: before.trace + speak_effects(before.pending, record, false),
            },
            Step::Finish => Run {
                pending: pending_after_finish(before.pending),
                trace: before.trace + finish_effects(before.pending),
            },
        }
    }
}

/// The identifiers of the utterances that were submitted in `steps`, in the
/// order of their submission.
pub open spec fn submitted(steps: Seq<Step>) -> Seq<UtteranceId>
    decreases steps.len(),
{
    if steps.len() == 0 {
        Seq::empty()
    } else {
        match steps.last() {
            Step::Speak(record) => submitted(steps.drop_last()).push(record.id),
            Step::Finish => submitted(steps.drop_last()),
        }
    }
}

/// The begin and the end of each of `ids`, one utterance after the other:
/// begin of the first, end of the first, begin of the second, and so on.
pub open spec fn in_turn(ids: Seq<UtteranceId>) -> Seq<Notification>
    decreases ids.len(),
{
    if ids.len() == 0 {
        Seq::empty()
    } else {
        in_turn(ids.drop_last()).push(
            Notification { moment: Moment::Begin, utterance: ids.last() },
        ).push(Notification { moment: Moment::End, utterance: ids.last() })
    }
}

/// The announcement that each of `pending` was stopped, in queue order.
pub open spec fn stopped(pending: Seq<UtteranceView>) -> Seq<Notification> {
    Seq::new(
        pending.len(),
        |i: int| Notification { moment: Moment::Stop, utterance: pending[i].id },
    )
}

/// The identifiers of `pending`, in queue order.
pub open spec fn ids_of(pending: Seq<UtteranceView>) -> Seq<UtteranceId> {
    Seq::new(pending.len(), |i: int| pending[i].id)
}

proof fn lemma_notifications_push(effects: Seq<EffectView>, effect: EffectView)
    ensures
        notifications(effects.push(effect)) == (match effect {
            EffectView::Notify(n) => notifications(effects).push(n),
            _ => notifications(effects),
        }),
{
    assert(effects.push(effect).drop_last() =~= effects);
}

proof fn lemma_notifications_start(record: UtteranceView)
    ensures
        notifications(start_effects(record)) == seq![
            Notification { moment: Moment::Begin, utterance: record.id },
        ],
{
    let none = Seq::<EffectView>::empty();
    assert(notifications(none) =~= Seq::<Notification>::empty());
    lemma_notifications_push(none, EffectView::Play(record));
    lemma_notifications_push(none.push(EffectView::Play(record)), notify(Moment::Begin, record.id));
    assert(start_effects(record) =~= none.push(EffectView::Play(record)).push(
        notify(Moment::Begin, record.id),
    ));
    assert(Seq::<Notification>::empty().push(
        Notification { moment: Moment::Begin, utterance: record.id },
    ) =~= seq![Notification { moment: Moment::Begin, utterance: record.id }]);
}

proof fn lemma_notifications_stop(pending: Seq<UtteranceView>)
    ensures
        notifications(stop_notifications(pending)) == stopped(pending),
        notifications(stop_effects(pending)) == stopped(pending),
    decreases pending.len(),
{
    if pending.len() == 0 {
        assert(stop_notifications(pending) =~= Seq::<EffectView>::empty());
        assert(stopped(pending) =~= Seq::<Notification>::empty());
    } else {
        let shorter = pending.drop_last();
        lemma_notifications_stop(shorter);
        assert(stop_notifications(pending) =~= stop_notifications(shorter).push(
            notify(Moment::Stop, pending.last().id),
        ));
        lemma_notifications_push(
            stop_notifications(shorter),
            notify(Moment::Stop, pending.last().id),
        );
        assert(stopped(pending) =~= stopped(shorter).push(
            Notification { moment: Moment::Stop, utterance: pending.last().id },
        ));
        lemma_notifications_push(stop_notifications(pending), EffectView::Halt);
    }
}

proof fn lemma_notifications_finish(pending: Seq<UtteranceView>)
    ensures
        notifications(finish_effects(pending)) == (if pending.len() == 0 {
            Seq::<Notification>::empty()
        } else if pending.len() == 1 {
            seq![Notification { moment: Moment::End, utterance: pending[0].id }]
        } else {
            seq![
                Notification { moment: Moment::End, utterance: pending[0].id },
                Notification { moment: Moment::Begin, utterance: pending[1].id },
            ]
        }),
{
    let none = Seq::<EffectView>::empty();
    assert(notifications(none) =~= Seq::<Notification>::empty());
    if pending.len() > 0 {
        let ended = seq![notify(Moment::End, pending[0].id)];
        lemma_notifications_push(none, notify(Moment::End, pending[0].id));
        assert(ended =~= none.push(notify(Moment::End, pending[0].id)));
        assert(notifications(ended) =~= seq![
            Notification { moment: Moment::End, utterance: pending[0].id },
        ]);
        if pending.len() > 1 {
            lemma_notifications_start(pending[1]);
            lemma_notifications_concat(ended, start_effects(pending[1]));
            assert(notifications(ended) + notifications(start_effects(pending[1])) =~= seq![
                Notification { moment: Moment::End, utterance: pending[0].id },
                Notification { moment: Moment::Begin, utterance: pending[1].id },
            ]);
        }
    }
}

proof fn lemma_in_turn_push(ids: Seq<UtteranceId>, id: UtteranceId)
    ensures
        in_turn(ids.push(id)) == in_turn(ids).push(
            Notification { moment: Moment::Begin, utterance: id },
        ).push(Notification { moment: Moment::End, utterance: id }),
{
    assert(ids.push(id).drop_last() =~= ids);
}

/// Of a queue that is never stopped and never interrupted, begun idle:
///
/// the utterances that are pending are the last of those submitted, in the
/// order of their submission; and what was announced so far is the begin
/// and the end of each utterance that has left the queue, one utterance
/// after the other in the order of submission, followed by the begin of the
/// utterance at the head of the queue where there is one.
///
/// So begins and ends come in the order of submission, none comes twice,
/// and no utterance begins before the one submitted before it has ended.
pub proof fn lemma_announced_in_order_of_submission(steps: Seq<Step>)
    ensures
        run(steps).pending.len() <= submitted(steps).len(),
        ids_of(run(steps).pending) == submitted(steps).subrange(
            submitted(steps).len() - run(steps).pending.len(),
            submitted(steps).len() as int,
        ),
        notifications(run(steps).trace) == in_turn(
            submitted(steps).subrange(0, submitted(steps).len() - run(steps).pending.len()),
        ) + (if run(steps).pending.len() > 0 {
            seq![Notification { moment: Moment::Begin, utterance: run(steps).pending[0].id }]
        } else {
            Seq::<Notification>::empty()
        }),
    decreases steps.len(),
{
    let now = run(steps);
    let ids = submitted(steps);
    if steps.len() == 0 {
        assert(ids_of(now.pending) =~= ids.subrange(0, 0));
        assert(notifications(now.trace) =~= in_turn(ids.subrange(0, 0)) + Seq::<
            Notification,
        >::empty());
    } else {
        let earlier = steps.drop_last();
        lemma_announced_in_order_of_submission(earlier);
        let before = run(earlier);
        let ids0 = submitted(earlier);
        let done = ids0.len() - before.pending.len();
        let told = notifications(before.trace);
        assert forall|i: int| 0 <= i < before.pending.len() implies #[trigger] before.pending[i].id
            == ids0[done + i] by {
            assert(ids_of(before.pending)[i] == ids0.subrange(done, ids0.len() as int)[i]);
        }
        match steps.last() {
            Step::Speak(record) => {
                let effects = speak_effects(before.pending, record, false);
                lemma_notifications_concat(before.trace, effects);
                assert(ids.subrange(0, done) =~= ids0.subrange(0, done));
                assert(ids_of(now.pending) =~= ids.subrange(done, ids.len() as int));
                if before.pending.len() == 0 {
                    lemma_notifications_start(record);
                    assert(told + notifications(effects) =~= in_turn(ids.subrange(0, done))
                        + seq![Notification { moment: Moment::Begin, utterance: record.id }]);
                } else {
                    assert(notifications(effects) =~= Seq::<Notification>::empty());
                    assert(told + notifications(effects) =~= told);
                }
            },
            Step::Finish => {
                let effects = finish_effects(before.pending);
                lemma_notifications_concat(before.trace, effects);
                lemma_notifications_finish(before.pending);
                if before.pending.len() == 0 {
                    assert(told + notifications(effects) =~= told);
                } else {
                    let head = before.pending[0].id;
                    assert(head == ids0[done]);
                    assert(ids.subrange(0, done + 1) =~= ids0.subrange(0, done).push(head));
                    lemma_in_turn_push(ids0.subrange(0, done), head);
                    assert(ids_of(now.pending) =~= ids.subrange(done + 1, ids.len() as int));
                    if before.pending.len() == 1 {
                        assert(told + notifications(effects) =~= in_turn(
                            ids.subrange(0, done + 1),
                        ) + Seq::<Notification>::empty());
                    } else {
                        assert(now.pending[0] == before.pending[1]);
                        assert(told + notifications(effects) =~= in_turn(
                            ids.subrange(0, done + 1),
                        ) + seq![
                            Notification { moment: Moment::Begin, utterance: now.pending[0].id },
                        ]);
                    }
                }
            },
        }
    }
}

/// Once the engine has finished every utterance that was submitted, the
/// begin and the end of each were announced exactly once, utterance by
/// utterance in the order of submission.
pub proof fn lemma_each_announced_once(steps: Seq<Step>)
    requires
        run(steps).pending.len() == 0,
    ensures
        notifications(run(steps).trace) == in_turn(submitted(steps)),
{
    lemma_announced_in_order_of_submission(steps);
    let ids = submitted(steps);
    assert(ids.subrange(0, ids.len() as int) =~= ids);
    assert(in_turn(ids) + Seq::<Notification>::empty() =~= in_turn(ids));
}

/// A request that interrupts is announced to begin only after the stop of
/// every utterance that was pending has been announced, the one that was
/// being played included: what the callbacks hear is the stops, in queue
/// order, and then the begin, and nothing else.
pub proof fn lemma_interrupt_stops_before_it_begins(
    pending: Seq<UtteranceView>,
    record: UtteranceView,
)
    ensures
        pending_after_speak(pending, record, true) == seq![record],
        notifications(speak_effects(pending, record, true)) == stopped(pending).push(
            Notification { moment: Moment::Begin, utterance: record.id },
        ),
{
    lemma_notifications_stop(pending);
    lemma_notifications_start(record);
    lemma_notifications_concat(stop_effects(pending), start_effects(record));
    assert(stopped(pending) + seq![Notification { moment: Moment::Begin, utterance: record.id }]
        =~= stopped(pending).push(Notification { moment: Moment::Begin, utterance: record.id }));
}

/// One thing that happens to a session of the Windows Runtime that is never
/// stopped: a request is submitted without interrupting, the player finishes
/// its stream, a parameter is set, or the effects are taken.
pub enum SessionStep {
    Speak(Seq<char>),
    Finish,
    Adjust(crate::backend::Parameter, crate::level::Level),
    Take,
}

/// A session, the number that its next utterance will take, and everything
/// it has recorded since it was made, taken or not.
pub struct SessionRun {
    pub session: WinRtView,
    pub next: nat,
    pub recorded: Seq<EffectView>,
}

/// The session `start` after `steps`, where its first utterance takes the
/// number `first`.
pub open spec fn session_run(start: WinRtView, first: nat, steps: Seq<SessionStep>) -> SessionRun
    decreases steps.len(),
{
    if steps.len() == 0 {
        SessionRun { session: start, next: first, recorded: start.outbox }
    } else {
        let before = session_run(start, first, steps.drop_last());
        match steps.last() {
            SessionStep::Speak(text) => SessionRun {
                session: before.session.speak(before.next, text, false),
                next: before.next + 1,
                recorded: before.recorded + speak_effects(
                    before.session.pending,
                    before.session.record(before.next, text),
                    false,
                ),
            },
            SessionStep::Finish => SessionRun {
                session: before.session.finish(),
                next: before.next,
                recorded: before.recorded + finish_effects(before.session.pending),
            },
            SessionStep::Adjust(parameter, value) => SessionRun {
                session: before.session.set(parameter, value),
                ..before
            },
            SessionStep::Take => SessionRun { session: before.session.taken(), ..before },
        }
    }
}

/// What `steps` submit to and report of the queue of the session `start`:
/// each request as the record that the session makes of it, with the values
/// that are in force at that moment.
pub open spec fn queue_steps(start: WinRtView, first: nat, steps: Seq<SessionStep>) -> Seq<Step>
    decreases steps.len(),
{
    if steps.len() == 0 {
        Seq::empty()
    } else {
        let before = session_run(start, first, steps.drop_last());
        let earlier = queue_steps(start, first, steps.drop_last());
        match steps.last() {
            SessionStep::Speak(text) => earlier.push(
                Step::Speak(before.session.record(before.next, text)),
            ),
            SessionStep::Finish => earlier.push(Step::Finish),
            _ => earlier,
        }
    }
}

/// A session that begins idle and with nothing recorded goes through what
/// its queue goes through: setting parameters and taking effects in between
/// changes neither what is pending nor what is recorded in all.
pub proof fn lemma_session_runs_as_its_queue(start: WinRtView, first: nat, steps: Seq<SessionStep>)
    requires
        start.pending.len() == 0,
        start.outbox.len() == 0,
    ensures
        session_run(start, first, steps).session.pending == run(
            queue_steps(start, first, steps),
        ).pending,
        session_run(start, first, steps).recorded == run(queue_steps(start, first, steps)).trace,
    decreases steps.len(),
{
    if steps.len() == 0 {
        assert(start.pending =~= Seq::<UtteranceView>::empty());
        assert(start.outbox =~= Seq::<EffectView>::empty());
    } else {
        lemma_session_runs_as_its_queue(start, first, steps.drop_last());
        let earlier = queue_steps(start, first, steps.drop_last());
        match steps.last() {
            SessionStep::Speak(text) => {
                let before = session_run(start, first, steps.drop_last());
                let step = Step::Speak(before.session.record(before.next, text));
                assert(earlier.push(step).drop_last() =~= earlier);
            },
            SessionStep::Finish => {
                assert(earlier.push(Step::Finish).drop_last() =~= earlier);
            },
            _ => {},
        }
    }
}

/// Of a session of the Windows Runtime that is never stopped and never
/// interrupted, begun idle: once its queue is empty again, everything it has
/// recorded for the callbacks is the begin and the end of each utterance
/// that it accepted, exactly once, utterance by utterance in the order in
/// which it accepted them.
pub proof fn lemma_session_announces_each_once(start: WinRtView, first: nat, steps: Seq<SessionStep>)
    requires
        start.pending.len() == 0,
        start.outbox.len() == 0,
        session_run(start, first, steps).session.pending.len() == 0,
    ensures
        notifications(session_run(start, first, steps).recorded) == in_turn(
            submitted(queue_steps(start, first, steps)),
        ),
{
    lemma_session_runs_as_its_queue(start, first, steps);
    lemma_each_announced_once(queue_steps(start, first, steps));
}

/// Whether `id` is the identifier of an utterance of the Windows Runtime
/// with a number below `issued`.
pub open spec fn numbered_before(id: UtteranceId, issued: nat) -> bool {
    id matches UtteranceId::WinRt(n) && n < issued
}

/// Whether every utterance in `pending` was numbered below `issued`.
pub open spec fn numbered_below(pending: Seq<UtteranceView>, issued: nat) -> bool {
    forall|i: int| 0 <= i < pending.len() ==> numbered_before(#[trigger] pending[i].id, issued)
}

/// A session that numbers its utterances by one counter, begun idle, holds
/// no utterance whose number the counter has not passed: the number that
/// the next request takes is the number of none that is pending.
pub proof fn lemma_session_numbers_below_its_counter(
    start: WinRtView,
    first: nat,
    steps: Seq<SessionStep>,
)
    requires
        start.pending.len() == 0,
        first + steps.len() <= u64::MAX,
    ensures
        session_run(start, first, steps).next <= first + steps.len(),
        numbered_below(
            session_run(start, first, steps).session.pending,
            session_run(start, first, steps).next,
        ),
    decreases steps.len(),
{
    if steps.len() > 0 {
        lemma_session_numbers_below_its_counter(start, first, steps.drop_last());
        let before = session_run(start, first, steps.drop_last());
        let now = session_run(start, first, steps);
        match steps.last() {
            SessionStep::Speak(text) => {
                assert forall|i: int| 0 <= i < now.session.pending.len() implies numbered_before(
                    #[trigger] now.session.pending[i].id,
                    now.next,
                ) by {
                    if i < before.session.pending.len() {
                        assert(now.session.pending[i] == before.session.pending[i]);
                        assert(numbered_before(before.session.pending[i].id, before.next));
                    }
                }
            },
            SessionStep::Finish => {
                assert forall|i: int| 0 <= i < now.session.pending.len() implies numbered_before(
                    #[trigger] now.session.pending[i].id,
                    now.next,
                ) by {
                    assert(now.session.pending[i] == before.session.pending[i + 1]);
                    assert(numbered_before(before.session.pending[i + 1].id, before.next));
                }
            },
            _ => {},
        }
    }
}

/// A request that interrupts a session takes the place of everything that
/// was pending. The session records the stop of every utterance that was
/// pending, the one that was being played included, each once and in queue
/// order, and after them the begin of the new utterance; it records nothing
/// else for the callbacks. For the engine it records, between the stops and
/// the begin, the order to fall silent and then the order to play the new
/// utterance. The new utterance alone is pending. And where
/// the utterances that were pending were numbered below the number that the
/// new one takes, the new identifier is none of theirs.
pub proof fn lemma_session_interrupt(session: WinRtView, number: nat, text: Seq<char>)
    ensures
        session.speak(number, text, true).pending == seq![session.record(number, text)],
        notifications(session.speak(number, text, true).outbox) == notifications(session.outbox)
            + stopped(session.pending).push(
            Notification { moment: Moment::Begin, utterance: session.record(number, text).id },
        ),
        session.pending.len() > 0 ==> session.speak(number, text, true).outbox == session.outbox
            + stop_notifications(session.pending).push(EffectView::Halt) + start_effects(
            session.record(number, text),
        ),
        number <= u64::MAX && numbered_below(session.pending, number) ==> forall|i: int|
            0 <= i < session.pending.len() ==> (#[trigger] session.pending[i]).id
                != session.record(number, text).id,
{
    let record = session.record(number, text);
    assert(session.outbox + (stop_effects(session.pending) + start_effects(record))
        =~= session.outbox + stop_effects(session.pending) + start_effects(record));
    lemma_interrupt_stops_before_it_begins(session.pending, record);
    lemma_notifications_concat(session.outbox, speak_effects(session.pending, record, true));
    if number <= u64::MAX && numbered_below(session.pending, number) {
        assert forall|i: int| 0 <= i < session.pending.len() implies (
        #[trigger] session.pending[i]).id != record.id by {
            assert(numbered_before(session.pending[i].id, number));
        }
    }
}

/// Stopping an idle session changes nothing: the queue stays empty, and
/// nothing is recorded, neither for the engine nor for a callback.
pub proof fn lemma_stop_when_idle_is_no_op(session: WinRtView)
    requires
        session.pending.len() == 0,
    ensures
        session.stop() == session,
{
    assert(session.outbox + stop_effects(session.pending) =~= session.outbox);
    assert(session.pending =~= Seq::<UtteranceView>::empty());
}

/// When the engine refuses the utterance that it was told to play, nothing
/// is left of what was recorded to start the utterance: the order to play
/// has failed, and the begin that stood behind it is withheld.
pub proof fn lemma_begin_of_a_refused_utterance_is_withheld(record: UtteranceView)
    ensures
        start_effects(record).len() == 2,
        start_effects(record)[0] == EffectView::Play(record),
        start_effects(record).subrange(1, 2).filter(|e: EffectView| is_kept(e, record.id))
            == Seq::<EffectView>::empty(),
{
    reveal_with_fuel(Seq::filter, 2);
    let keep = |e: EffectView| is_kept(e, record.id);
    let behind = start_effects(record).subrange(1, 2);
    assert(behind.last() == notify(Moment::Begin, record.id));
    assert(!keep(behind.last()));
    assert(behind.drop_last().len() == 0);
    assert(behind.drop_last().filter(keep) =~= Seq::<EffectView>::empty());
    assert(behind.filter(keep) == behind.drop_last().filter(keep));
}

/// Closing a session announces the stop of every utterance that is pending,
/// in queue order, and only then asks for the session to be forgotten: the
/// request to forget is the last effect, and every stop stands before it.
pub proof fn lemma_close_stops_all_before_forgetting(session: WinRtView)
    ensures
        session.close().pending.len() == 0,
        session.close().outbox == (session.outbox + stop_effects(session.pending)).push(
            EffectView::Forget(session.id),
        ),
        notifications(session.close().outbox) == notifications(session.outbox) + stopped(
            session.pending,
        ),
{
    let stops = stop_effects(session.pending);
    lemma_notifications_stop(session.pending);
    lemma_notifications_concat(session.outbox, stops);
    lemma_notifications_push(session.outbox + stops, EffectView::Forget(session.id));
}

/// A change of rate or volume leaves every text that waits in a session of
/// AppKit as it is, and records nothing for the synthesizer: each text is
/// spoken with the values that were in force when it was accepted.
pub proof fn lemma_set_keeps_waiting_texts(
    session: crate::appkit::AppKitView,
    parameter: crate::backend::Parameter,
    value: crate::level::Level,
)
    ensures
        session.set(parameter, value).strings == session.strings,
        session.set(parameter, value).outbox == session.outbox,
        session.strings.len() > 1 ==> session.set(parameter, value).finish().outbox
            == session.outbox + crate::appkit::start_effects(session.strings[1]),
{
}

/// A change of rate, pitch or volume leaves every pending utterance as it
/// is, so each is played with the values that were in force when it was
/// submitted.
pub proof fn lemma_set_keeps_pending(
    session: WinRtView,
    parameter: crate::backend::Parameter,
    value: crate::level::Level,
)
    ensures
        session.set(parameter, value).pending == session.pending,
        session.set(parameter, value).outbox == session.outbox,
{
}

} // verus!
