//! What holds of every session, whatever happens to it and in whatever
//! order: its upstream connection is given back once and only once, and no
//! query goes upstream before the client has been let in.

use crate::encoding::{encoded, EncodedRowView};
use crate::session::{
    ends_session, is_final, run, step, SessionActionView, SessionEventView, SessionState, Step,
};
use crate::translate::{
    described, translate_from, translation, ErrorClass, FieldDescriptorView,
    QueryResultEventView, ResponseUnitView, TranslationError,
};
use vstd::prelude::*;

verus! {

/// How often `actions` give the upstream connection back.
pub open spec fn releases(actions: Seq<SessionActionView>) -> nat
    decreases actions.len(),
{
    if actions.len() == 0 {
        0
    } else {
        releases(actions.drop_last()) + if actions.last() is ReleaseUpstream {
            1nat
        } else {
            0nat
        }
    }
}

/// How many queries `actions` send upstream.
pub open spec fn forwards(actions: Seq<SessionActionView>) -> nat
    decreases actions.len(),
{
    if actions.len() == 0 {
        0
    } else {
        forwards(actions.drop_last()) + if actions.last() is ForwardQuery {
            1nat
        } else {
            0nat
        }
    }
}

/// Whether this event is the decision to let the client in.
pub open spec fn lets_in(event: SessionEventView) -> bool {
    event matches SessionEventView::GateDecided(Ok(_))
}

proof fn lemma_releases_add(first: Seq<SessionActionView>, second: Seq<SessionActionView>)
    ensures
        releases(first + second) == releases(first) + releases(second),
    decreases second.len(),
{
    if second.len() > 0 {
        assert((first + second).drop_last() =~= first + second.drop_last());
        lemma_releases_add(first, second.drop_last());
    }
}

proof fn lemma_forwards_add(first: Seq<SessionActionView>, second: Seq<SessionActionView>)
    ensures
        forwards(first + second) == forwards(first) + forwards(second),
    decreases second.len(),
{
    if second.len() > 0 {
        assert((first + second).drop_last() =~= first + second.drop_last());
        lemma_forwards_add(first, second.drop_last());
    }
}

proof fn lemma_releases_of_three(
    a: SessionActionView,
    b: SessionActionView,
    c: SessionActionView,
)
    ensures
        releases(seq![a, b, c]) == (if a is ReleaseUpstream {
            1nat
        } else {
            0nat
        }) + (if b is ReleaseUpstream {
            1nat
        } else {
            0nat
        }) + (if c is ReleaseUpstream {
            1nat
        } else {
            0nat
        }),
        forwards(seq![a, b, c]) == (if a is ForwardQuery {
            1nat
        } else {
            0nat
        }) + (if b is ForwardQuery {
            1nat
        } else {
            0nat
        }) + (if c is ForwardQuery {
            1nat
        } else {
            0nat
        }),
{
    assert(seq![a, b, c] =~= seq![a] + seq![b] + seq![c]);
    lemma_releases_add(seq![a] + seq![b], seq![c]);
    lemma_releases_add(seq![a], seq![b]);
    lemma_forwards_add(seq![a] + seq![b], seq![c]);
    lemma_forwards_add(seq![a], seq![b]);
    lemma_counts_of_one(a);
    lemma_counts_of_one(b);
    lemma_counts_of_one(c);
}

proof fn lemma_counts_of_one(a: SessionActionView)
    ensures
        releases(seq![a]) == if a is ReleaseUpstream {
            1nat
        } else {
            0nat
        },
        forwards(seq![a]) == if a is ForwardQuery {
            1nat
        } else {
            0nat
        },
{
    reveal_with_fuel(releases, 2);
    reveal_with_fuel(forwards, 2);
}

proof fn lemma_run_add(
    state: SessionState,
    first: Seq<SessionEventView>,
    second: Seq<SessionEventView>,
)
    ensures
        run(state, first + second).state == run(run(state, first).state, second).state,
        run(state, first + second).actions == run(state, first).actions + run(
            run(state, first).state,
            second,
        ).actions,
    decreases second.len(),
{
    if second.len() > 0 {
        assert((first + second).drop_last() =~= first + second.drop_last());
        lemma_run_add(state, first, second.drop_last());
    }
}

/// A session that has ended stays as it is: no event changes its state or
/// asks for anything.
pub proof fn lemma_final_state_absorbs(state: SessionState, event: SessionEventView)
    requires
        is_final(state),
    ensures
        step(state, event) == (Step { state, actions: Seq::empty() }),
{
}

/// One step gives the upstream connection back exactly when it ends the
/// session, and then once; and it sends a query upstream only from `Ready`,
/// and then one.
pub proof fn lemma_step_counts(state: SessionState, event: SessionEventView)
    ensures
        releases(step(state, event).actions) == if !is_final(state) && is_final(
            step(state, event).state,
        ) {
            1nat
        } else {
            0nat
        },
        forwards(step(state, event).actions) <= 1,
        forwards(step(state, event).actions) == 1 ==> state is Ready && step(
            state,
            event,
        ).state is Executing,
        step(state, event).state is Ready && !(state is Ready) ==> (state is Executing || lets_in(
            event,
        )),
        step(state, event).state is Executing ==> (state is Executing || state is Ready),
{
    let next = step(state, event);
    if next.actions.len() == 4 {
        let rest = next.actions.subrange(1, 4);
        assert(rest =~= seq![rest[0], rest[1], rest[2]]);
        lemma_counts_of_one(next.actions[0]);
        lemma_releases_of_three(rest[0], rest[1], rest[2]);
        lemma_releases_add(seq![next.actions[0]], rest);
        lemma_forwards_add(seq![next.actions[0]], rest);
    } else if next.actions.len() == 3 {
        lemma_releases_of_three(next.actions[0], next.actions[1], next.actions[2]);
    } else if next.actions.len() == 1 {
        lemma_counts_of_one(next.actions[0]);
    }
}

/// Over any sequence of events from a state that is not final, the upstream
/// connection is given back exactly once if the session has ended, and not
/// at all if it has not: no leak and no second release.
pub proof fn lemma_released_exactly_once(state: SessionState, events: Seq<SessionEventView>)
    requires
        !is_final(state),
    ensures
        releases(run(state, events).actions) == if is_final(run(state, events).state) {
            1nat
        } else {
            0nat
        },
    decreases events.len(),
{
    if events.len() > 0 {
        let before = run(state, events.drop_last());
        lemma_released_exactly_once(state, events.drop_last());
        lemma_step_counts(before.state, events.last());
        lemma_releases_add(before.actions, step(before.state, events.last()).actions);
    }
}

/// When the client closes the connection while a query is with the upstream
/// server, the session is `Closing` from then on, and over all that happened
/// before and all that may still arrive the upstream connection is given
/// back exactly once.
pub proof fn lemma_close_while_executing(
    before: Seq<SessionEventView>,
    after: Seq<SessionEventView>,
)
    requires
        run(SessionState::Connecting, before).state is Executing,
    ensures
        run(
            SessionState::Connecting,
            before + seq![SessionEventView::ClientClosed] + after,
        ).state is Closing,
        releases(
            run(
                SessionState::Connecting,
                before + seq![SessionEventView::ClientClosed] + after,
            ).actions,
        ) == 1,
        releases(run(SessionState::Connecting, before).actions) == 0,
{
    let closed = before + seq![SessionEventView::ClientClosed];
    let all = closed + after;
    lemma_released_exactly_once(SessionState::Connecting, before);
    lemma_released_exactly_once(SessionState::Connecting, all);
    assert(closed.drop_last() =~= before);
    lemma_run_add(SessionState::Connecting, closed, after);
    lemma_stays_final(SessionState::Closing, after);
}

proof fn lemma_stays_final(state: SessionState, events: Seq<SessionEventView>)
    requires
        is_final(state),
    ensures
        run(state, events) == (Step { state, actions: Seq::empty() }),
    decreases events.len(),
{
    if events.len() > 0 {
        lemma_stays_final(state, events.drop_last());
        lemma_final_state_absorbs(state, events.last());
    }
}

/// As long as the client has not been let in, the session is neither `Ready`
/// nor `Executing` and no query has gone upstream.
pub proof fn lemma_no_query_before_authorization(events: Seq<SessionEventView>)
    requires
        forall|i: int| 0 <= i < events.len() ==> !lets_in(#[trigger] events[i]),
    ensures
        !(run(SessionState::Connecting, events).state is Ready),
        !(run(SessionState::Connecting, events).state is Executing),
        forwards(run(SessionState::Connecting, events).actions) == 0,
    decreases events.len(),
{
    if events.len() > 0 {
        let earlier = events.drop_last();
        lemma_no_query_before_authorization(earlier);
        let before = run(SessionState::Connecting, earlier);
        lemma_step_counts(before.state, events.last());
        lemma_forwards_add(before.actions, step(before.state, events.last()).actions);
    }
}

/// The class of the first error among `events`, if there is one.
pub open spec fn first_error(events: Seq<QueryResultEventView>) -> Option<ErrorClass>
    decreases events.len(),
{
    if events.len() == 0 {
        None
    } else {
        match events.first() {
            QueryResultEventView::Error { class, .. } => Some(class),
            _ => first_error(events.drop_first()),
        }
    }
}

proof fn lemma_ends_from(
    events: Seq<QueryResultEventView>,
    fields: Seq<FieldDescriptorView>,
    buffered: Seq<EncodedRowView>,
    out: Seq<ResponseUnitView>,
    units: Seq<ResponseUnitView>,
)
    requires
        translate_from(events, fields, buffered, out) == Ok::<_, TranslationError>(units),
        !ends_session(out),
    ensures
        ends_session(units) <==> first_error(events) == Some(ErrorClass::Transport),
    decreases events.len(),
{
    if events.len() > 0 {
        let later = events.drop_first();
        match events.first() {
            QueryResultEventView::TypedRow { columns, values } => {
                let chosen = if fields.len() == 0 {
                    described(columns)
                } else {
                    fields
                };
                lemma_ends_from(later, chosen, buffered.push(encoded(values)), out, units);
            },
            QueryResultEventView::CommandComplete { tag, row_count } => {
                let flushed = if buffered.len() == 0 {
                    out
                } else {
                    out.push(ResponseUnitView::RowSet { fields, rows: buffered })
                };
                let tagged = flushed.push(ResponseUnitView::ExecutionTag { tag, row_count });
                lemma_ends_from(later, Seq::empty(), Seq::empty(), tagged, units);
            },
            QueryResultEventView::Error { message, class } => {},
        }
    }
}

/// Of all that upstream can report for a query, only the failure of the
/// upstream connection ends the session. When the events can be translated,
/// the session that was `Executing` is `Failed` if the first error among
/// them is of the transport, and `Ready` for the next query in every other
/// case: after a statement that failed as after none that did. Events that
/// cannot be translated fail the session.
pub proof fn lemma_only_transport_failure_ends_session(events: Seq<QueryResultEventView>)
    ensures
        translation(events) is Ok ==> (ends_session(translation(events)->Ok_0) <==> first_error(
            events,
        ) == Some(ErrorClass::Transport)),
        step(
            SessionState::Executing,
            SessionEventView::UpstreamFinished(translation(events)),
        ).state == if translation(events) is Ok && first_error(events) != Some(
            ErrorClass::Transport,
        ) {
            SessionState::Ready
        } else {
            SessionState::Failed
        },
{
    if translation(events) is Ok {
        lemma_ends_from(
            events,
            Seq::empty(),
            Seq::empty(),
            Seq::empty(),
            translation(events)->Ok_0,
        );
    }
}

} // verus!
