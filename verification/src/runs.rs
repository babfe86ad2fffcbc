//! Runs of the orchestrator: what holds of the machine over whole sequences
//! of events.

use vstd::prelude::*;
use crate::decision::{lemma_chosen_tool_is_listed, verdict, DecisionError, DecisionView};
use crate::json::json_field;
use crate::shark::{next, ActionView, EventView, Failure, SharkView, StateView};
use crate::template::{generation_prompt, summary_prompt};

verus! {

/// The state that the machine reaches from `state` over `events`.
pub open spec fn state_after(shark: SharkView, state: StateView, events: Seq<EventView>) -> StateView
    decreases events.len(),
{
    if events.len() == 0 {
        state
    } else {
        next(shark, state_after(shark, state, events.drop_last()), events.last()).0
    }
}

/// The actions that the machine asks for from `state` over `events`, one for each event.
pub open spec fn actions_of(shark: SharkView, state: StateView, events: Seq<EventView>) -> Seq<
    ActionView,
> {
    Seq::new(
        events.len(),
        |i: int| next(shark, state_after(shark, state, events.take(i)), events[i]).1,
    )
}

/// The text that the actions hand to the user, in order.
pub open spec fn emitted(actions: Seq<ActionView>) -> Seq<char>
    decreases actions.len(),
{
    if actions.len() == 0 {
        Seq::empty()
    } else {
        emitted(actions.drop_last()) + match actions.last() {
            ActionView::Emit(text) => text,
            _ => Seq::empty(),
        }
    }
}

/// The fragments joined into one text.
pub open spec fn joined(fragments: Seq<Seq<char>>) -> Seq<char>
    decreases fragments.len(),
{
    if fragments.len() == 0 {
        Seq::empty()
    } else {
        joined(fragments.drop_last()) + fragments.last()
    }
}

/// The events by which a backend streams the fragments.
pub open spec fn streamed(fragments: Seq<Seq<char>>) -> Seq<EventView> {
    Seq::new(fragments.len(), |i: int| EventView::Fragment(fragments[i]))
}

/// Whether the machine, from its initial state over `events`, came through
/// the summarizing state: the path of the tool.
pub open spec fn summarized(shark: SharkView, events: Seq<EventView>) -> bool
    decreases events.len(),
{
    events.len() > 0 && (summarized(shark, events.drop_last()) || state_after(
        shark,
        StateView::Init,
        events,
    ) is Summarizing)
}

/// Whether the machine, from its initial state over `events`, came through
/// the generating state: the path of direct generation.
pub open spec fn generated(shark: SharkView, events: Seq<EventView>) -> bool
    decreases events.len(),
{
    events.len() > 0 && (generated(shark, events.drop_last()) || state_after(
        shark,
        StateView::Init,
        events,
    ) is Generating)
}

/// While fragments arrive, the machine streams, and it has handed on each of them.
pub proof fn lemma_streaming(shark: SharkView, delivered: bool, fragments: Seq<Seq<char>>)
    ensures
        state_after(shark, StateView::Streaming { delivered }, streamed(fragments))
            == (StateView::Streaming { delivered: delivered || fragments.len() > 0 }),
        actions_of(shark, StateView::Streaming { delivered }, streamed(fragments)) == Seq::new(
            fragments.len(),
            |i: int| ActionView::Emit(fragments[i]),
        ),
        emitted(actions_of(shark, StateView::Streaming { delivered }, streamed(fragments)))
            == joined(fragments),
    decreases fragments.len(),
{
    let start = StateView::Streaming { delivered };
    let events = streamed(fragments);
    let actions = actions_of(shark, start, events);
    if fragments.len() == 0 {
        assert(actions =~= Seq::new(fragments.len(), |i: int| ActionView::Emit(fragments[i])));
    } else {
        let front = fragments.drop_last();
        lemma_streaming(shark, delivered, front);
        assert(events.drop_last() =~= streamed(front));
        assert forall|i: int| 0 <= i < fragments.len() implies #[trigger] actions[i]
            == ActionView::Emit(fragments[i]) by {
            lemma_streaming(shark, delivered, fragments.take(i));
            assert(events.take(i) =~= streamed(fragments.take(i)));
        }
        assert(actions =~= Seq::new(fragments.len(), |i: int| ActionView::Emit(fragments[i])));
        assert(actions.drop_last() =~= actions_of(shark, start, streamed(front)));
    }
}

/// A stream that ends by itself leaves the machine done, and the text handed
/// to the user is the fragments that the backend sent, each as it came and
/// in their order: streaming shows the content and does not change it.
pub proof fn lemma_stream_is_forwarded(
    shark: SharkView,
    delivered: bool,
    fragments: Seq<Seq<char>>,
)
    ensures
        state_after(
            shark,
            StateView::Streaming { delivered },
            streamed(fragments).push(EventView::EndOfStream),
        ) == StateView::Done,
        actions_of(
            shark,
            StateView::Streaming { delivered },
            streamed(fragments).push(EventView::EndOfStream),
        ) == Seq::new(fragments.len(), |i: int| ActionView::Emit(fragments[i])).push(
            ActionView::Finish,
        ),
        emitted(
            actions_of(
                shark,
                StateView::Streaming { delivered },
                streamed(fragments).push(EventView::EndOfStream),
            ),
        ) == joined(fragments),
{
    let start = StateView::Streaming { delivered };
    let events = streamed(fragments).push(EventView::EndOfStream);
    let actions = actions_of(shark, start, events);
    lemma_streaming(shark, delivered, fragments);
    assert(events.drop_last() =~= streamed(fragments));
    assert forall|i: int| 0 <= i < fragments.len() implies #[trigger] actions[i]
        == ActionView::Emit(fragments[i]) by {
        lemma_streaming(shark, delivered, fragments.take(i));
        assert(events.take(i) =~= streamed(fragments.take(i)));
    }
    assert(events.take(fragments.len() as int) =~= streamed(fragments));
    assert(actions =~= Seq::new(fragments.len(), |i: int| ActionView::Emit(fragments[i])).push(
        ActionView::Finish,
    ));
    assert(actions.drop_last() =~= actions_of(shark, start, streamed(fragments)));
    assert(emitted(actions) =~= joined(fragments));
}

/// A stream that breaks leaves the machine in its error state. What was
/// handed to the user before stays as it is, and the failure that follows
/// tells whether anything was.
pub proof fn lemma_broken_stream_keeps_output(
    shark: SharkView,
    delivered: bool,
    fragments: Seq<Seq<char>>,
    detail: Seq<char>,
)
    ensures
        state_after(
            shark,
            StateView::Streaming { delivered },
            streamed(fragments).push(EventView::TransportFailure(detail)),
        ) == (StateView::Errored { failure: Failure::Transport }),
        actions_of(
            shark,
            StateView::Streaming { delivered },
            streamed(fragments).push(EventView::TransportFailure(detail)),
        ) == Seq::new(fragments.len(), |i: int| ActionView::Emit(fragments[i])).push(
            ActionView::Fail {
                failure: Failure::Transport,
                detail,
                partial: delivered || fragments.len() > 0,
            },
        ),
        emitted(
            actions_of(
                shark,
                StateView::Streaming { delivered },
                streamed(fragments).push(EventView::TransportFailure(detail)),
            ),
        ) == joined(fragments),
{
    let start = StateView::Streaming { delivered };
    let events = streamed(fragments).push(EventView::TransportFailure(detail));
    let actions = actions_of(shark, start, events);
    lemma_streaming(shark, delivered, fragments);
    assert(events.drop_last() =~= streamed(fragments));
    assert forall|i: int| 0 <= i < fragments.len() implies #[trigger] actions[i]
        == ActionView::Emit(fragments[i]) by {
        lemma_streaming(shark, delivered, fragments.take(i));
        assert(events.take(i) =~= streamed(fragments.take(i)));
    }
    assert(events.take(fragments.len() as int) =~= streamed(fragments));
    assert(actions =~= Seq::new(fragments.len(), |i: int| ActionView::Emit(fragments[i])).push(
        ActionView::Fail {
            failure: Failure::Transport,
            detail,
            partial: delivered || fragments.len() > 0,
        },
    ));
    assert(actions.drop_last() =~= actions_of(shark, start, streamed(fragments)));
    assert(emitted(actions) =~= joined(fragments));
}

/// A finished request stays finished, and a failed one stays failed:
/// no event leads out of either state, and none asks for anything.
pub proof fn lemma_terminal_states_absorb(
    shark: SharkView,
    state: StateView,
    events: Seq<EventView>,
)
    requires
        state is Done || state is Errored,
    ensures
        state_after(shark, state, events) == state,
        forall|i: int|
            0 <= i < events.len() ==> #[trigger] actions_of(shark, state, events)[i]
                == ActionView::Ignore,
    decreases events.len(),
{
    if events.len() > 0 {
        lemma_terminal_states_absorb(shark, state, events.drop_last());
        assert forall|i: int| 0 <= i < events.len() implies #[trigger] actions_of(
            shark,
            state,
            events,
        )[i] == ActionView::Ignore by {
            lemma_terminal_states_absorb(shark, state, events.take(i));
        }
    }
}

/// How the state of a run agrees with the paths that it came through.
pub open spec fn agrees(state: StateView, tool_path: bool, direct_path: bool) -> bool {
    match state {
        StateView::Init => !tool_path && !direct_path,
        StateView::Deciding { .. } => !tool_path && !direct_path,
        StateView::Invoking { .. } => !tool_path && !direct_path,
        StateView::Summarizing { .. } => tool_path && !direct_path,
        StateView::Generating { .. } => !tool_path && direct_path,
        StateView::Streaming { .. } => tool_path != direct_path,
        StateView::Done => tool_path != direct_path,
        StateView::Errored { .. } => !(tool_path && direct_path),
    }
}

/// A request never takes both paths. Before the final prompt it has taken
/// neither, and once the answer streams, or is complete, it has taken
/// exactly one of them: the path of the tool and the path of direct
/// generation end in the same streaming step.
pub proof fn lemma_one_path(shark: SharkView, events: Seq<EventView>)
    ensures
        agrees(
            state_after(shark, StateView::Init, events),
            summarized(shark, events),
            generated(shark, events),
        ),
        !(summarized(shark, events) && generated(shark, events)),
    decreases events.len(),
{
    if events.len() > 0 {
        lemma_one_path(shark, events.drop_last());
    }
}

/// With the fallback, neither the decision phase nor the tool can make a
/// request fail: whatever is reported in those states, the machine does not
/// enter its error state and asks for no failure to be shown. A tool that
/// fails leads to direct generation of the answer to the same question.
pub proof fn lemma_fallback_keeps_going(shark: SharkView, state: StateView, event: EventView)
    requires
        shark.fallback,
        state is Deciding || state is Invoking,
    ensures
        !(next(shark, state, event).0 is Errored),
        !(next(shark, state, event).1 is Fail),
        state is Invoking && event is ToolFailure ==> next(shark, state, event) == (
            StateView::Generating { question: state->Invoking_question },
            ActionView::Continue,
        ),
{
}

/// A verdict for no tool leads to direct generation of the answer to the
/// question, whatever the policy on failures: that the backend names nothing,
/// or a tool that the catalog does not hold, is no failure. With an empty
/// catalog no verdict leads to a tool.
pub proof fn lemma_no_tool_answers_directly(
    shark: SharkView,
    question: Seq<char>,
    text: Seq<char>,
)
    ensures
        verdict(json_field(text, "function"@), shark.catalog) == Ok::<DecisionView, DecisionError>(
            DecisionView::NoTool,
        ) ==> next(shark, StateView::Deciding { question }, EventView::Completion(text)) == (
            StateView::Generating { question },
            ActionView::Continue,
        ),
        shark.catalog.len() == 0 ==> !(next(
            shark,
            StateView::Deciding { question },
            EventView::Completion(text),
        ).0 is Invoking),
        shark.catalog.len() == 0 && shark.fallback ==> next(
            shark,
            StateView::Deciding { question },
            EventView::Completion(text),
        ) == (StateView::Generating { question }, ActionView::Continue),
{
    lemma_chosen_tool_is_listed(json_field(text, "function"@), shark.catalog);
}

/// The machine streams a final prompt only out of the summarizing or the
/// generating state, and the prompt is rendered from the question, together
/// with the tool's answer on the path of the tool.
pub proof fn lemma_stream_starts_from_a_prompt(
    shark: SharkView,
    state: StateView,
    event: EventView,
)
    requires
        next(shark, state, event).1 is StreamComplete,
    ensures
        state is Summarizing || state is Generating,
        event is Resume,
        next(shark, state, event).0 == (StateView::Streaming { delivered: false }),
        state matches StateView::Summarizing { question, answer } ==> summary_prompt(
            question,
            answer,
        ) == Some(next(shark, state, event).1->StreamComplete_prompt),
        state matches StateView::Generating { question } ==> generation_prompt(
            question,
        ) == Some(next(shark, state, event).1->StreamComplete_prompt),
{
}

} // verus!
