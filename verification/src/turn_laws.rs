//! What holds of every turn, whatever the generation service answers.

use vstd::prelude::*;
use crate::agent::{
    dispatch_all, started, step, AgentErrorView, GenerationView, StatusView, ToolCallView,
    TurnView,
};
use crate::payload::PayloadView;
use crate::store::StoreView;
use crate::toolset::{call_tool, find_tool, Tool};

verus! {

/// The turn and the store after the responses have been handled one after
/// the other.
pub open spec fn run(
    tools: Seq<Tool>,
    max_rounds: nat,
    turn: TurnView,
    store: StoreView,
    responses: Seq<GenerationView>,
) -> (TurnView, StoreView)
    decreases responses.len(),
{
    if responses.len() == 0 {
        (turn, store)
    } else {
        let earlier = run(tools, max_rounds, turn, store, responses.drop_last());
        step(tools, max_rounds, earlier.0, earlier.1, responses.last())
    }
}

/// Whether a response asks for tool calls, and for registered tools only.
pub open spec fn asks_for_registered_tools(tools: Seq<Tool>, response: GenerationView) -> bool {
    &&& response matches GenerationView::ToolCalls(calls)
    &&& forall|i: int| 0 <= i < calls.len() ==> find_tool(tools, (#[trigger] calls[i]).name) is Some
}

/// A turn that is over stays as it is, and the store with it: without a
/// running turn no tool is called.
pub proof fn lemma_finished_turn_absorbs(
    tools: Seq<Tool>,
    max_rounds: nat,
    turn: TurnView,
    store: StoreView,
    response: GenerationView,
)
    requires
        !(turn.status is Running),
    ensures
        step(tools, max_rounds, turn, store, response) == (turn, store),
{
}

/// A final text changes nothing in the store: a tool is called only where a
/// response asks for it.
pub proof fn lemma_final_text_calls_no_tool(
    tools: Seq<Tool>,
    max_rounds: nat,
    turn: TurnView,
    store: StoreView,
    text: Seq<char>,
)
    ensures
        step(tools, max_rounds, turn, store, GenerationView::FinalText(text)).1 == store,
{
}

/// Every response that leaves the turn running has added one round, and the
/// rounds never pass the limit.
pub proof fn lemma_step_counts_rounds(
    tools: Seq<Tool>,
    max_rounds: nat,
    turn: TurnView,
    store: StoreView,
    response: GenerationView,
)
    requires
        turn.status is Running,
        turn.rounds <= max_rounds,
    ensures
        step(tools, max_rounds, turn, store, response).0.rounds <= max_rounds,
        step(tools, max_rounds, turn, store, response).0.status is Running ==> step(
            tools,
            max_rounds,
            turn,
            store,
            response,
        ).0.rounds == turn.rounds + 1,
{
}

/// While a turn is running, it has run as many rounds as it has had
/// responses.
pub proof fn lemma_running_turn_counts_responses(
    tools: Seq<Tool>,
    max_rounds: nat,
    prompt: Seq<char>,
    store: StoreView,
    responses: Seq<GenerationView>,
)
    ensures
        run(tools, max_rounds, started(prompt), store, responses).0.rounds <= max_rounds,
        run(tools, max_rounds, started(prompt), store, responses).0.status is Running ==> run(
            tools,
            max_rounds,
            started(prompt),
            store,
            responses,
        ).0.rounds == responses.len(),
    decreases responses.len(),
{
    if responses.len() > 0 {
        lemma_running_turn_counts_responses(
            tools,
            max_rounds,
            prompt,
            store,
            responses.drop_last(),
        );
        let earlier = run(tools, max_rounds, started(prompt), store, responses.drop_last());
        if earlier.0.status is Running {
            lemma_step_counts_rounds(tools, max_rounds, earlier.0, earlier.1, responses.last());
        }
    }
}

/// No turn runs on for ever: after more responses than the limit allows
/// rounds, the turn is over, whatever the responses were.
pub proof fn lemma_turn_ends_within_limit(
    tools: Seq<Tool>,
    max_rounds: nat,
    prompt: Seq<char>,
    store: StoreView,
    responses: Seq<GenerationView>,
)
    requires
        responses.len() > max_rounds,
    ensures
        !(run(tools, max_rounds, started(prompt), store, responses).0.status is Running),
{
    lemma_running_turn_counts_responses(tools, max_rounds, prompt, store, responses);
}

/// Calls that name registered tools only are all run and all answered.
pub proof fn lemma_registered_calls_are_answered(
    tools: Seq<Tool>,
    store: StoreView,
    calls: Seq<ToolCallView>,
)
    requires
        forall|i: int| 0 <= i < calls.len() ==> find_tool(tools, (#[trigger] calls[i]).name) is Some,
    ensures
        dispatch_all(tools, store, calls).1 matches Ok(replies) && replies.len() == calls.len(),
    decreases calls.len(),
{
    if calls.len() > 0 {
        let front = calls.drop_last();
        assert forall|i: int| 0 <= i < front.len() implies find_tool(
            tools,
            (#[trigger] front[i]).name,
        ) is Some by {
            assert(front[i] == calls[i]);
        }
        lemma_registered_calls_are_answered(tools, store, front);
    }
}

/// A service that asks for tool calls again and again, and never gives a
/// final text, is stopped: the turn runs exactly as many rounds as the limit
/// allows, one for each of the first responses, and fails on the response
/// after them with `RoundLimitExceeded`.
pub proof fn lemma_round_limit_stops_the_turn(
    tools: Seq<Tool>,
    max_rounds: nat,
    prompt: Seq<char>,
    store: StoreView,
    responses: Seq<GenerationView>,
)
    requires
        forall|i: int|
            0 <= i < responses.len() ==> asks_for_registered_tools(tools, #[trigger] responses[i]),
    ensures
        responses.len() <= max_rounds ==> {
            &&& run(tools, max_rounds, started(prompt), store, responses).0.status is Running
            &&& run(tools, max_rounds, started(prompt), store, responses).0.rounds
                == responses.len()
        },
        responses.len() > max_rounds ==> {
            &&& run(tools, max_rounds, started(prompt), store, responses).0.status
                == StatusView::Failed(AgentErrorView::RoundLimitExceeded(max_rounds))
            &&& run(tools, max_rounds, started(prompt), store, responses).0.rounds == max_rounds
        },
    decreases responses.len(),
{
    if responses.len() > 0 {
        let front = responses.drop_last();
        assert forall|i: int| 0 <= i < front.len() implies asks_for_registered_tools(
            tools,
            #[trigger] front[i],
        ) by {
            assert(front[i] == responses[i]);
        }
        lemma_round_limit_stops_the_turn(tools, max_rounds, prompt, store, front);
        let earlier = run(tools, max_rounds, started(prompt), store, front);
        let last = responses[responses.len() - 1];
        if front.len() < max_rounds {
            lemma_registered_calls_are_answered(tools, earlier.1, last->ToolCalls_0);
        }
    }
}

/// Whether `after` holds everything that `before` holds, in the same
/// places: it has come from `before` by appends alone.
pub open spec fn only_appended(before: StoreView, after: StoreView) -> bool {
    &&& before.food_prefs.is_prefix_of(after.food_prefs)
    &&& before.diets.is_prefix_of(after.diets)
}

/// A tool call only appends: what the store held before, it holds
/// afterwards, in the same places.
pub proof fn lemma_call_only_appends(
    tools: Seq<Tool>,
    store: StoreView,
    name: Seq<char>,
    payload: PayloadView,
)
    ensures
        only_appended(store, call_tool(tools, store, name, payload).0),
{
}

/// A round of tool calls only appends.
pub proof fn lemma_round_only_appends(tools: Seq<Tool>, store: StoreView, calls: Seq<ToolCallView>)
    ensures
        only_appended(store, dispatch_all(tools, store, calls).0),
    decreases calls.len(),
{
    if calls.len() > 0 {
        lemma_round_only_appends(tools, store, calls.drop_last());
        let earlier = dispatch_all(tools, store, calls.drop_last());
        lemma_call_only_appends(tools, earlier.0, calls.last().name, calls.last().payload);
    }
}

/// Whatever the generation service answers, and however a turn ends, the
/// turn only appends to the store: no record is changed or taken away.
pub proof fn lemma_turn_only_appends(
    tools: Seq<Tool>,
    max_rounds: nat,
    turn: TurnView,
    store: StoreView,
    responses: Seq<GenerationView>,
)
    ensures
        only_appended(store, run(tools, max_rounds, turn, store, responses).1),
    decreases responses.len(),
{
    if responses.len() > 0 {
        lemma_turn_only_appends(tools, max_rounds, turn, store, responses.drop_last());
        let earlier = run(tools, max_rounds, turn, store, responses.drop_last());
        if responses.last() is ToolCalls {
            lemma_round_only_appends(tools, earlier.1, responses.last()->ToolCalls_0);
        }
    }
}

} // verus!
