//! The run as a whole: the extraction agents first, then one snapshot of the
//! store, then the synthesis agent on a prompt built from the snapshot.
//!
//! The caller runs the agents. The pipeline keeps count of them and decides
//! when the snapshot is taken and whether synthesis takes place.

use vstd::prelude::*;
use crate::agent::{AgentError, AgentErrorView};
use crate::prompt::{
    extraction_prompt, render_extraction_prompt, render_synthesis_prompt, synthesis_prompt,
};
use crate::store::{MockProjectUntitled, Snapshot, StoreView};

verus! {

/// What becomes of the run when an extraction agent has failed.
#[derive(Clone, Copy, Debug, PartialEq, Eq, Structural)]
pub enum FailurePolicy {
    /// The run ends with the failure, without synthesis.
    Abort,
    /// Synthesis takes place on what the other agents recorded. The failure
    /// stays on record beside the answer.
    UsePartial,
}

/// The stages of a run.
#[derive(Clone, Copy, Debug, PartialEq, Eq, Structural)]
pub enum Phase {
    /// Nothing has been started.
    Ready,
    /// Extraction agents may still be at work.
    Extracting,
    /// The snapshot has been taken and the synthesis agent is at work.
    Synthesizing,
    /// The run is over.
    Done,
}

/// The mathematical value of the way an agent's turn ended.
pub open spec fn outcome_view(outcome: Result<String, AgentError>) -> Result<
    Seq<char>,
    AgentErrorView,
> {
    match outcome {
        Ok(text) => Ok(text@),
        Err(error) => Err(error@),
    }
}

/// The mathematical value of an agent's entry: nothing while the agent is at
/// work, then the way its turn ended.
pub open spec fn slot_view(slot: Option<Result<String, AgentError>>) -> Option<
    Result<Seq<char>, AgentErrorView>,
> {
    match slot {
        Some(outcome) => Some(outcome_view(outcome)),
        None => None,
    }
}

/// The values of the agents' entries, in the order of the agents.
pub open spec fn slots_view(slots: Seq<Option<Result<String, AgentError>>>) -> Seq<
    Option<Result<Seq<char>, AgentErrorView>>,
> {
    Seq::new(slots.len(), |i: int| slot_view(slots[i]))
}

/// The mathematical value of a snapshot that may not have been taken yet.
pub open spec fn snapshot_view(snapshot: Option<Snapshot>) -> Option<StoreView> {
    match snapshot {
        Some(snapshot) => Some(snapshot@),
        None => None,
    }
}

/// The error of the first agent, in the order of the agents, whose turn
/// failed.
pub open spec fn first_failure(slots: Seq<Option<Result<Seq<char>, AgentErrorView>>>) -> Option<
    AgentErrorView,
>
    decreases slots.len(),
{
    if slots.len() == 0 {
        None
    } else {
        match first_failure(slots.drop_last()) {
            Some(error) => Some(error),
            None => match slots.last() {
                Some(Err(error)) => Some(error),
                _ => None,
            },
        }
    }
}

/// What the caller is to do next.
#[derive(Debug, PartialEq, Eq)]
pub enum PipelineAction {
    /// Run every extraction agent on this prompt.
    Extract(String),
    /// Agents are at work: go on running them.
    Wait,
    /// Run the synthesis agent on this prompt.
    Synthesize(String),
    /// The run is over: take the answer.
    Finish,
}

/// The mathematical value of a pipeline action.
pub enum ActionView {
    Extract(Seq<char>),
    Wait,
    Synthesize(Seq<char>),
    Finish,
}

impl View for PipelineAction {
    type V = ActionView;

    open spec fn view(&self) -> ActionView {
        match self {
            PipelineAction::Extract(prompt) => ActionView::Extract(prompt@),
            PipelineAction::Wait => ActionView::Wait,
            PipelineAction::Synthesize(prompt) => ActionView::Synthesize(prompt@),
            PipelineAction::Finish => ActionView::Finish,
        }
    }
}

/// The mathematical value of a run.
pub struct PipelineView {
    /// The conversation that the extraction agents read.
    pub conversation: Seq<char>,
    /// The ingredients that the synthesis agent is told of.
    pub ingredients: Seq<char>,
    pub policy: FailurePolicy,
    pub phase: Phase,
    /// For each extraction agent, how its turn ended, once it has.
    pub extraction: Seq<Option<Result<Seq<char>, AgentErrorView>>>,
    /// The snapshot that synthesis works on, once it has been taken.
    pub snapshot: Option<StoreView>,
    /// How the run ended, once it has.
    pub answer: Option<Result<Seq<char>, AgentErrorView>>,
}

impl PipelineView {
    /// The run before anything has been started.
    pub open spec fn fresh(
        conversation: Seq<char>,
        ingredients: Seq<char>,
        agents: nat,
        policy: FailurePolicy,
    ) -> PipelineView {
        PipelineView {
            conversation,
            ingredients,
            policy,
            phase: Phase::Ready,
            extraction: Seq::new(agents, |i: int| None),
            snapshot: None,
            answer: None,
        }
    }

    /// The same run in another stage.
    pub open spec fn in_phase(self, phase: Phase) -> PipelineView {
        PipelineView {
            conversation: self.conversation,
            ingredients: self.ingredients,
            policy: self.policy,
            phase,
            extraction: self.extraction,
            snapshot: self.snapshot,
            answer: self.answer,
        }
    }

    /// The run over, with this answer.
    pub open spec fn ended(self, answer: Result<Seq<char>, AgentErrorView>) -> PipelineView {
        PipelineView {
            conversation: self.conversation,
            ingredients: self.ingredients,
            policy: self.policy,
            phase: Phase::Done,
            extraction: self.extraction,
            snapshot: self.snapshot,
            answer: Some(answer),
        }
    }

    /// Whether every extraction agent has ended its turn.
    pub open spec fn all_terminal(self) -> bool {
        forall|i: int| 0 <= i < self.extraction.len() ==> (#[trigger] self.extraction[i]) is Some
    }

    /// The run after extraction agent `agent` has ended its turn. An agent
    /// that the run does not know, or whose turn has ended before, changes
    /// nothing; nor does any agent while extraction is not under way.
    pub open spec fn record_extraction(
        self,
        agent: int,
        outcome: Result<Seq<char>, AgentErrorView>,
    ) -> PipelineView {
        if self.phase == Phase::Extracting && 0 <= agent < self.extraction.len()
            && self.extraction[agent] is None {
            PipelineView {
                conversation: self.conversation,
                ingredients: self.ingredients,
                policy: self.policy,
                phase: self.phase,
                extraction: self.extraction.update(agent, Some(outcome)),
                snapshot: self.snapshot,
                answer: self.answer,
            }
        } else {
            self
        }
    }

    /// What is due once every extraction agent has ended its turn, given the
    /// store as it stands. Where an agent has failed and the policy is to
    /// abort, the run ends with the first failure. Else the store is copied,
    /// and synthesis is due on the prompt built from the copy.
    pub open spec fn after_extraction(self, store: StoreView) -> (PipelineView, ActionView) {
        if self.policy == FailurePolicy::Abort && first_failure(self.extraction) is Some {
            (self.ended(Err(first_failure(self.extraction)->Some_0)), ActionView::Finish)
        } else {
            (
                PipelineView {
                    conversation: self.conversation,
                    ingredients: self.ingredients,
                    policy: self.policy,
                    phase: Phase::Synthesizing,
                    extraction: self.extraction,
                    snapshot: Some(store),
                    answer: self.answer,
                },
                ActionView::Synthesize(synthesis_prompt(self.ingredients, store)),
            )
        }
    }

    /// What is due, given the store as it stands, and the run afterwards.
    ///
    /// A fresh run asks for the extraction agents to be run, all on the same
    /// prompt. While one of them is at work, the caller waits. Once all have
    /// ended their turns, or at once where there are none, the run goes on
    /// as `after_extraction` says. While synthesis is at work the caller
    /// waits, and after it the run is over.
    pub open spec fn decide(self, store: StoreView) -> (PipelineView, ActionView) {
        match self.phase {
            Phase::Ready => if self.extraction.len() == 0 {
                self.after_extraction(store)
            } else {
                (
                    self.in_phase(Phase::Extracting),
                    ActionView::Extract(extraction_prompt(self.conversation)),
                )
            },
            Phase::Extracting => if self.all_terminal() {
                self.after_extraction(store)
            } else {
                (self, ActionView::Wait)
            },
            Phase::Synthesizing => (self, ActionView::Wait),
            Phase::Done => (self, ActionView::Finish),
        }
    }

    /// The run after the synthesis agent has ended its turn: over, with the
    /// agent's outcome as the answer. Where no synthesis is at work, nothing
    /// changes.
    pub open spec fn record_synthesis(self, outcome: Result<Seq<char>, AgentErrorView>) -> PipelineView {
        if self.phase == Phase::Synthesizing {
            self.ended(outcome)
        } else {
            self
        }
    }
}

/// Synthesis never starts while an extraction agent is at work: where it is
/// due, every extraction agent has ended its turn, and the prompt is built
/// from the store as it stands then, which is kept as the snapshot.
pub proof fn lemma_synthesis_waits_for_extraction(run: PipelineView, store: StoreView)
    requires
        run.decide(store).1 is Synthesize,
    ensures
        run.phase == Phase::Extracting || run.phase == Phase::Ready,
        run.all_terminal(),
        run.decide(store).1 == ActionView::Synthesize(synthesis_prompt(run.ingredients, store)),
        run.decide(store).0.snapshot == Some(store),
        run.decide(store).0.phase == Phase::Synthesizing,
        run.policy == FailurePolicy::Abort ==> first_failure(run.extraction) is None,
{
}

/// The snapshot is taken once: after synthesis has become due, no later
/// event brings the run back to extraction, and neither extraction nor
/// synthesis becomes due again.
pub proof fn lemma_snapshot_is_taken_once(
    run: PipelineView,
    store: StoreView,
    agent: int,
    outcome: Result<Seq<char>, AgentErrorView>,
)
    requires
        run.phase == Phase::Synthesizing || run.phase == Phase::Done,
    ensures
        run.decide(store) == (run, if run.phase == Phase::Done {
            ActionView::Finish
        } else {
            ActionView::Wait
        }),
        run.record_extraction(agent, outcome) == run,
        run.record_synthesis(outcome).phase == Phase::Done,
        run.record_synthesis(outcome).snapshot == run.snapshot,
{
}

/// The extraction agents are started once, all on the prompt that holds the
/// conversation: the run asks for them when it is fresh, and never again.
pub proof fn lemma_extraction_starts_once(run: PipelineView, store: StoreView)
    ensures
        run.decide(store).1 is Extract ==> {
            &&& run.phase == Phase::Ready
            &&& run.decide(store).1 == ActionView::Extract(extraction_prompt(run.conversation))
            &&& run.decide(store).0.phase == Phase::Extracting
        },
        run.phase != Phase::Ready ==> !(run.decide(store).1 is Extract),
{
}

/// Where no agent has failed there is no first failure, and the other way
/// round.
pub proof fn lemma_first_failure(slots: Seq<Option<Result<Seq<char>, AgentErrorView>>>)
    ensures
        first_failure(slots) is None <==> (forall|i: int|
            0 <= i < slots.len() ==> !((#[trigger] slots[i]) matches Some(Err(_)))),
    decreases slots.len(),
{
    if slots.len() > 0 {
        let front = slots.drop_last();
        lemma_first_failure(front);
        if first_failure(front) is Some {
            let bad = choose|i: int| 0 <= i < front.len() && (#[trigger] front[i] matches Some(
                Err(_),
            ));
            assert(slots[bad] matches Some(Err(_)));
        } else if slots.last() matches Some(Err(_)) {
            assert(slots[slots.len() - 1] matches Some(Err(_)));
        } else {
            assert forall|i: int| 0 <= i < slots.len() implies !((#[trigger] slots[i]) matches Some(
                Err(_),
            )) by {
                if i < front.len() {
                    assert(front[i] == slots[i]);
                }
            }
        }
    }
}

/// The state of one run.
#[derive(Debug)]
pub struct Pipeline {
    conversation: String,
    ingredients: String,
    policy: FailurePolicy,
    phase: Phase,
    extraction: Vec<Option<Result<String, AgentError>>>,
    snapshot: Option<Snapshot>,
    answer: Option<Result<String, AgentError>>,
}

impl View for Pipeline {
    type V = PipelineView;

    closed spec fn view(&self) -> PipelineView {
        PipelineView {
            conversation: self.conversation@,
            ingredients: self.ingredients@,
            policy: self.policy,
            phase: self.phase,
            extraction: slots_view(self.extraction@),
            snapshot: snapshot_view(self.snapshot),
            answer: slot_view(self.answer),
        }
    }
}

impl Pipeline {
    /// A run on one conversation and one list of ingredients, with `agents`
    /// extraction agents. Nothing has been started.
    pub fn new(conversation: String, ingredients: String, agents: usize, policy: FailurePolicy) -> (run:
        Pipeline)
        ensures
            run@ == PipelineView::fresh(conversation@, ingredients@, agents as nat, policy),
    {
        let mut extraction: Vec<Option<Result<String, AgentError>>> = Vec::new();
        let mut i: usize = 0;
        while i < agents
            invariant
                i <= agents,
                extraction@.len() == i,
                forall|k: int| 0 <= k < i ==> (#[trigger] extraction@[k]) is None,
            decreases agents - i,
        {
            extraction.push(None);
            i += 1;
        }
        assert(slots_view(extraction@) =~= Seq::new(agents as nat, |i: int| None));
        Pipeline {
            conversation,
            ingredients,
            policy,
            phase: Phase::Ready,
            extraction,
            snapshot: None,
            answer: None,
        }
    }

    /// The stage that the run is in.
    pub fn phase(&self) -> (phase: Phase)
        ensures
            phase == self@.phase,
    {
        self.phase
    }

    /// For each extraction agent, how its turn ended, once it has.
    pub fn extraction(&self) -> (slots: &Vec<Option<Result<String, AgentError>>>)
        ensures
            slots_view(slots@) == self@.extraction,
    {
        &self.extraction
    }

    /// The snapshot that synthesis works on, once it has been taken.
    pub fn snapshot(&self) -> (snapshot: &Option<Snapshot>)
        ensures
            snapshot_view(*snapshot) == self@.snapshot,
    {
        &self.snapshot
    }

    /// How the run ended, once it has: the text of the synthesis agent, or
    /// the error that ended the run.
    pub fn answer(&self) -> (answer: &Option<Result<String, AgentError>>)
        ensures
            slot_view(*answer) == self@.answer,
    {
        &self.answer
    }

    /// Takes note that extraction agent `agent` has ended its turn.
    pub fn record_extraction(&mut self, agent: usize, outcome: Result<String, AgentError>)
        ensures
            final(self)@ == old(self)@.record_extraction(agent as int, outcome_view(outcome)),
    {
        if self.phase == Phase::Extracting && agent < self.extraction.len() {
            if self.extraction[agent].is_none() {
                self.extraction.set(agent, Some(outcome));
                assert(slots_view(self.extraction@) =~= slots_view(old(self).extraction@).update(
                    agent as int,
                    Some(outcome_view(outcome)),
                ));
            }
        }
    }

    /// Whether every extraction agent has ended its turn.
    fn all_terminal(&self) -> (all: bool)
        ensures
            all == self@.all_terminal(),
    {
        let mut i: usize = 0;
        while i < self.extraction.len()
            invariant
                i <= self.extraction.len(),
                forall|k: int| 0 <= k < i ==> (#[trigger] slots_view(self.extraction@)[k]) is Some,
            decreases self.extraction.len() - i,
        {
            if self.extraction[i].is_none() {
                assert(slots_view(self.extraction@)[i as int] is None);
                return false;
            }
            i += 1;
        }
        true
    }

    /// The error of the first extraction agent whose turn failed.
    fn first_failure(&self) -> (failure: Option<AgentError>)
        ensures
            match failure {
                Some(error) => first_failure(self@.extraction) == Some(error@),
                None => first_failure(self@.extraction) is None,
            },
    {
        let ghost slots = slots_view(self.extraction@);
        let mut i: usize = 0;
        while i < self.extraction.len()
            invariant
                i <= self.extraction.len(),
                slots == slots_view(self.extraction@),
                first_failure(slots.take(i as int)) is None,
            decreases self.extraction.len() - i,
        {
            assert(slots.take(i + 1).drop_last() =~= slots.take(i as int));
            match &self.extraction[i] {
                Some(Err(error)) => {
                    proof {
                        lemma_first_failure_prefix(slots, i + 1);
                    }
                    return Some(error.clone());
                },
                _ => {},
            }
            i += 1;
        }
        assert(slots.take(i as int) =~= slots);
        None
    }

    /// Goes on once every extraction agent has ended its turn.
    fn after_extraction(&mut self, store: &MockProjectUntitled) -> (action: PipelineAction)
        ensures
            (final(self)@, action@) == old(self)@.after_extraction(store@),
    {
        let failure = self.first_failure();
        match (self.policy, failure) {
            (FailurePolicy::Abort, Some(error)) => {
                self.phase = Phase::Done;
                self.answer = Some(Err(error));
                PipelineAction::Finish
            },
            _ => {
                let snapshot = store.snapshot();
                let prompt = render_synthesis_prompt(self.ingredients.as_str(), &snapshot);
                self.phase = Phase::Synthesizing;
                self.snapshot = Some(snapshot);
                PipelineAction::Synthesize(prompt)
            },
        }
    }

    /// Decides what is due. Where synthesis becomes due, the store is copied
    /// and the prompt built from the copy; the caller is to hand in the
    /// store only when no tool call is under way.
    pub fn next(&mut self, store: &MockProjectUntitled) -> (action: PipelineAction)
        ensures
            (final(self)@, action@) == old(self)@.decide(store@),
    {
        match self.phase {
            Phase::Ready => {
                if self.extraction.len() == 0 {
                    self.after_extraction(store)
                } else {
                    self.phase = Phase::Extracting;
                    PipelineAction::Extract(render_extraction_prompt(self.conversation.as_str()))
                }
            },
            Phase::Extracting => {
                if self.all_terminal() {
                    self.after_extraction(store)
                } else {
                    PipelineAction::Wait
                }
            },
            Phase::Synthesizing => PipelineAction::Wait,
            Phase::Done => PipelineAction::Finish,
        }
    }

    /// Takes note that the synthesis agent has ended its turn.
    pub fn record_synthesis(&mut self, outcome: Result<String, AgentError>)
        ensures
            final(self)@ == old(self)@.record_synthesis(outcome_view(outcome)),
    {
        if self.phase == Phase::Synthesizing {
            self.phase = Phase::Done;
            self.answer = Some(outcome);
        }
    }
}

/// A failure among the first agents is the first failure of all.
pub proof fn lemma_first_failure_prefix(
    slots: Seq<Option<Result<Seq<char>, AgentErrorView>>>,
    n: int,
)
    requires
        0 <= n <= slots.len(),
        first_failure(slots.take(n)) is Some,
    ensures
        first_failure(slots) == first_failure(slots.take(n)),
    decreases slots.len() - n,
{
    if n == slots.len() {
        assert(slots.take(n) =~= slots);
    } else {
        assert(slots.take(n + 1).drop_last() =~= slots.take(n));
        lemma_first_failure_prefix(slots, n + 1);
    }
}

} // verus!
