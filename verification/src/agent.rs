//! One agent's handling of one prompt: a turn. The caller sends the
//! generation requests; the turn decides, response by response, what happens
//! next, and runs the tool calls that a response asks for.

use vstd::prelude::*;
use crate::payload::{Payload, PayloadView};
use crate::schema::{ToolDefinition, ToolDefinitionView};
use crate::store::{MockProjectUntitled, StoreView};
use crate::text::{join, joined, lines_view};
use crate::toolset::{call_tool, outcome_text, outcome_to_text, Tool, ToolError, ToolSet};

verus! {

/// A request of the generation service to call a tool.
#[derive(Debug, PartialEq, Eq)]
pub struct ToolCallRequest {
    /// The identifier under which the service expects the result.
    pub id: String,
    /// The name of the tool.
    pub name: String,
    /// The arguments, not yet decoded.
    pub payload: Payload,
}

/// The mathematical value of a tool-call request.
pub struct ToolCallView {
    pub id: Seq<char>,
    pub name: Seq<char>,
    pub payload: PayloadView,
}

impl View for ToolCallRequest {
    type V = ToolCallView;

    open spec fn view(&self) -> ToolCallView {
        ToolCallView { id: self.id@, name: self.name@, payload: self.payload@ }
    }
}

/// The result of one tool call, as it is handed back to the service.
#[derive(Debug, PartialEq, Eq)]
pub struct ToolReply {
    /// The identifier of the request that is answered.
    pub id: String,
    /// The tool's output, or the error in words.
    pub content: String,
    /// Whether the call failed.
    pub failed: bool,
}

/// The mathematical value of a tool reply.
pub struct ToolReplyView {
    pub id: Seq<char>,
    pub content: Seq<char>,
    pub failed: bool,
}

impl View for ToolReply {
    type V = ToolReplyView;

    open spec fn view(&self) -> ToolReplyView {
        ToolReplyView { id: self.id@, content: self.content@, failed: self.failed }
    }
}

/// The values of a list of tool-call requests, in order.
pub open spec fn calls_view(calls: Seq<ToolCallRequest>) -> Seq<ToolCallView> {
    Seq::new(calls.len(), |i: int| calls[i]@)
}

/// The values of a list of tool replies, in order.
pub open spec fn replies_view(replies: Seq<ToolReply>) -> Seq<ToolReplyView> {
    Seq::new(replies.len(), |i: int| replies[i]@)
}

/// A response of the generation service.
#[derive(Debug, PartialEq, Eq)]
pub enum Generation {
    /// The final text of the turn.
    FinalText(String),
    /// Requests to call tools, to be answered before the turn goes on.
    ToolCalls(Vec<ToolCallRequest>),
}

/// The mathematical value of a response.
pub enum GenerationView {
    FinalText(Seq<char>),
    ToolCalls(Seq<ToolCallView>),
}

impl View for Generation {
    type V = GenerationView;

    open spec fn view(&self) -> GenerationView {
        match self {
            Generation::FinalText(text) => GenerationView::FinalText(text@),
            Generation::ToolCalls(calls) => GenerationView::ToolCalls(calls_view(calls@)),
        }
    }
}

/// How a response is read. A response that asks for at least one tool call
/// is a request for a round of tool calls, and what text it holds besides
/// is passed over. A response without any is the final text: its pieces of
/// text, one per line.
pub open spec fn classify(texts: Seq<Seq<char>>, calls: Seq<ToolCallView>) -> GenerationView {
    if calls.len() == 0 {
        GenerationView::FinalText(joined(texts, "\n"@))
    } else {
        GenerationView::ToolCalls(calls)
    }
}

impl Generation {
    /// Reads a response from its parts: the pieces of text and the requests
    /// for tool calls, each in the order in which the service gave them.
    pub fn from_parts(texts: Vec<String>, calls: Vec<ToolCallRequest>) -> (response: Generation)
        ensures
            response@ == classify(lines_view(texts@), calls_view(calls@)),
    {
        if calls.len() == 0 {
            Generation::FinalText(join(&texts, "\n"))
        } else {
            Generation::ToolCalls(calls)
        }
    }
}

/// One entry of the conversation that a generation request carries.
#[derive(Debug, PartialEq, Eq)]
pub enum Message {
    /// The text that the turn was started with.
    User(String),
    /// Tool calls that the service asked for.
    ToolCalls(Vec<ToolCallRequest>),
    /// The results of those calls, in the order of the calls.
    ToolReplies(Vec<ToolReply>),
    /// The final text of the service.
    Assistant(String),
}

/// The mathematical value of a conversation entry.
pub enum MessageView {
    User(Seq<char>),
    ToolCalls(Seq<ToolCallView>),
    ToolReplies(Seq<ToolReplyView>),
    Assistant(Seq<char>),
}

impl View for Message {
    type V = MessageView;

    open spec fn view(&self) -> MessageView {
        match self {
            Message::User(text) => MessageView::User(text@),
            Message::ToolCalls(calls) => MessageView::ToolCalls(calls_view(calls@)),
            Message::ToolReplies(replies) => MessageView::ToolReplies(replies_view(replies@)),
            Message::Assistant(text) => MessageView::Assistant(text@),
        }
    }
}

/// The values of a conversation, in order.
pub open spec fn conversation_view(messages: Seq<Message>) -> Seq<MessageView> {
    Seq::new(messages.len(), |i: int| messages[i]@)
}

/// Why a turn ended without a final text.
#[derive(Debug, PartialEq, Eq)]
pub enum AgentError {
    /// The service asked for a tool that is not registered. The text is the
    /// name that it asked for.
    UnknownTool(String),
    /// The service asked for more rounds of tool calls than the limit, which
    /// is given, allows.
    RoundLimitExceeded(usize),
    /// A generation request failed. The text is the service's own.
    Service(String),
}

/// The mathematical value of an agent error.
pub enum AgentErrorView {
    UnknownTool(Seq<char>),
    RoundLimitExceeded(nat),
    Service(Seq<char>),
}

impl View for AgentError {
    type V = AgentErrorView;

    open spec fn view(&self) -> AgentErrorView {
        match self {
            AgentError::UnknownTool(name) => AgentErrorView::UnknownTool(name@),
            AgentError::RoundLimitExceeded(limit) => AgentErrorView::RoundLimitExceeded(
                *limit as nat,
            ),
            AgentError::Service(text) => AgentErrorView::Service(text@),
        }
    }
}

impl Clone for AgentError {
    fn clone(&self) -> (copy: Self)
        ensures
            copy@ == self@,
    {
        match self {
            AgentError::UnknownTool(name) => AgentError::UnknownTool(name.clone()),
            AgentError::RoundLimitExceeded(limit) => AgentError::RoundLimitExceeded(*limit),
            AgentError::Service(text) => AgentError::Service(text.clone()),
        }
    }
}

/// Where a turn stands.
#[derive(Debug, PartialEq, Eq)]
pub enum TurnStatus {
    /// A generation request is due or under way.
    Running,
    /// The service gave its final text.
    Finished(String),
    /// The turn failed.
    Failed(AgentError),
}

/// The mathematical value of a turn's status.
pub enum StatusView {
    Running,
    Finished(Seq<char>),
    Failed(AgentErrorView),
}

impl View for TurnStatus {
    type V = StatusView;

    open spec fn view(&self) -> StatusView {
        match self {
            TurnStatus::Running => StatusView::Running,
            TurnStatus::Finished(text) => StatusView::Finished(text@),
            TurnStatus::Failed(error) => StatusView::Failed(error@),
        }
    }
}

/// What an agent is made of: its instructions, the largest output that the
/// service may generate per request, the tools that the service may ask for,
/// and the number of rounds of tool calls that one turn may take. It does
/// not change once it is made.
#[derive(Debug)]
pub struct AgentConfig {
    instructions: String,
    max_tokens: u64,
    tools: ToolSet,
    max_rounds: usize,
}

/// The mathematical value of an agent's configuration.
pub struct AgentConfigView {
    pub instructions: Seq<char>,
    pub max_tokens: u64,
    pub tools: Seq<Tool>,
    pub max_rounds: nat,
}

impl View for AgentConfig {
    type V = AgentConfigView;

    closed spec fn view(&self) -> AgentConfigView {
        AgentConfigView {
            instructions: self.instructions@,
            max_tokens: self.max_tokens,
            tools: self.tools@,
            max_rounds: self.max_rounds as nat,
        }
    }
}

impl AgentConfig {
    /// The configuration with these parts.
    pub fn new(instructions: String, max_tokens: u64, tools: ToolSet, max_rounds: usize) -> (config:
        AgentConfig)
        ensures
            config@ == (AgentConfigView {
                instructions: instructions@,
                max_tokens,
                tools: tools@,
                max_rounds: max_rounds as nat,
            }),
    {
        AgentConfig { instructions, max_tokens, tools, max_rounds }
    }

    /// The instructions that every generation request carries.
    pub fn instructions(&self) -> (instructions: &String)
        ensures
            instructions@ == self@.instructions,
    {
        &self.instructions
    }

    /// The largest output that the service may generate per request.
    pub fn max_tokens(&self) -> (max_tokens: u64)
        ensures
            max_tokens == self@.max_tokens,
    {
        self.max_tokens
    }

    /// The tools that the service may ask for.
    pub fn tools(&self) -> (tools: &ToolSet)
        ensures
            tools@ == self@.tools,
    {
        &self.tools
    }

    /// The number of rounds of tool calls that one turn may take.
    pub fn max_rounds(&self) -> (max_rounds: usize)
        ensures
            max_rounds == self@.max_rounds,
    {
        self.max_rounds
    }
}

/// The mathematical value of a turn.
pub struct TurnView {
    /// What the next generation request carries.
    pub conversation: Seq<MessageView>,
    /// The rounds of tool calls that the turn has run.
    pub rounds: nat,
    pub status: StatusView,
}

/// What one generation request carries: the agent's instructions, the
/// largest output allowed, what the service is told of the tools that it may
/// ask for, and the conversation so far.
#[derive(Debug, PartialEq, Eq)]
pub struct GenerationRequest<'a> {
    pub instructions: &'a String,
    pub max_tokens: u64,
    pub tools: Vec<ToolDefinition>,
    pub conversation: &'a Vec<Message>,
}

/// The mathematical value of a generation request.
pub struct GenerationRequestView {
    pub instructions: Seq<char>,
    pub max_tokens: u64,
    pub tools: Seq<ToolDefinitionView>,
    pub conversation: Seq<MessageView>,
}

/// The values of a list of tool definitions, in order.
pub open spec fn definitions_view(definitions: Seq<ToolDefinition>) -> Seq<ToolDefinitionView> {
    Seq::new(definitions.len(), |i: int| definitions[i]@)
}

impl<'a> View for GenerationRequest<'a> {
    type V = GenerationRequestView;

    open spec fn view(&self) -> GenerationRequestView {
        GenerationRequestView {
            instructions: self.instructions@,
            max_tokens: self.max_tokens,
            tools: definitions_view(self.tools@),
            conversation: conversation_view(self.conversation@),
        }
    }
}

/// The request that is due for a turn: none once the turn is over. While it
/// runs, every request carries the instructions, the definitions of all the
/// agent's tools in the order of their registration, and the whole
/// conversation: the prompt, then the calls and replies of every round run.
pub open spec fn request_of(config: AgentConfigView, turn: TurnView) -> Option<
    GenerationRequestView,
> {
    if turn.status is Running {
        Some(
            GenerationRequestView {
                instructions: config.instructions,
                max_tokens: config.max_tokens,
                tools: config.tools.map_values(|tool: Tool| tool.spec_definition()),
                conversation: turn.conversation,
            },
        )
    } else {
        None
    }
}

/// The reply to a call that ended with `outcome`.
pub open spec fn reply_to(call: ToolCallView, outcome: Result<bool, ToolError>) -> ToolReplyView {
    ToolReplyView { id: call.id, content: outcome_text(outcome), failed: outcome is Err }
}

/// What running the calls of one response does, one call after the other:
/// the store afterwards, and either the replies, in the order of the calls,
/// or the name of the first tool asked for that is not registered. Calls
/// before that one have run; that one and those after it have not.
pub open spec fn dispatch_all(tools: Seq<Tool>, store: StoreView, calls: Seq<ToolCallView>) -> (
    StoreView,
    Result<Seq<ToolReplyView>, Seq<char>>,
)
    decreases calls.len(),
{
    if calls.len() == 0 {
        (store, Ok(Seq::empty()))
    } else {
        let earlier = dispatch_all(tools, store, calls.drop_last());
        match earlier.1 {
            Err(name) => earlier,
            Ok(replies) => {
                let call = calls.last();
                let called = call_tool(tools, earlier.0, call.name, call.payload);
                match called.1 {
                    Some(outcome) => (called.0, Ok(replies.push(reply_to(call, outcome)))),
                    None => (called.0, Err(call.name)),
                }
            },
        }
    }
}

/// The turn that a prompt starts: the conversation holds the prompt alone,
/// and the first generation request is due.
pub open spec fn started(prompt: Seq<char>) -> TurnView {
    TurnView {
        conversation: seq![MessageView::User(prompt)],
        rounds: 0,
        status: StatusView::Running,
    }
}

/// What a response does to a running turn and to the store.
///
/// A final text ends the turn. Requests for tool calls are run as a round,
/// unless the turn has run `max_rounds` rounds already: then the turn fails
/// and no call is run. A round that asks for an unregistered tool fails the
/// turn. After any other round the requests and their replies stand at the
/// end of the conversation, and the next generation request is due.
///
/// A turn that is not running is left as it is, and so is the store.
pub open spec fn step(
    tools: Seq<Tool>,
    max_rounds: nat,
    turn: TurnView,
    store: StoreView,
    response: GenerationView,
) -> (TurnView, StoreView) {
    if !(turn.status is Running) {
        (turn, store)
    } else {
        match response {
            GenerationView::FinalText(text) => (
                TurnView {
                    conversation: turn.conversation.push(MessageView::Assistant(text)),
                    rounds: turn.rounds,
                    status: StatusView::Finished(text),
                },
                store,
            ),
            GenerationView::ToolCalls(calls) => if turn.rounds >= max_rounds {
                (
                    TurnView {
                        conversation: turn.conversation,
                        rounds: turn.rounds,
                        status: StatusView::Failed(AgentErrorView::RoundLimitExceeded(max_rounds)),
                    },
                    store,
                )
            } else {
                let ran = dispatch_all(tools, store, calls);
                match ran.1 {
                    Err(name) => (
                        TurnView {
                            conversation: turn.conversation,
                            rounds: turn.rounds,
                            status: StatusView::Failed(AgentErrorView::UnknownTool(name)),
                        },
                        ran.0,
                    ),
                    Ok(replies) => (
                        TurnView {
                            conversation: turn.conversation.push(
                                MessageView::ToolCalls(calls),
                            ).push(MessageView::ToolReplies(replies)),
                            rounds: turn.rounds + 1,
                            status: StatusView::Running,
                        },
                        ran.0,
                    ),
                }
            },
        }
    }
}

/// What a failed generation request does to a turn: a running turn fails
/// with the service's error; any other is left as it is.
pub open spec fn service_failed(turn: TurnView, error: Seq<char>) -> TurnView {
    if turn.status is Running {
        TurnView {
            conversation: turn.conversation,
            rounds: turn.rounds,
            status: StatusView::Failed(AgentErrorView::Service(error)),
        }
    } else {
        turn
    }
}

/// An unknown tool among the first calls ends the dispatch of all of them.
pub proof fn lemma_dispatch_all_prefix_error(
    tools: Seq<Tool>,
    store: StoreView,
    calls: Seq<ToolCallView>,
    n: int,
)
    requires
        0 <= n <= calls.len(),
        dispatch_all(tools, store, calls.take(n)).1 is Err,
    ensures
        dispatch_all(tools, store, calls) == dispatch_all(tools, store, calls.take(n)),
    decreases calls.len() - n,
{
    if n == calls.len() {
        assert(calls.take(n) =~= calls);
    } else {
        assert(calls.take(n + 1).drop_last() =~= calls.take(n));
        lemma_dispatch_all_prefix_error(tools, store, calls, n + 1);
    }
}

/// What the next thing to do is, after a response has been handled.
#[derive(Clone, Copy, Debug, PartialEq, Eq, Structural)]
pub enum AgentAction {
    /// Send a generation request with the turn's conversation.
    Generate,
    /// The turn is over: take its outcome.
    Stop,
}

/// The action that a turn in this status asks for.
pub open spec fn action_of(status: StatusView) -> AgentAction {
    if status is Running {
        AgentAction::Generate
    } else {
        AgentAction::Stop
    }
}

/// The state of one turn.
#[derive(Debug)]
pub struct AgentTurn {
    conversation: Vec<Message>,
    rounds: usize,
    status: TurnStatus,
}

impl View for AgentTurn {
    type V = TurnView;

    closed spec fn view(&self) -> TurnView {
        TurnView {
            conversation: conversation_view(self.conversation@),
            rounds: self.rounds as nat,
            status: self.status@,
        }
    }
}

/// Runs the calls of one response against the store, in order.
fn run_calls(tools: &ToolSet, store: &mut MockProjectUntitled, calls: &Vec<ToolCallRequest>) -> (ran:
    Result<Vec<ToolReply>, String>)
    ensures
        final(store)@ == dispatch_all(tools@, old(store)@, calls_view(calls@)).0,
        match ran {
            Ok(replies) => dispatch_all(tools@, old(store)@, calls_view(calls@)).1 == Ok::<
                Seq<ToolReplyView>,
                Seq<char>,
            >(replies_view(replies@)),
            Err(name) => dispatch_all(tools@, old(store)@, calls_view(calls@)).1 == Err::<
                Seq<ToolReplyView>,
                Seq<char>,
            >(name@),
        },
{
    let ghost all = calls_view(calls@);
    let ghost before = store@;
    let mut replies: Vec<ToolReply> = Vec::new();
    let mut i: usize = 0;
    assert(replies_view(replies@) =~= Seq::<ToolReplyView>::empty());
    while i < calls.len()
        invariant
            i <= calls.len(),
            all == calls_view(calls@),
            before == old(store)@,
            dispatch_all(tools@, before, all.take(i as int)) == (
                store@,
                Ok::<Seq<ToolReplyView>, Seq<char>>(replies_view(replies@)),
            ),
        decreases calls.len() - i,
    {
        assert(all.take(i + 1).drop_last() =~= all.take(i as int));
        let call = &calls[i];
        match tools.call(store, call.name.as_str(), &call.payload) {
            Some(outcome) => {
                let ghost earlier = replies_view(replies@);
                let reply = ToolReply {
                    id: call.id.clone(),
                    content: outcome_to_text(&outcome),
                    failed: outcome.is_err(),
                };
                replies.push(reply);
                assert(replies_view(replies@) =~= earlier.push(reply_to(call@, outcome)));
            },
            None => {
                proof {
                    lemma_dispatch_all_prefix_error(tools@, before, all, i + 1);
                }
                return Err(call.name.clone());
            },
        }
        i += 1;
    }
    assert(all.take(i as int) =~= all);
    Ok(replies)
}

impl AgentTurn {
    /// Starts a turn on `prompt`. The first generation request is due.
    pub fn start(prompt: String) -> (turn: AgentTurn)
        ensures
            turn@ == started(prompt@),
    {
        let mut conversation: Vec<Message> = Vec::new();
        conversation.push(Message::User(prompt));
        assert(conversation_view(conversation@) =~= seq![MessageView::User(prompt@)]);
        AgentTurn { conversation, rounds: 0, status: TurnStatus::Running }
    }

    /// What the next generation request carries, oldest entry first.
    pub fn conversation(&self) -> (messages: &Vec<Message>)
        ensures
            conversation_view(messages@) == self@.conversation,
    {
        &self.conversation
    }

    /// The rounds of tool calls that the turn has run.
    pub fn rounds(&self) -> (rounds: usize)
        ensures
            rounds == self@.rounds,
    {
        self.rounds
    }

    /// Where the turn stands.
    pub fn status(&self) -> (status: &TurnStatus)
        ensures
            status@ == self@.status,
    {
        &self.status
    }

    /// What is to be done next.
    pub fn action(&self) -> (action: AgentAction)
        ensures
            action == action_of(self@.status),
    {
        match self.status {
            TurnStatus::Running => AgentAction::Generate,
            _ => AgentAction::Stop,
        }
    }

    /// The text of the first entry of the conversation, where that is the
    /// user's; else the empty text.
    fn prompt(&self) -> (text: &str)
        ensures
            text@ == if self@.conversation.len() > 0 && self@.conversation[0] is User {
                self@.conversation[0]->User_0
            } else {
                Seq::<char>::empty()
            },
    {
        proof {
            reveal_strlit("");
        }
        if self.conversation.len() > 0 {
            match &self.conversation[0] {
                Message::User(text) => text.as_str(),
                _ => "",
            }
        } else {
            ""
        }
    }

    /// The generation request that is due, if the turn is running.
    pub fn request<'a>(&'a self, config: &'a AgentConfig) -> (request: Option<
        GenerationRequest<'a>,
    >)
        ensures
            match request {
                Some(request) => request_of(config@, self@) == Some(request@),
                None => request_of(config@, self@) is None,
            },
    {
        match self.status {
            TurnStatus::Running => {
                let tools = config.tools.definitions(self.prompt());
                assert(definitions_view(tools@) =~= config@.tools.map_values(
                    |tool: Tool| tool.spec_definition(),
                ));
                Some(
                    GenerationRequest {
                        instructions: &config.instructions,
                        max_tokens: config.max_tokens,
                        tools,
                        conversation: &self.conversation,
                    },
                )
            },
            _ => None,
        }
    }

    /// How the turn ended: the final text, or the error. `None` while the
    /// turn is running.
    pub fn outcome(self) -> (outcome: Option<Result<String, AgentError>>)
        ensures
            match outcome {
                None => self@.status is Running,
                Some(Ok(text)) => self@.status == StatusView::Finished(text@),
                Some(Err(error)) => self@.status == StatusView::Failed(error@),
            },
    {
        match self.status {
            TurnStatus::Running => None,
            TurnStatus::Finished(text) => Some(Ok(text)),
            TurnStatus::Failed(error) => Some(Err(error)),
        }
    }

    /// Handles one response of the generation service: ends the turn on a
    /// final text, or runs the tool calls asked for against the store. The
    /// result says what is to be done next.
    pub fn on_generation(
        &mut self,
        config: &AgentConfig,
        store: &mut MockProjectUntitled,
        response: Generation,
    ) -> (action: AgentAction)
        ensures
            (final(self)@, final(store)@) == step(
                config@.tools,
                config@.max_rounds,
                old(self)@,
                old(store)@,
                response@,
            ),
            action == action_of(final(self)@.status),
    {
        match self.status {
            TurnStatus::Running => {},
            _ => {
                return AgentAction::Stop;
            },
        }
        let ghost talk = conversation_view(self.conversation@);
        match response {
            Generation::FinalText(text) => {
                self.status = TurnStatus::Finished(text.clone());
                self.conversation.push(Message::Assistant(text));
                assert(conversation_view(self.conversation@) =~= talk.push(
                    MessageView::Assistant(text@),
                ));
                AgentAction::Stop
            },
            Generation::ToolCalls(calls) => {
                if self.rounds >= config.max_rounds {
                    self.status = TurnStatus::Failed(
                        AgentError::RoundLimitExceeded(config.max_rounds),
                    );
                    return AgentAction::Stop;
                }
                match run_calls(&config.tools, store, &calls) {
                    Err(name) => {
                        self.status = TurnStatus::Failed(AgentError::UnknownTool(name));
                        AgentAction::Stop
                    },
                    Ok(replies) => {
                        self.conversation.push(Message::ToolCalls(calls));
                        self.conversation.push(Message::ToolReplies(replies));
                        assert(conversation_view(self.conversation@) =~= talk.push(
                            MessageView::ToolCalls(calls_view(calls@)),
                        ).push(MessageView::ToolReplies(replies_view(replies@))));
                        self.rounds = self.rounds + 1;
                        AgentAction::Generate
                    },
                }
            },
        }
    }

    /// Handles the failure of a generation request: a running turn fails
    /// with the service's error, passed on as it came.
    pub fn on_service_failure(&mut self, error: String) -> (action: AgentAction)
        ensures
            final(self)@ == service_failed(old(self)@, error@),
            action == AgentAction::Stop,
    {
        match self.status {
            TurnStatus::Running => {
                self.status = TurnStatus::Failed(AgentError::Service(error));
            },
            _ => {},
        }
        AgentAction::Stop
    }
}

} // verus!
