//! The set of tools that an agent may call, and the dispatch of one call:
//! find the tool by its name, decode the payload, run the tool.

use vstd::prelude::*;
use crate::decode::{
    decode_diet_type_args, decode_food_pref_args, spec_decode_diet_type_args,
    spec_decode_food_pref_args, DecodeError,
};
use crate::payload::{Payload, PayloadView};
use crate::schema::{ToolDefinition, ToolDefinitionView};
use crate::store::{MockProjectUntitled, StoreView};
use crate::tool::{
    diet_type_definition, food_pref_definition, FoodPrefError, StoreDietType, StoreFoodPref,
};

verus! {

/// Why a call of a tool did not do its work.
#[derive(Clone, Copy, Debug, PartialEq, Eq, Structural)]
pub enum ToolError {
    /// The payload did not decode. The tool was not run.
    Decode(DecodeError),
    /// The tool ran and failed.
    Call(FoodPrefError),
}

impl ToolError {
    /// The error as one line of text.
    pub open spec fn spec_message(self) -> Seq<char> {
        match self {
            ToolError::Decode(error) => error.spec_message(),
            ToolError::Call(error) => "ToolCallError: "@ + error.spec_message(),
        }
    }

    /// The error as one line of text.
    pub fn message(&self) -> (text: String)
        ensures
            text@ == self.spec_message(),
    {
        match self {
            ToolError::Decode(error) => error.message(),
            ToolError::Call(error) => {
                let mut text = String::from_str("ToolCallError: ");
                let cause = error.message();
                text.append(cause.as_str());
                text
            },
        }
    }
}

/// What a tool call hands back to the generation service: the tool's output,
/// or the error in words.
pub open spec fn outcome_text(outcome: Result<bool, ToolError>) -> Seq<char> {
    match outcome {
        Ok(true) => "true"@,
        Ok(false) => "false"@,
        Err(error) => error.spec_message(),
    }
}

/// One of the tools that can be registered.
#[derive(Clone, Copy, Debug, PartialEq, Eq, Structural)]
pub enum Tool {
    StoreFoodPref(StoreFoodPref),
    StoreDietType(StoreDietType),
}

impl Tool {
    /// The name by which the tool is called.
    pub open spec fn spec_name(self) -> Seq<char> {
        match self {
            Tool::StoreFoodPref(_) => StoreFoodPref::spec_name(),
            Tool::StoreDietType(_) => StoreDietType::spec_name(),
        }
    }

    /// The tool that is called `name`, if there is such a tool.
    pub open spec fn spec_from_name(name: Seq<char>) -> Option<Tool> {
        if name == StoreFoodPref::spec_name() {
            Some(Tool::StoreFoodPref(StoreFoodPref))
        } else if name == StoreDietType::spec_name() {
            Some(Tool::StoreDietType(StoreDietType))
        } else {
            None
        }
    }

    /// What a generation service is told of the tool.
    pub open spec fn spec_definition(self) -> ToolDefinitionView {
        match self {
            Tool::StoreFoodPref(_) => food_pref_definition(),
            Tool::StoreDietType(_) => diet_type_definition(),
        }
    }

    /// What a call of the tool with `payload` does to `store`, and how it
    /// ends. A payload that does not decode leaves the store as it was;
    /// one that decodes has its records appended, in their order, to the
    /// sequence of the tool's category, and to no other.
    pub open spec fn spec_run(self, store: StoreView, payload: PayloadView) -> (
        StoreView,
        Result<bool, ToolError>,
    ) {
        match self {
            Tool::StoreFoodPref(_) => match spec_decode_food_pref_args(payload) {
                Ok(facts) => (store.append_food_prefs(facts), Ok(true)),
                Err(error) => (store, Err(ToolError::Decode(error))),
            },
            Tool::StoreDietType(_) => match spec_decode_diet_type_args(payload) {
                Ok(diets) => (store.append_diets(diets), Ok(true)),
                Err(error) => (store, Err(ToolError::Decode(error))),
            },
        }
    }

    /// The two tools have different names: each is found again by its own.
    pub proof fn lemma_name_round_trip(self)
        ensures
            Tool::spec_from_name(self.spec_name()) == Some(self),
    {
        reveal_strlit("StoreFoodPref");
        reveal_strlit("StoreDietType");
        assert("StoreFoodPref"@[5] != "StoreDietType"@[5]);
    }

    /// The name by which the tool is called.
    pub fn name(&self) -> (name: &'static str)
        ensures
            name@ == self.spec_name(),
    {
        match self {
            Tool::StoreFoodPref(tool) => tool.name(),
            Tool::StoreDietType(tool) => tool.name(),
        }
    }

    /// The tool that is called `name`, if there is such a tool.
    pub fn from_name(name: &str) -> (tool: Option<Tool>)
        ensures
            tool == Tool::spec_from_name(name@),
    {
        let wanted = String::from_str(name);
        if wanted == String::from_str(StoreFoodPref.name()) {
            Some(Tool::StoreFoodPref(StoreFoodPref))
        } else if wanted == String::from_str(StoreDietType.name()) {
            Some(Tool::StoreDietType(StoreDietType))
        } else {
            None
        }
    }

    /// What a generation service is told of the tool.
    pub fn definition(&self, prompt: String) -> (definition: ToolDefinition)
        ensures
            definition@ == self.spec_definition(),
    {
        match self {
            Tool::StoreFoodPref(tool) => tool.definition(prompt),
            Tool::StoreDietType(tool) => tool.definition(prompt),
        }
    }

    /// Decodes the payload and, where it decodes, runs the tool on the
    /// store.
    pub fn run(&self, store: &mut MockProjectUntitled, payload: &Payload) -> (outcome: Result<
        bool,
        ToolError,
    >)
        ensures
            (final(store)@, outcome) == self.spec_run(old(store)@, payload@),
    {
        match self {
            Tool::StoreFoodPref(tool) => match decode_food_pref_args(payload) {
                Ok(args) => match tool.call(store, args) {
                    Ok(done) => Ok(done),
                    Err(error) => Err(ToolError::Call(error)),
                },
                Err(error) => Err(ToolError::Decode(error)),
            },
            Tool::StoreDietType(tool) => match decode_diet_type_args(payload) {
                Ok(args) => match tool.call(store, args) {
                    Ok(done) => Ok(done),
                    Err(error) => Err(ToolError::Call(error)),
                },
                Err(error) => Err(ToolError::Decode(error)),
            },
        }
    }
}

/// Writes what a tool call hands back to the generation service.
pub fn outcome_to_text(outcome: &Result<bool, ToolError>) -> (text: String)
    ensures
        text@ == outcome_text(*outcome),
{
    match outcome {
        Ok(true) => String::from_str("true"),
        Ok(false) => String::from_str("false"),
        Err(error) => error.message(),
    }
}

/// The tool of `tools` that is called `name`, if there is one.
pub open spec fn find_tool(tools: Seq<Tool>, name: Seq<char>) -> Option<Tool> {
    match Tool::spec_from_name(name) {
        Some(tool) => if tools.contains(tool) {
            Some(tool)
        } else {
            None
        },
        None => None,
    }
}

/// What the call of the tool `name` with `payload` does to `store`, and how
/// it ends: `None` where no tool of that name is registered, and the store
/// is then as it was.
pub open spec fn call_tool(
    tools: Seq<Tool>,
    store: StoreView,
    name: Seq<char>,
    payload: PayloadView,
) -> (StoreView, Option<Result<bool, ToolError>>) {
    match find_tool(tools, name) {
        Some(tool) => (tool.spec_run(store, payload).0, Some(tool.spec_run(store, payload).1)),
        None => (store, None),
    }
}

/// The tools that are registered with one agent, each at most once, in the
/// order of registration.
#[derive(Debug)]
pub struct ToolSet {
    tools: Vec<Tool>,
}

impl View for ToolSet {
    type V = Seq<Tool>;

    closed spec fn view(&self) -> Seq<Tool> {
        self.tools@
    }
}

impl ToolSet {
    #[verifier::type_invariant]
    spec fn no_tool_twice(self) -> bool {
        self.tools@.no_duplicates()
    }

    /// The set without any tool.
    pub fn new() -> (set: ToolSet)
        ensures
            set@ == Seq::<Tool>::empty(),
    {
        ToolSet { tools: Vec::new() }
    }

    /// Whether `tool` is registered.
    pub fn contains(&self, tool: Tool) -> (found: bool)
        ensures
            found == self@.contains(tool),
    {
        let mut i: usize = 0;
        while i < self.tools.len()
            invariant
                i <= self.tools.len(),
                forall|k: int| 0 <= k < i ==> self.tools@[k] != tool,
            decreases self.tools.len() - i,
        {
            if self.tools[i] == tool {
                return true;
            }
            i += 1;
        }
        false
    }

    /// The set with `tool` registered too, unless it was registered already.
    pub fn with(self, tool: Tool) -> (set: ToolSet)
        ensures
            set@ == if self@.contains(tool) {
                self@
            } else {
                self@.push(tool)
            },
            set@.no_duplicates(),
    {
        proof {
            use_type_invariant(&self);
        }
        if self.contains(tool) {
            self
        } else {
            let mut tools = self.tools;
            tools.push(tool);
            ToolSet { tools }
        }
    }

    /// The number of registered tools.
    pub fn len(&self) -> (n: usize)
        ensures
            n == self@.len(),
    {
        self.tools.len()
    }

    /// The registered tool that is called `name`, if there is one.
    pub fn find(&self, name: &str) -> (tool: Option<Tool>)
        ensures
            tool == find_tool(self@, name@),
    {
        match Tool::from_name(name) {
            Some(tool) => if self.contains(tool) {
                Some(tool)
            } else {
                None
            },
            None => None,
        }
    }

    /// What a generation service is told of the registered tools, in the
    /// order of registration. No two of the definitions have the same name.
    pub fn definitions(&self, prompt: &str) -> (definitions: Vec<ToolDefinition>)
        ensures
            definitions@.len() == self@.len(),
            forall|i: int|
                0 <= i < self@.len() ==> (#[trigger] definitions@[i])@
                    == self@[i].spec_definition(),
            forall|i: int, j: int|
                0 <= i < j < definitions@.len() ==> (#[trigger] definitions@[i])@.name != (
                #[trigger] definitions@[j])@.name,
    {
        proof {
            use_type_invariant(self);
            assert forall|i: int, j: int| 0 <= i < j < self.tools@.len() implies (
            #[trigger] self.tools@[i]).spec_definition().name != (
            #[trigger] self.tools@[j]).spec_definition().name by {
                self.tools@[i].lemma_name_round_trip();
                self.tools@[j].lemma_name_round_trip();
            }
        }
        let mut definitions: Vec<ToolDefinition> = Vec::new();
        let mut i: usize = 0;
        while i < self.tools.len()
            invariant
                i <= self.tools.len(),
                definitions@.len() == i,
                forall|k: int|
                    0 <= k < i ==> (#[trigger] definitions@[k])@
                        == self.tools@[k].spec_definition(),
            decreases self.tools.len() - i,
        {
            definitions.push(self.tools[i].definition(String::from_str(prompt)));
            i += 1;
        }
        definitions
    }

    /// Dispatches one tool call: finds the tool called `name`, decodes
    /// `payload` for it and runs it on `store`. Where no such tool is
    /// registered, or the payload does not decode, the store is left as it
    /// was.
    pub fn call(&self, store: &mut MockProjectUntitled, name: &str, payload: &Payload) -> (outcome:
        Option<Result<bool, ToolError>>)
        ensures
            (final(store)@, outcome) == call_tool(self@, old(store)@, name@, payload@),
    {
        match self.find(name) {
            Some(tool) => Some(tool.run(store, payload)),
            None => None,
        }
    }
}

/// A call that fails leaves the store as it was: a payload that does not
/// decode, such as one without a required field, changes nothing.
pub proof fn lemma_failed_call_changes_nothing(
    tools: Seq<Tool>,
    store: StoreView,
    name: Seq<char>,
    payload: PayloadView,
)
    ensures
        !(call_tool(tools, store, name, payload).1 matches Some(Ok(_))) ==> call_tool(
            tools,
            store,
            name,
            payload,
        ).0 == store,
{
}

/// A call that succeeds makes the sequence of the tool's category longer by
/// exactly the records of the payload, in the order of the payload, and
/// leaves the other sequence as it was.
pub proof fn lemma_successful_call_appends(
    tools: Seq<Tool>,
    store: StoreView,
    name: Seq<char>,
    payload: PayloadView,
)
    requires
        call_tool(tools, store, name, payload).1 matches Some(Ok(_)),
    ensures
        ({
            let after = call_tool(tools, store, name, payload).0;
            match find_tool(tools, name) {
                Some(Tool::StoreFoodPref(_)) => {
                    &&& spec_decode_food_pref_args(payload) is Ok
                    &&& after.food_prefs == store.food_prefs + spec_decode_food_pref_args(
                        payload,
                    )->Ok_0
                    &&& after.diets == store.diets
                },
                Some(Tool::StoreDietType(_)) => {
                    &&& spec_decode_diet_type_args(payload) is Ok
                    &&& after.diets == store.diets + spec_decode_diet_type_args(payload)->Ok_0
                    &&& after.food_prefs == store.food_prefs
                },
                None => false,
            }
        }),
{
}

} // verus!
