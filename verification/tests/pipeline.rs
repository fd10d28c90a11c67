use project_untitled::agent::{
    AgentAction, AgentConfig, AgentError, AgentTurn, Generation, ToolCallRequest,
};
use project_untitled::facts::{DietType, FoodKind, StoreDietTypeArgsAux, StoreFoodPrefArgsAux};
use project_untitled::payload::Payload;
use project_untitled::pipeline::{FailurePolicy, Phase, Pipeline, PipelineAction};
use project_untitled::prompt::{render_extraction_prompt, render_synthesis_prompt};
use project_untitled::store::{MockProjectUntitled, Snapshot};
use project_untitled::tool::{StoreDietType, StoreFoodPref};
use project_untitled::toolset::{Tool, ToolSet};

fn text(value: &str) -> Payload {
    Payload::Text(value.to_string())
}

fn object(fields: Vec<(&str, Payload)>) -> Payload {
    Payload::Object(fields.into_iter().map(|(name, value)| (name.to_string(), value)).collect())
}

fn pref(dish: &str, kind: FoodKind) -> StoreFoodPrefArgsAux {
    StoreFoodPrefArgsAux { dish: dish.to_string(), kind }
}

fn diet(diet_type: DietType, follows: bool) -> StoreDietTypeArgsAux {
    StoreDietTypeArgsAux { diet_type, follows }
}

fn agent(tool: Tool) -> AgentConfig {
    AgentConfig::new(
        "Your job is to extract facts".to_string(),
        2048,
        ToolSet::new().with(tool),
        2,
    )
}

fn run_with(agents: usize, policy: FailurePolicy) -> Pipeline {
    Pipeline::new("talk".to_string(), "Salt".to_string(), agents, policy)
}

/// A run whose extraction agents have been started.
fn started(agents: usize, policy: FailurePolicy, store: &MockProjectUntitled) -> Pipeline {
    let mut run = run_with(agents, policy);
    assert!(matches!(run.next(store), PipelineAction::Extract(_)));
    run
}

fn prompt_of(action: PipelineAction) -> String {
    match action {
        PipelineAction::Synthesize(prompt) => prompt,
        other => panic!("no synthesis: {other:?}"),
    }
}

#[test]
fn prompt_of_an_extraction_agent() {
    assert_eq!(
        render_extraction_prompt("User: I love eggs."),
        "Here is the conversation to analyze:\n User: I love eggs."
    );
    assert_eq!(render_extraction_prompt(""), "Here is the conversation to analyze:\n ");
}

#[test]
fn prompt_of_an_empty_snapshot() {
    let snapshot = Snapshot { food_prefs: vec![], diets: vec![] };
    assert_eq!(
        render_synthesis_prompt("Eggs", &snapshot),
        "\n    Ingredients: Eggs\n\n    Diets: []\n\n    Food Preferences: []\n        "
    );
}

#[test]
fn prompt_lists_every_record_in_order() {
    let snapshot = Snapshot {
        food_prefs: vec![
            pref("scrambled eggs", FoodKind::Love),
            pref("tomatoes", FoodKind::Allergy),
            pref("milk", FoodKind::NotSure),
        ],
        diets: vec![diet(DietType::Vegetarian, true), diet(DietType::GlutenFree, false)],
    };
    let expected = "\n    Ingredients: \n      Tomatoes\n      Eggs\n\n    \
        Diets: [StoreDietTypeArgsAux { diet_type: \"vegetarian\", follows: true }, \
        StoreDietTypeArgsAux { diet_type: \"gluten-free\", follows: false }]\n\n    \
        Food Preferences: [StoreFoodPrefArgsAux { dish: \"scrambled eggs\", kind: \"love\" }, \
        StoreFoodPrefArgsAux { dish: \"tomatoes\", kind: \"allergy\" }, \
        StoreFoodPrefArgsAux { dish: \"milk\", kind: \"not_sure\" }]\n        ";
    assert_eq!(render_synthesis_prompt("\n      Tomatoes\n      Eggs", &snapshot), expected);
}

#[test]
fn prompt_writes_a_dish_as_it_is() {
    let snapshot =
        Snapshot { food_prefs: vec![pref("crème \"brûlée\"", FoodKind::Like)], diets: vec![] };
    let prompt = render_synthesis_prompt("", &snapshot);
    assert!(prompt.contains("dish: \"crème \"brûlée\"\", kind: \"like\""));
}

#[test]
fn extraction_then_snapshot_then_synthesis() {
    let conversation =
        "I don't eat pigs... I'm vegetarian... I love scrambled eggs... I'm allergic to tomatoes";
    let mut store = MockProjectUntitled::new();
    let mut run = Pipeline::new(
        conversation.to_string(),
        "Tomatoes, Eggs".to_string(),
        2,
        FailurePolicy::Abort,
    );
    assert_eq!(run.phase(), Phase::Ready);
    let prompt = match run.next(&store) {
        PipelineAction::Extract(prompt) => prompt,
        other => panic!("no extraction: {other:?}"),
    };
    assert_eq!(prompt, format!("Here is the conversation to analyze:\n {conversation}"));
    assert_eq!(run.phase(), Phase::Extracting);
    assert!(matches!(run.next(&store), PipelineAction::Wait));

    // The food agent asks for one call of its tool, then gives its final text.
    let food = agent(Tool::StoreFoodPref(StoreFoodPref));
    let mut turn = AgentTurn::start(prompt.clone());
    let calls = vec![ToolCallRequest {
        id: "toolu_1".to_string(),
        name: "StoreFoodPref".to_string(),
        payload: object(vec![(
            "dishes",
            Payload::List(vec![
                object(vec![("dish", text("scrambled eggs")), ("kind", text("love"))]),
                object(vec![("dish", text("tomatoes")), ("kind", text("allergy"))]),
            ]),
        )]),
    }];
    assert_eq!(
        turn.on_generation(&food, &mut store, Generation::ToolCalls(calls)),
        AgentAction::Generate
    );
    assert_eq!(
        turn.on_generation(&food, &mut store, Generation::FinalText("Stored two.".to_string())),
        AgentAction::Stop
    );
    run.record_extraction(0, turn.outcome().unwrap());
    // One agent is still at work: no snapshot yet.
    assert!(matches!(run.next(&store), PipelineAction::Wait));
    assert!(run.snapshot().is_none());

    // The diet agent does the same with its tool.
    let diets = agent(Tool::StoreDietType(StoreDietType));
    let mut turn = AgentTurn::start(prompt);
    let calls = vec![ToolCallRequest {
        id: "toolu_2".to_string(),
        name: "StoreDietType".to_string(),
        payload: object(vec![(
            "diets",
            Payload::List(vec![object(vec![
                ("diet_type", text("vegetarian")),
                ("follows", Payload::Bool(true)),
            ])]),
        )]),
    }];
    assert_eq!(
        turn.on_generation(&diets, &mut store, Generation::ToolCalls(calls)),
        AgentAction::Generate
    );
    assert_eq!(
        turn.on_generation(&diets, &mut store, Generation::FinalText("Stored one.".to_string())),
        AgentAction::Stop
    );
    run.record_extraction(1, turn.outcome().unwrap());

    let prompt = prompt_of(run.next(&store));
    assert_eq!(run.phase(), Phase::Synthesizing);
    let snapshot = run.snapshot().as_ref().unwrap();
    let prefs: Vec<(&str, FoodKind)> =
        snapshot.food_prefs.iter().map(|p| (p.dish.as_str(), p.kind)).collect();
    assert_eq!(prefs, vec![("scrambled eggs", FoodKind::Love), ("tomatoes", FoodKind::Allergy)]);
    assert_eq!(snapshot.diets, vec![diet(DietType::Vegetarian, true)]);
    assert!(prompt.contains("vegetarian"));
    assert!(prompt.contains("tomatoes"));
    assert!(prompt.contains("scrambled eggs"));
    assert_eq!(
        prompt,
        "\n    Ingredients: Tomatoes, Eggs\n\n    \
         Diets: [StoreDietTypeArgsAux { diet_type: \"vegetarian\", follows: true }]\n\n    \
         Food Preferences: [StoreFoodPrefArgsAux { dish: \"scrambled eggs\", kind: \"love\" }, \
         StoreFoodPrefArgsAux { dish: \"tomatoes\", kind: \"allergy\" }]\n        "
    );

    // While synthesis is at work nothing more is due, and no second snapshot is taken.
    store.add_diet(diet(DietType::Vegan, false));
    assert!(matches!(run.next(&store), PipelineAction::Wait));
    assert_eq!(run.snapshot().as_ref().unwrap().diets.len(), 1);

    run.record_synthesis(Ok("Three recipes".to_string()));
    assert_eq!(run.phase(), Phase::Done);
    assert!(matches!(run.next(&store), PipelineAction::Finish));
    assert!(matches!(run.answer(), Some(Ok(text)) if text == "Three recipes"));
    assert!(matches!(&run.extraction()[0], Some(Ok(text)) if text == "Stored two."));
    assert!(matches!(&run.extraction()[1], Some(Ok(text)) if text == "Stored one."));
}

#[test]
fn a_run_without_extraction_agents_goes_straight_to_synthesis() {
    let store = MockProjectUntitled::new();
    let mut run = run_with(0, FailurePolicy::Abort);
    let prompt = prompt_of(run.next(&store));
    assert_eq!(
        prompt,
        "\n    Ingredients: Salt\n\n    Diets: []\n\n    Food Preferences: []\n        "
    );
    assert_eq!(run.phase(), Phase::Synthesizing);
}

#[test]
fn extraction_is_asked_for_once() {
    let store = MockProjectUntitled::new();
    let mut run = run_with(1, FailurePolicy::Abort);
    assert!(matches!(
        run.next(&store),
        PipelineAction::Extract(prompt) if prompt == "Here is the conversation to analyze:\n talk"
    ));
    assert!(matches!(run.next(&store), PipelineAction::Wait));
    assert!(matches!(run.next(&store), PipelineAction::Wait));
}

#[test]
fn outcomes_before_the_start_are_ignored() {
    let store = MockProjectUntitled::new();
    let mut run = run_with(1, FailurePolicy::Abort);
    run.record_extraction(0, Ok("too early".to_string()));
    run.record_synthesis(Ok("too early".to_string()));
    assert_eq!(run.phase(), Phase::Ready);
    assert!(run.extraction()[0].is_none());
    assert!(run.answer().is_none());
    assert!(matches!(run.next(&store), PipelineAction::Extract(_)));
}

#[test]
fn a_failed_extraction_aborts_the_run_under_the_abort_policy() {
    let mut store = MockProjectUntitled::new();
    store.add_food_pref(pref("eggs", FoodKind::Love));
    let mut run = started(3, FailurePolicy::Abort, &store);
    run.record_extraction(2, Err(AgentError::Service("timeout".to_string())));
    run.record_extraction(0, Ok("fine".to_string()));
    assert!(matches!(run.next(&store), PipelineAction::Wait));
    run.record_extraction(1, Err(AgentError::RoundLimitExceeded(4)));
    // All three have ended: the run ends with the failure of the first agent that failed.
    assert!(matches!(run.next(&store), PipelineAction::Finish));
    assert_eq!(run.phase(), Phase::Done);
    assert!(matches!(run.answer(), Some(Err(AgentError::RoundLimitExceeded(4)))));
    assert!(run.snapshot().is_none());
    // The store is as the tools left it.
    assert_eq!(store.get_food_prefs().len(), 1);
    // Nothing that comes later changes the outcome.
    run.record_synthesis(Ok("late".to_string()));
    run.record_extraction(1, Ok("late".to_string()));
    assert!(matches!(run.answer(), Some(Err(AgentError::RoundLimitExceeded(4)))));
    assert!(matches!(&run.extraction()[1], Some(Err(AgentError::RoundLimitExceeded(4)))));
}

#[test]
fn a_failed_extraction_still_leads_to_synthesis_under_the_partial_policy() {
    let mut store = MockProjectUntitled::new();
    store.add_food_pref(pref("eggs", FoodKind::Love));
    let mut run = started(2, FailurePolicy::UsePartial, &store);
    run.record_extraction(0, Err(AgentError::UnknownTool("Search".to_string())));
    assert!(matches!(run.next(&store), PipelineAction::Wait));
    run.record_extraction(1, Ok("fine".to_string()));
    let prompt = prompt_of(run.next(&store));
    assert!(prompt.contains("dish: \"eggs\", kind: \"love\""));
    run.record_synthesis(Ok("recipes".to_string()));
    assert!(matches!(run.answer(), Some(Ok(text)) if text == "recipes"));
    // The failure stays on record beside the answer.
    assert!(matches!(
        &run.extraction()[0],
        Some(Err(AgentError::UnknownTool(name))) if name == "Search"
    ));
}

#[test]
fn a_failed_synthesis_is_the_answer() {
    let store = MockProjectUntitled::new();
    let mut run = started(1, FailurePolicy::Abort, &store);
    run.record_extraction(0, Ok("fine".to_string()));
    prompt_of(run.next(&store));
    run.record_synthesis(Err(AgentError::Service("overloaded".to_string())));
    assert!(matches!(run.next(&store), PipelineAction::Finish));
    assert!(matches!(run.answer(), Some(Err(AgentError::Service(text))) if text == "overloaded"));
}

#[test]
fn only_the_first_outcome_of_an_agent_counts() {
    let store = MockProjectUntitled::new();
    let mut run = started(2, FailurePolicy::Abort, &store);
    run.record_extraction(0, Ok("first".to_string()));
    run.record_extraction(0, Err(AgentError::Service("second".to_string())));
    run.record_extraction(2, Ok("no such agent".to_string()));
    run.record_extraction(usize::MAX, Ok("no such agent".to_string()));
    assert_eq!(run.extraction().len(), 2);
    assert!(matches!(&run.extraction()[0], Some(Ok(text)) if text == "first"));
    assert!(run.extraction()[1].is_none());
    assert!(matches!(run.next(&store), PipelineAction::Wait));
    // A synthesis outcome before synthesis is due is ignored.
    run.record_synthesis(Ok("early".to_string()));
    assert_eq!(run.phase(), Phase::Extracting);
    assert!(run.answer().is_none());
}
