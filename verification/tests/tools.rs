use project_untitled::facts::{
    DietType, FoodKind, StoreDietTypeArgs, StoreDietTypeArgsAux, StoreFoodPrefArgs,
    StoreFoodPrefArgsAux,
};
use project_untitled::decode::{DecodeError, Fault, Field, Place};
use project_untitled::payload::{Payload, PayloadKind};
use project_untitled::schema::Schema;
use project_untitled::store::MockProjectUntitled;
use project_untitled::tool::{FoodPrefError, StoreDietType, StoreFoodPref};
use project_untitled::toolset::{outcome_to_text, Tool, ToolError, ToolSet};

fn text(value: &str) -> Payload {
    Payload::Text(value.to_string())
}

fn object(fields: Vec<(&str, Payload)>) -> Payload {
    Payload::Object(fields.into_iter().map(|(name, value)| (name.to_string(), value)).collect())
}

fn dishes(items: Vec<(&str, &str)>) -> Payload {
    object(vec![(
        "dishes",
        Payload::List(
            items
                .into_iter()
                .map(|(dish, kind)| object(vec![("dish", text(dish)), ("kind", text(kind))]))
                .collect(),
        ),
    )])
}

fn diets(items: Vec<(&str, bool)>) -> Payload {
    object(vec![(
        "diets",
        Payload::List(
            items
                .into_iter()
                .map(|(diet, follows)| {
                    object(vec![("diet_type", text(diet)), ("follows", Payload::Bool(follows))])
                })
                .collect(),
        ),
    )])
}

fn both() -> ToolSet {
    ToolSet::new().with(Tool::StoreFoodPref(StoreFoodPref)).with(Tool::StoreDietType(StoreDietType))
}

fn recorded(store: &MockProjectUntitled) -> (Vec<(String, FoodKind)>, Vec<StoreDietTypeArgsAux>) {
    (
        store.get_food_prefs().iter().map(|p| (p.dish.clone(), p.kind)).collect(),
        store.get_diets().clone(),
    )
}

fn described(description: &Option<String>, expected: &str) {
    assert_eq!(description.as_deref(), Some(expected));
}

#[test]
fn food_pref_definition() {
    let definition = StoreFoodPref.definition("any prompt".to_string());
    assert_eq!(definition.name, "StoreFoodPref");
    assert_eq!(definition.description, "Store food preferences");
    let Schema::Object { description, properties, required } = definition.parameters else {
        panic!("parameters are no object");
    };
    assert_eq!(description, None);
    assert_eq!(required, vec!["dishes"]);
    assert_eq!(properties.len(), 1);
    assert_eq!(properties[0].0, "dishes");
    let Schema::Array { description, items } = &properties[0].1 else {
        panic!("dishes is no array");
    };
    described(description, "A list of zero or more dishes and kinds to store");
    let Schema::Object { description, properties, required } = &**items else {
        panic!("items are no objects");
    };
    assert_eq!(description, &None);
    assert_eq!(required, &vec!["dish", "kind"]);
    assert_eq!(properties.len(), 2);
    assert_eq!(properties[0].0, "dish");
    let Schema::Text { description, one_of } = &properties[0].1 else {
        panic!("dish is no text");
    };
    described(
        description,
        "The name of the dish or food for which we are learning about a preference",
    );
    assert_eq!(one_of, &None);
    assert_eq!(properties[1].0, "kind");
    let Schema::Text { description, one_of } = &properties[1].1 else {
        panic!("kind is no text");
    };
    described(description, "The kind of food preference that this is");
    let names: Vec<String> = ["allergy", "intolerance", "dislike", "not_sure", "like", "love"]
        .iter()
        .map(|name| name.to_string())
        .collect();
    assert_eq!(one_of, &Some(names));
}

#[test]
fn diet_type_definition() {
    let definition = StoreDietType.definition(String::new());
    assert_eq!(definition.name, "StoreDietType");
    assert_eq!(definition.description, "Store diet types");
    let Schema::Object { description, properties, required } = definition.parameters else {
        panic!("parameters are no object");
    };
    assert_eq!(description, None);
    assert_eq!(required, vec!["diets"]);
    assert_eq!(properties.len(), 1);
    assert_eq!(properties[0].0, "diets");
    let Schema::Array { description, items } = &properties[0].1 else {
        panic!("diets is no array");
    };
    described(description, "A list of zero or more diet types and whether the user follows them");
    let Schema::Object { description, properties, required } = &**items else {
        panic!("items are no objects");
    };
    assert_eq!(description, &None);
    assert_eq!(required, &vec!["diet_type", "follows"]);
    assert_eq!(properties.len(), 2);
    assert_eq!(properties[0].0, "diet_type");
    let Schema::Text { description, one_of } = &properties[0].1 else {
        panic!("diet_type is no text");
    };
    described(description, "The type of diet");
    let names: Vec<String> = ["vegetarian", "vegan", "gluten-free", "pescatarian", "keto", "paleo"]
        .iter()
        .map(|name| name.to_string())
        .collect();
    assert_eq!(one_of, &Some(names));
    assert_eq!(properties[1].0, "follows");
    let Schema::Boolean { description } = &properties[1].1 else {
        panic!("follows is no boolean");
    };
    described(description, "Whether the user follows this diet");
}

#[test]
fn definitions_do_not_depend_on_the_prompt() {
    let one = format!("{:?}", StoreFoodPref.definition("one".to_string()));
    let other = format!("{:?}", StoreFoodPref.definition("another prompt".to_string()));
    assert_eq!(one, other);
}

#[test]
fn schema_constructors() {
    assert!(matches!(
        Schema::text("a"),
        Schema::Text { description: Some(d), one_of: None } if d == "a"
    ));
    assert!(matches!(
        Schema::one_of("b", vec!["x".to_string()]),
        Schema::Text { description: Some(d), one_of: Some(names) } if d == "b" && names == ["x"]
    ));
    assert!(matches!(Schema::number("c"), Schema::Number { description: Some(d) } if d == "c"));
    assert!(matches!(Schema::boolean("d"), Schema::Boolean { description: Some(d) } if d == "d"));
    assert!(matches!(
        Schema::array("e", Schema::number("n")),
        Schema::Array { description: Some(d), items }
            if d == "e" && matches!(*items, Schema::Number { .. })
    ));
    assert!(matches!(
        Schema::object(vec![("p".to_string(), Schema::text("t"))], vec!["p".to_string()]),
        Schema::Object { description: None, properties, required }
            if properties.len() == 1 && properties[0].0 == "p" && required == ["p"]
    ));
}

#[test]
fn food_pref_call_appends_in_order() {
    let mut store = MockProjectUntitled::new();
    store.add_diet(StoreDietTypeArgsAux { diet_type: DietType::Keto, follows: true });
    let done = StoreFoodPref.call(
        &mut store,
        StoreFoodPrefArgs {
            dishes: vec![
                StoreFoodPrefArgsAux { dish: "scrambled eggs".to_string(), kind: FoodKind::Love },
                StoreFoodPrefArgsAux { dish: "tomatoes".to_string(), kind: FoodKind::Allergy },
            ],
        },
    );
    assert_eq!(done, Ok(true));
    assert_eq!(
        recorded(&store),
        (
            vec![
                ("scrambled eggs".to_string(), FoodKind::Love),
                ("tomatoes".to_string(), FoodKind::Allergy),
            ],
            vec![StoreDietTypeArgsAux { diet_type: DietType::Keto, follows: true }],
        )
    );
}

#[test]
fn diet_type_call_appends_in_order() {
    let mut store = MockProjectUntitled::new();
    let done = StoreDietType.call(
        &mut store,
        StoreDietTypeArgs {
            diets: vec![
                StoreDietTypeArgsAux { diet_type: DietType::Vegetarian, follows: true },
                StoreDietTypeArgsAux { diet_type: DietType::Vegan, follows: false },
            ],
        },
    );
    assert_eq!(done, Ok(true));
    assert_eq!(
        recorded(&store),
        (
            vec![],
            vec![
                StoreDietTypeArgsAux { diet_type: DietType::Vegetarian, follows: true },
                StoreDietTypeArgsAux { diet_type: DietType::Vegan, follows: false },
            ],
        )
    );
}

#[test]
fn calls_with_empty_lists_succeed_and_change_nothing() {
    let mut store = MockProjectUntitled::new();
    assert_eq!(StoreFoodPref.call(&mut store, StoreFoodPrefArgs { dishes: vec![] }), Ok(true));
    assert_eq!(StoreDietType.call(&mut store, StoreDietTypeArgs { diets: vec![] }), Ok(true));
    assert_eq!(recorded(&store), (vec![], vec![]));
}

#[test]
fn tool_names() {
    assert_eq!(StoreFoodPref.name(), "StoreFoodPref");
    assert_eq!(StoreDietType.name(), "StoreDietType");
    assert_eq!(Tool::StoreFoodPref(StoreFoodPref).name(), "StoreFoodPref");
    assert_eq!(Tool::StoreDietType(StoreDietType).name(), "StoreDietType");
    assert_eq!(Tool::from_name("StoreFoodPref"), Some(Tool::StoreFoodPref(StoreFoodPref)));
    assert_eq!(Tool::from_name("StoreDietType"), Some(Tool::StoreDietType(StoreDietType)));
    assert_eq!(Tool::from_name("storefoodpref"), None);
    assert_eq!(Tool::from_name(""), None);
}

#[test]
fn tool_set_registers_each_tool_once() {
    let set = ToolSet::new();
    assert_eq!(set.len(), 0);
    assert!(!set.contains(Tool::StoreFoodPref(StoreFoodPref)));
    let set = set
        .with(Tool::StoreDietType(StoreDietType))
        .with(Tool::StoreDietType(StoreDietType))
        .with(Tool::StoreFoodPref(StoreFoodPref))
        .with(Tool::StoreDietType(StoreDietType));
    assert_eq!(set.len(), 2);
    assert!(set.contains(Tool::StoreFoodPref(StoreFoodPref)));
    let names: Vec<String> = set.definitions("p").into_iter().map(|d| d.name).collect();
    assert_eq!(names, vec!["StoreDietType", "StoreFoodPref"]);
}

#[test]
fn tool_set_finds_registered_tools_only() {
    let only_food = ToolSet::new().with(Tool::StoreFoodPref(StoreFoodPref));
    assert_eq!(only_food.find("StoreFoodPref"), Some(Tool::StoreFoodPref(StoreFoodPref)));
    assert_eq!(only_food.find("StoreDietType"), None);
    assert_eq!(only_food.find("Other"), None);
    assert_eq!(ToolSet::new().find("StoreFoodPref"), None);
}

#[test]
fn run_decodes_and_appends() {
    let mut store = MockProjectUntitled::new();
    let outcome = Tool::StoreFoodPref(StoreFoodPref)
        .run(&mut store, &dishes(vec![("scrambled eggs", "love"), ("tomatoes", "allergy")]));
    assert_eq!(outcome, Ok(true));
    let outcome =
        Tool::StoreDietType(StoreDietType).run(&mut store, &diets(vec![("vegetarian", true)]));
    assert_eq!(outcome, Ok(true));
    assert_eq!(
        recorded(&store),
        (
            vec![
                ("scrambled eggs".to_string(), FoodKind::Love),
                ("tomatoes".to_string(), FoodKind::Allergy),
            ],
            vec![StoreDietTypeArgsAux { diet_type: DietType::Vegetarian, follows: true }],
        )
    );
}

#[test]
fn a_payload_without_a_required_field_changes_nothing() {
    let mut store = MockProjectUntitled::new();
    store.add_food_pref(StoreFoodPrefArgsAux { dish: "bread".to_string(), kind: FoodKind::Like });
    let set = both();
    let no_list = object(vec![("dish", text("eggs"))]);
    assert_eq!(
        set.call(&mut store, "StoreFoodPref", &no_list),
        Some(Err(ToolError::Decode(DecodeError {
            place: Place::Field(Field::Dishes),
            fault: Fault::Missing,
        })))
    );
    // The second item lacks `kind`: the first item is not recorded either.
    let half = object(vec![(
        "dishes",
        Payload::List(vec![
            object(vec![("dish", text("eggs")), ("kind", text("love"))]),
            object(vec![("dish", text("tomatoes"))]),
        ]),
    )]);
    assert_eq!(
        set.call(&mut store, "StoreFoodPref", &half),
        Some(Err(ToolError::Decode(DecodeError {
            place: Place::ItemField(1, Field::Kind),
            fault: Fault::Missing,
        })))
    );
    assert_eq!(
        set.call(&mut store, "StoreDietType", &object(vec![("diets", Payload::Null)])),
        Some(Err(ToolError::Decode(DecodeError {
            place: Place::Field(Field::Diets),
            fault: Fault::Mistyped { expected: PayloadKind::List, found: PayloadKind::Null },
        })))
    );
    assert_eq!(recorded(&store), (vec![("bread".to_string(), FoodKind::Like)], vec![]));
}

#[test]
fn a_call_of_an_unregistered_tool_changes_nothing() {
    let mut store = MockProjectUntitled::new();
    let only_diets = ToolSet::new().with(Tool::StoreDietType(StoreDietType));
    assert_eq!(only_diets.call(&mut store, "StoreFoodPref", &dishes(vec![("eggs", "love")])), None);
    assert_eq!(only_diets.call(&mut store, "Search", &Payload::Null), None);
    assert_eq!(recorded(&store), (vec![], vec![]));
}

#[test]
fn a_call_reaches_only_the_category_of_its_tool() {
    let mut store = MockProjectUntitled::new();
    let set = both();
    // A payload with both lists, handed to the diet tool, records diets only.
    let payload = object(vec![
        (
            "dishes",
            Payload::List(vec![object(vec![("dish", text("eggs")), ("kind", text("love"))])]),
        ),
        (
            "diets",
            Payload::List(vec![object(vec![
                ("diet_type", text("pescatarian")),
                ("follows", Payload::Bool(false)),
            ])]),
        ),
    ]);
    assert_eq!(set.call(&mut store, "StoreDietType", &payload), Some(Ok(true)));
    assert_eq!(
        recorded(&store),
        (vec![], vec![StoreDietTypeArgsAux { diet_type: DietType::Pescatarian, follows: false }])
    );
}

#[test]
fn outcome_texts() {
    assert_eq!(outcome_to_text(&Ok(true)), "true");
    assert_eq!(outcome_to_text(&Ok(false)), "false");
    assert_eq!(
        outcome_to_text(&Err(ToolError::Decode(DecodeError {
            place: Place::Field(Field::Dishes),
            fault: Fault::Missing,
        }))),
        "DecodeError: field `dishes` is missing"
    );
    assert_eq!(
        outcome_to_text(&Err(ToolError::Call(FoodPrefError))),
        "ToolCallError: Food pref error"
    );
    assert_eq!(FoodPrefError.message(), "Food pref error");
    assert_eq!(ToolError::Call(FoodPrefError).message(), "ToolCallError: Food pref error");
}
