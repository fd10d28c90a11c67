use project_untitled::decode::{decode_diet_type_args, decode_food_pref_args};
use project_untitled::encode::{encode_diet_type_args, encode_food_pref_args};
use project_untitled::facts::{
    DietType, FoodKind, StoreDietTypeArgs, StoreDietTypeArgsAux, StoreFoodPrefArgs,
    StoreFoodPrefArgsAux,
};
use project_untitled::payload::Payload;
use project_untitled::schema::Schema;
use project_untitled::tool::{StoreDietType, StoreFoodPref};

fn text(value: &str) -> Payload {
    Payload::Text(value.to_string())
}

fn number(value: &str) -> Payload {
    Payload::Number(value.to_string())
}

fn object(fields: Vec<(&str, Payload)>) -> Payload {
    Payload::Object(fields.into_iter().map(|(name, value)| (name.to_string(), value)).collect())
}

fn list(items: Vec<Payload>) -> Payload {
    Payload::List(items)
}

fn samples() -> Vec<Payload> {
    let dish = |name: Payload, kind: Payload| object(vec![("dish", name), ("kind", kind)]);
    let diet = |name: Payload, follows: Payload| {
        object(vec![("diet_type", name), ("follows", follows)])
    };
    vec![
        Payload::Null,
        Payload::Bool(true),
        number("1"),
        text("dishes"),
        list(vec![]),
        object(vec![]),
        object(vec![("dishes", Payload::Null)]),
        object(vec![("dishes", list(vec![]))]),
        object(vec![("diets", list(vec![]))]),
        object(vec![("dishes", list(vec![])), ("diets", list(vec![]))]),
        object(vec![("dishes", list(vec![dish(text("eggs"), text("love"))]))]),
        object(vec![("dishes", list(vec![dish(text("eggs"), text("adore"))]))]),
        object(vec![("dishes", list(vec![dish(text("eggs"), Payload::Null)]))]),
        object(vec![("dishes", list(vec![dish(number("3"), text("like"))]))]),
        object(vec![("dishes", list(vec![object(vec![("dish", text("eggs"))])]))]),
        object(vec![("dishes", list(vec![object(vec![("kind", text("love"))])]))]),
        object(vec![("dishes", list(vec![text("eggs")]))]),
        object(vec![(
            "dishes",
            list(vec![
                dish(text("eggs"), text("love")),
                object(vec![
                    ("source", text("friend")),
                    ("kind", text("not_sure")),
                    ("dish", text("miso")),
                ]),
            ]),
        )]),
        object(vec![(
            "dishes",
            list(vec![dish(text("eggs"), text("love")), dish(text("pork"), text("hate"))]),
        )]),
        object(vec![("diets", list(vec![diet(text("vegan"), Payload::Bool(false))]))]),
        object(vec![("diets", list(vec![diet(text("gluten-free"), Payload::Bool(true))]))]),
        object(vec![("diets", list(vec![diet(text("gluten_free"), Payload::Bool(true))]))]),
        object(vec![("diets", list(vec![diet(text("keto"), text("yes"))]))]),
        object(vec![("diets", list(vec![diet(Payload::Bool(true), Payload::Bool(true))]))]),
        object(vec![("diets", list(vec![object(vec![("diet_type", text("paleo"))])]))]),
        object(vec![("diets", list(vec![object(vec![("follows", Payload::Bool(true))])]))]),
        object(vec![("diets", object(vec![]))]),
        object(vec![
            ("diets", list(vec![diet(text("pescatarian"), Payload::Bool(true))])),
            ("dishes", list(vec![dish(text("salmon"), text("like"))])),
            ("comment", text("both at once")),
        ]),
    ]
}

#[test]
fn the_food_pref_schema_accepts_what_the_decoder_accepts() {
    let schema = StoreFoodPref.definition(String::new()).parameters;
    let mut accepted = 0;
    for payload in samples() {
        let decodes = decode_food_pref_args(&payload).is_ok();
        assert_eq!(schema.accepts(&payload), decodes, "{payload:?}");
        if decodes {
            accepted += 1;
        }
    }
    assert_eq!(accepted, 5);
}

#[test]
fn the_diet_type_schema_accepts_what_the_decoder_accepts() {
    let schema = StoreDietType.definition(String::new()).parameters;
    let mut accepted = 0;
    for payload in samples() {
        let decodes = decode_diet_type_args(&payload).is_ok();
        assert_eq!(schema.accepts(&payload), decodes, "{payload:?}");
        if decodes {
            accepted += 1;
        }
    }
    assert_eq!(accepted, 5);
}

#[test]
fn scalar_schemas() {
    assert!(Schema::text("t").accepts(&text("anything")));
    assert!(!Schema::text("t").accepts(&number("1")));
    assert!(Schema::number("n").accepts(&number("1.5")));
    assert!(!Schema::number("n").accepts(&text("1.5")));
    assert!(Schema::boolean("b").accepts(&Payload::Bool(false)));
    assert!(!Schema::boolean("b").accepts(&Payload::Null));
    let choice = Schema::one_of("c", vec!["red".to_string(), "green".to_string()]);
    assert!(choice.accepts(&text("green")));
    assert!(!choice.accepts(&text("blue")));
    assert!(!choice.accepts(&text("Green")));
    let none = Schema::one_of("c", vec![]);
    assert!(!none.accepts(&text("")));
}

#[test]
fn array_schemas() {
    let numbers = Schema::array("a", Schema::number("n"));
    assert!(numbers.accepts(&list(vec![])));
    assert!(numbers.accepts(&list(vec![number("1"), number("2")])));
    assert!(!numbers.accepts(&list(vec![number("1"), text("2")])));
    assert!(!numbers.accepts(&number("1")));
    let nested = Schema::array("outer", Schema::array("inner", Schema::boolean("b")));
    assert!(nested.accepts(&list(vec![list(vec![Payload::Bool(true)]), list(vec![])])));
    assert!(!nested.accepts(&list(vec![list(vec![Payload::Null])])));
}

#[test]
fn object_schemas() {
    let schema = Schema::object(
        vec![("name".to_string(), Schema::text("n")), ("age".to_string(), Schema::number("a"))],
        vec!["name".to_string()],
    );
    assert!(schema.accepts(&object(vec![("name", text("x"))])));
    assert!(schema.accepts(&object(vec![("name", text("x")), ("age", number("3"))])));
    assert!(schema.accepts(&object(vec![("extra", Payload::Null), ("name", text("x"))])));
    // A property that is there must have its shape, required or not.
    assert!(!schema.accepts(&object(vec![("name", text("x")), ("age", text("three"))])));
    assert!(!schema.accepts(&object(vec![("age", number("3"))])));
    assert!(!schema.accepts(&object(vec![("name", Payload::Null)])));
    assert!(!schema.accepts(&list(vec![])));
    // A required field that is no property may have any shape.
    let open = Schema::object(vec![], vec!["id".to_string()]);
    assert!(open.accepts(&object(vec![("id", Payload::Null)])));
    assert!(!open.accepts(&object(vec![])));
}

#[test]
fn encoded_arguments_conform_to_the_schemas() {
    let food = encode_food_pref_args(&StoreFoodPrefArgs {
        dishes: vec![
            StoreFoodPrefArgsAux { dish: "eggs".to_string(), kind: FoodKind::Love },
            StoreFoodPrefArgsAux { dish: String::new(), kind: FoodKind::NotSure },
        ],
    });
    let diets = encode_diet_type_args(&StoreDietTypeArgs {
        diets: vec![StoreDietTypeArgsAux { diet_type: DietType::GlutenFree, follows: false }],
    });
    let food_schema = StoreFoodPref.definition(String::new()).parameters;
    let diet_schema = StoreDietType.definition(String::new()).parameters;
    assert!(food_schema.accepts(&food));
    assert!(diet_schema.accepts(&diets));
    assert!(!food_schema.accepts(&diets));
    assert!(!diet_schema.accepts(&food));
    assert!(food_schema.accepts(&encode_food_pref_args(&StoreFoodPrefArgs { dishes: vec![] })));
}

#[test]
fn payloads_compare_by_value() {
    assert_eq!(object(vec![("a", number("1"))]), object(vec![("a", number("1"))]));
    assert_ne!(object(vec![("a", number("1"))]), object(vec![("a", text("1"))]));
    assert_eq!(
        StoreFoodPref.definition("x".to_string()),
        StoreFoodPref.definition("y".to_string())
    );
    assert_ne!(
        StoreFoodPref.definition(String::new()).parameters,
        StoreDietType.definition(String::new()).parameters
    );
}
