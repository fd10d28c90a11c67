use project_untitled::decode::{decode_diet_type_args, decode_food_pref_args};
use project_untitled::encode::{
    encode_diet_item, encode_diet_type_args, encode_food_item, encode_food_pref_args,
};
use project_untitled::facts::{
    DietType, FoodKind, StoreDietTypeArgs, StoreDietTypeArgsAux, StoreFoodPrefArgs,
    StoreFoodPrefArgsAux,
};
use project_untitled::payload::Payload;

const KINDS: [FoodKind; 6] = [
    FoodKind::Allergy,
    FoodKind::Intolerance,
    FoodKind::Dislike,
    FoodKind::NotSure,
    FoodKind::Like,
    FoodKind::Love,
];

const DIETS: [DietType; 6] = [
    DietType::Vegetarian,
    DietType::Vegan,
    DietType::GlutenFree,
    DietType::Pescatarian,
    DietType::Keto,
    DietType::Paleo,
];

fn shown(payload: &Payload) -> String {
    format!("{payload:?}")
}

#[test]
fn encoded_food_item_has_the_two_fields() {
    let item = encode_food_item(&StoreFoodPrefArgsAux {
        dish: "scrambled eggs".to_string(),
        kind: FoodKind::Love,
    });
    assert_eq!(
        shown(&item),
        r#"Object([("dish", Text("scrambled eggs")), ("kind", Text("love"))])"#
    );
}

#[test]
fn encoded_diet_item_has_the_two_fields() {
    let item = encode_diet_item(&StoreDietTypeArgsAux {
        diet_type: DietType::GlutenFree,
        follows: false,
    });
    assert_eq!(
        shown(&item),
        r#"Object([("diet_type", Text("gluten-free")), ("follows", Bool(false))])"#
    );
}

#[test]
fn encoded_arguments_have_the_list_field() {
    let food = encode_food_pref_args(&StoreFoodPrefArgs {
        dishes: vec![StoreFoodPrefArgsAux { dish: "miso".to_string(), kind: FoodKind::Like }],
    });
    assert_eq!(
        shown(&food),
        r#"Object([("dishes", List([Object([("dish", Text("miso")), ("kind", Text("like"))])]))])"#
    );
    let none = encode_diet_type_args(&StoreDietTypeArgs { diets: vec![] });
    assert_eq!(shown(&none), r#"Object([("diets", List([]))])"#);
}

#[test]
fn food_arguments_round_trip() {
    let dishes: Vec<StoreFoodPrefArgsAux> = KINDS
        .iter()
        .enumerate()
        .map(|(i, kind)| StoreFoodPrefArgsAux { dish: format!("dish \"{i}\" ü"), kind: *kind })
        .collect();
    let decoded = decode_food_pref_args(&encode_food_pref_args(&StoreFoodPrefArgs {
        dishes: dishes.clone(),
    }))
    .unwrap();
    assert_eq!(decoded.dishes.len(), 6);
    for (got, expected) in decoded.dishes.iter().zip(dishes.iter()) {
        assert_eq!(got.dish, expected.dish);
        assert_eq!(got.kind, expected.kind);
    }
}

#[test]
fn diet_arguments_round_trip() {
    let diets: Vec<StoreDietTypeArgsAux> = DIETS
        .iter()
        .enumerate()
        .map(|(i, diet)| StoreDietTypeArgsAux { diet_type: *diet, follows: i % 2 == 0 })
        .collect();
    let decoded =
        decode_diet_type_args(&encode_diet_type_args(&StoreDietTypeArgs { diets: diets.clone() }))
            .unwrap();
    assert_eq!(decoded.diets, diets);
}

#[test]
fn empty_arguments_round_trip() {
    let food = decode_food_pref_args(&encode_food_pref_args(&StoreFoodPrefArgs { dishes: vec![] }));
    assert!(food.unwrap().dishes.is_empty());
    let diets = decode_diet_type_args(&encode_diet_type_args(&StoreDietTypeArgs { diets: vec![] }));
    assert!(diets.unwrap().diets.is_empty());
}

#[test]
fn reencoding_keeps_every_field_of_the_shape() {
    let payload = Payload::Object(vec![
        ("trace".to_string(), Payload::Text("abc".to_string())),
        (
            "dishes".to_string(),
            Payload::List(vec![Payload::Object(vec![
                ("kind".to_string(), Payload::Text("allergy".to_string())),
                ("extra".to_string(), Payload::Null),
                ("dish".to_string(), Payload::Text("tomatoes".to_string())),
            ])]),
        ),
    ]);
    let again = encode_food_pref_args(&decode_food_pref_args(&payload).unwrap());
    assert_eq!(
        shown(&again),
        r#"Object([("dishes", List([Object([("dish", Text("tomatoes")), ("kind", Text("allergy"))])]))])"#
    );
    // Encoding what was decoded and decoding again gives the same arguments.
    let twice = decode_food_pref_args(&again).unwrap();
    assert_eq!(twice.dishes.len(), 1);
    assert_eq!(twice.dishes[0].dish, "tomatoes");
    assert_eq!(twice.dishes[0].kind, FoodKind::Allergy);
}
