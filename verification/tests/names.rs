use project_untitled::decode::Field;
use project_untitled::facts::{DietType, FoodKind};
use project_untitled::payload::PayloadKind;
use project_untitled::text::push_decimal;

#[test]
fn food_kind_names() {
    let expected = [
        (FoodKind::Allergy, "allergy"),
        (FoodKind::Intolerance, "intolerance"),
        (FoodKind::Dislike, "dislike"),
        (FoodKind::NotSure, "not_sure"),
        (FoodKind::Like, "like"),
        (FoodKind::Love, "love"),
    ];
    for (kind, name) in expected {
        assert_eq!(kind.name(), name);
        assert_eq!(FoodKind::from_name(&name.to_string()), Some(kind));
    }
}

#[test]
fn diet_type_names() {
    let expected = [
        (DietType::Vegetarian, "vegetarian"),
        (DietType::Vegan, "vegan"),
        (DietType::GlutenFree, "gluten-free"),
        (DietType::Pescatarian, "pescatarian"),
        (DietType::Keto, "keto"),
        (DietType::Paleo, "paleo"),
    ];
    for (diet, name) in expected {
        assert_eq!(diet.name(), name);
        assert_eq!(DietType::from_name(&name.to_string()), Some(diet));
    }
}

#[test]
fn names_outside_the_sets_are_refused() {
    for name in ["", "Love", "LOVE", "love ", "hate", "not sure", "vegetarian"] {
        assert_eq!(FoodKind::from_name(&name.to_string()), None);
    }
    for name in ["", "Vegan", "gluten_free", "glutenfree", "carnivore", "love"] {
        assert_eq!(DietType::from_name(&name.to_string()), None);
    }
}

#[test]
fn field_names() {
    assert_eq!(Field::Dishes.name(), "dishes");
    assert_eq!(Field::Dish.name(), "dish");
    assert_eq!(Field::Kind.name(), "kind");
    assert_eq!(Field::Diets.name(), "diets");
    assert_eq!(Field::DietType.name(), "diet_type");
    assert_eq!(Field::Follows.name(), "follows");
}

#[test]
fn payload_kind_words() {
    assert_eq!(PayloadKind::Null.words(), "null");
    assert_eq!(PayloadKind::Bool.words(), "a boolean");
    assert_eq!(PayloadKind::Number.words(), "a number");
    assert_eq!(PayloadKind::Text.words(), "a string");
    assert_eq!(PayloadKind::List.words(), "an array");
    assert_eq!(PayloadKind::Object.words(), "an object");
}

#[test]
fn decimal_text() {
    for (n, text) in [
        (0usize, "0"),
        (7, "7"),
        (9, "9"),
        (10, "10"),
        (42, "42"),
        (100, "100"),
        (1234567890, "1234567890"),
    ] {
        let mut out = String::new();
        push_decimal(&mut out, n);
        assert_eq!(out, text);
    }
    let mut out = "item ".to_string();
    push_decimal(&mut out, usize::MAX);
    assert_eq!(out, format!("item {}", usize::MAX));
}
