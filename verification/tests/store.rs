use project_untitled::facts::{DietType, FoodKind, StoreDietTypeArgsAux, StoreFoodPrefArgsAux};
use project_untitled::store::MockProjectUntitled;

fn pref(dish: &str, kind: FoodKind) -> StoreFoodPrefArgsAux {
    StoreFoodPrefArgsAux { dish: dish.to_string(), kind }
}

fn diet(diet_type: DietType, follows: bool) -> StoreDietTypeArgsAux {
    StoreDietTypeArgsAux { diet_type, follows }
}

fn dishes(store: &MockProjectUntitled) -> Vec<(String, FoodKind)> {
    store.get_food_prefs().iter().map(|p| (p.dish.clone(), p.kind)).collect()
}

#[test]
fn new_store_is_empty() {
    let store = MockProjectUntitled::new();
    assert!(store.get_food_prefs().is_empty());
    assert!(store.get_diets().is_empty());
    let snapshot = store.snapshot();
    assert!(snapshot.food_prefs.is_empty());
    assert!(snapshot.diets.is_empty());
}

#[test]
fn add_keeps_order_and_duplicates() {
    let mut store = MockProjectUntitled::new();
    store.add_food_pref(pref("eggs", FoodKind::Love));
    store.add_food_pref(pref("eggs", FoodKind::Love));
    store.add_diet(diet(DietType::Vegan, false));
    assert_eq!(
        dishes(&store),
        vec![("eggs".to_string(), FoodKind::Love), ("eggs".to_string(), FoodKind::Love)]
    );
    assert_eq!(store.get_diets(), &vec![diet(DietType::Vegan, false)]);
}

#[test]
fn conflicting_declarations_are_both_kept() {
    let mut store = MockProjectUntitled::new();
    store.add_diet(diet(DietType::Vegetarian, true));
    store.add_diet(diet(DietType::Vegetarian, false));
    assert_eq!(
        store.get_diets(),
        &vec![diet(DietType::Vegetarian, true), diet(DietType::Vegetarian, false)]
    );
}

#[test]
fn append_food_prefs_grows_by_the_list_in_order() {
    let mut store = MockProjectUntitled::new();
    store.add_food_pref(pref("bread", FoodKind::Like));
    store.add_diet(diet(DietType::Keto, true));
    store.append_food_prefs(vec![
        pref("tomatoes", FoodKind::Allergy),
        pref("milk", FoodKind::Intolerance),
        pref("celery", FoodKind::Dislike),
    ]);
    assert_eq!(
        dishes(&store),
        vec![
            ("bread".to_string(), FoodKind::Like),
            ("tomatoes".to_string(), FoodKind::Allergy),
            ("milk".to_string(), FoodKind::Intolerance),
            ("celery".to_string(), FoodKind::Dislike),
        ]
    );
    assert_eq!(store.get_diets(), &vec![diet(DietType::Keto, true)]);
}

#[test]
fn append_diets_grows_by_the_list_in_order() {
    let mut store = MockProjectUntitled::new();
    store.add_food_pref(pref("bread", FoodKind::Like));
    store.append_diets(vec![diet(DietType::Paleo, false), diet(DietType::GlutenFree, true)]);
    assert_eq!(
        store.get_diets(),
        &vec![diet(DietType::Paleo, false), diet(DietType::GlutenFree, true)]
    );
    assert_eq!(dishes(&store), vec![("bread".to_string(), FoodKind::Like)]);
}

#[test]
fn appending_an_empty_list_changes_nothing() {
    let mut store = MockProjectUntitled::new();
    store.add_food_pref(pref("bread", FoodKind::NotSure));
    store.append_food_prefs(Vec::new());
    store.append_diets(Vec::new());
    assert_eq!(dishes(&store), vec![("bread".to_string(), FoodKind::NotSure)]);
    assert!(store.get_diets().is_empty());
}

#[test]
fn appends_to_different_categories_commute() {
    let mut first = MockProjectUntitled::new();
    first.append_food_prefs(vec![pref("eggs", FoodKind::Love)]);
    first.append_diets(vec![diet(DietType::Vegetarian, true)]);
    let mut second = MockProjectUntitled::new();
    second.append_diets(vec![diet(DietType::Vegetarian, true)]);
    second.append_food_prefs(vec![pref("eggs", FoodKind::Love)]);
    assert_eq!(dishes(&first), dishes(&second));
    assert_eq!(first.get_diets(), second.get_diets());
}

#[test]
fn snapshot_total_length_is_the_sum_of_the_appends() {
    let mut store = MockProjectUntitled::new();
    let lengths = [3usize, 0, 2, 5, 1];
    let mut expected = 0;
    for (round, length) in lengths.iter().enumerate() {
        if round % 2 == 0 {
            store.append_food_prefs((0..*length).map(|i| pref(&format!("dish {i}"), FoodKind::Like)).collect());
        } else {
            store.append_diets((0..*length).map(|_| diet(DietType::Vegan, true)).collect());
        }
        expected += length;
        let snapshot = store.snapshot();
        assert_eq!(snapshot.food_prefs.len() + snapshot.diets.len(), expected);
    }
    let snapshot = store.snapshot();
    assert_eq!(snapshot.food_prefs.len(), 6);
    assert_eq!(snapshot.diets.len(), 5);
}

#[test]
fn snapshot_does_not_see_later_appends() {
    let mut store = MockProjectUntitled::new();
    store.append_food_prefs(vec![pref("eggs", FoodKind::Love)]);
    let snapshot = store.snapshot();
    store.append_food_prefs(vec![pref("tomatoes", FoodKind::Allergy)]);
    store.append_diets(vec![diet(DietType::Vegan, false)]);
    assert_eq!(snapshot.food_prefs.len(), 1);
    assert_eq!(snapshot.food_prefs[0].dish, "eggs");
    assert_eq!(snapshot.food_prefs[0].kind, FoodKind::Love);
    assert!(snapshot.diets.is_empty());
    assert_eq!(store.get_food_prefs().len(), 2);
}

#[test]
fn food_preference_clone_keeps_dish_and_kind() {
    let first = pref("miso", FoodKind::Dislike);
    let copy = first.clone();
    assert_eq!(copy.dish, "miso");
    assert_eq!(copy.kind, FoodKind::Dislike);
}

#[test]
fn the_order_of_two_appends_does_not_change_the_records() {
    let one = || vec![pref("eggs", FoodKind::Love), pref("miso", FoodKind::Like)];
    let other = || vec![pref("tomatoes", FoodKind::Allergy)];
    let mut first = MockProjectUntitled::new();
    first.append_food_prefs(one());
    first.append_food_prefs(other());
    let mut second = MockProjectUntitled::new();
    second.append_food_prefs(other());
    second.append_food_prefs(one());
    let mut a = dishes(&first);
    let mut b = dishes(&second);
    assert_ne!(a, b);
    a.sort_by(|x, y| x.0.cmp(&y.0));
    b.sort_by(|x, y| x.0.cmp(&y.0));
    assert_eq!(a, b);
}
