//! Encoding typed arguments as payloads of the shape that the decoders read.

use vstd::prelude::*;
use crate::decode::Field;
use crate::facts::{FoodPrefFact, StoreDietTypeArgs, StoreDietTypeArgsAux, StoreFoodPrefArgs, StoreFoodPrefArgsAux};
use crate::payload::{
    fields_view, items_view, lemma_list_view, lemma_object_view, Payload, PayloadView,
};

verus! {

/// The list item that states a food preference.
pub open spec fn spec_encode_food_item(fact: FoodPrefFact) -> PayloadView {
    PayloadView::Object(
        seq![
            (Field::Dish.spec_name(), PayloadView::Text(fact.dish)),
            (Field::Kind.spec_name(), PayloadView::Text(fact.kind.spec_name())),
        ],
    )
}

/// The list item that states a diet declaration.
pub open spec fn spec_encode_diet_item(diet: StoreDietTypeArgsAux) -> PayloadView {
    PayloadView::Object(
        seq![
            (Field::DietType.spec_name(), PayloadView::Text(diet.diet_type.spec_name())),
            (Field::Follows.spec_name(), PayloadView::Bool(diet.follows)),
        ],
    )
}

/// The payload that states `records` as one list under the field `list`.
pub open spec fn encode_list_args<T>(
    records: Seq<T>,
    list: Field,
    encode: spec_fn(T) -> PayloadView,
) -> PayloadView {
    PayloadView::Object(seq![(list.spec_name(), PayloadView::List(records.map_values(encode)))])
}

/// The payload that states the arguments of the food-preference tool.
pub open spec fn spec_encode_food_pref_args(facts: Seq<FoodPrefFact>) -> PayloadView {
    encode_list_args(facts, Field::Dishes, |fact: FoodPrefFact| spec_encode_food_item(fact))
}

/// The payload that states the arguments of the diet tool.
pub open spec fn spec_encode_diet_type_args(diets: Seq<StoreDietTypeArgsAux>) -> PayloadView {
    encode_list_args(
        diets,
        Field::Diets,
        |diet: StoreDietTypeArgsAux| spec_encode_diet_item(diet),
    )
}

/// An object with two fields.
fn object_of_two(first: Field, first_value: Payload, second: Field, second_value: Payload) -> (object:
    Payload)
    ensures
        object@ == PayloadView::Object(
            seq![(first.spec_name(), first_value@), (second.spec_name(), second_value@)],
        ),
{
    let mut fields: Vec<(String, Payload)> = Vec::new();
    fields.push((String::from_str(first.name()), first_value));
    fields.push((String::from_str(second.name()), second_value));
    proof {
        lemma_object_view(fields);
        assert(fields_view(fields@) =~= seq![
            (first.spec_name(), first_value@),
            (second.spec_name(), second_value@),
        ]);
    }
    Payload::Object(fields)
}

/// The payload with the one field `list`, which holds `items`.
fn object_of_list(list: Field, items: Vec<Payload>) -> (object: Payload)
    ensures
        object@ == PayloadView::Object(
            seq![(list.spec_name(), PayloadView::List(items_view(items@)))],
        ),
{
    proof {
        lemma_list_view(items);
    }
    let mut fields: Vec<(String, Payload)> = Vec::new();
    fields.push((String::from_str(list.name()), Payload::List(items)));
    proof {
        lemma_object_view(fields);
        assert(fields_view(fields@) =~= seq![
            (list.spec_name(), PayloadView::List(items_view(items@))),
        ]);
    }
    Payload::Object(fields)
}

/// Writes one food preference as a list item.
pub fn encode_food_item(pref: &StoreFoodPrefArgsAux) -> (item: Payload)
    ensures
        item@ == spec_encode_food_item(pref@),
{
    object_of_two(
        Field::Dish,
        Payload::Text(pref.dish.clone()),
        Field::Kind,
        Payload::Text(String::from_str(pref.kind.name())),
    )
}

/// Writes one diet declaration as a list item.
pub fn encode_diet_item(diet: &StoreDietTypeArgsAux) -> (item: Payload)
    ensures
        item@ == spec_encode_diet_item(*diet),
{
    object_of_two(
        Field::DietType,
        Payload::Text(String::from_str(diet.diet_type.name())),
        Field::Follows,
        Payload::Bool(diet.follows),
    )
}

/// Writes the arguments of the food-preference tool as a payload of the
/// shape that `decode_food_pref_args` reads.
pub fn encode_food_pref_args(args: &StoreFoodPrefArgs) -> (payload: Payload)
    ensures
        payload@ == spec_encode_food_pref_args(args@),
{
    let ghost encode = |fact: FoodPrefFact| spec_encode_food_item(fact);
    let mut items: Vec<Payload> = Vec::new();
    let mut i: usize = 0;
    while i < args.dishes.len()
        invariant
            i <= args.dishes.len(),
            encode == |fact: FoodPrefFact| spec_encode_food_item(fact),
            items@.len() == i,
            forall|k: int| 0 <= k < i ==> (#[trigger] items@[k])@ == encode(args.dishes@[k]@),
        decreases args.dishes.len() - i,
    {
        let item = encode_food_item(&args.dishes[i]);
        items.push(item);
        i += 1;
    }
    assert(items_view(items@) =~= args@.map_values(encode));
    object_of_list(Field::Dishes, items)
}

/// Writes the arguments of the diet tool as a payload of the shape that
/// `decode_diet_type_args` reads.
pub fn encode_diet_type_args(args: &StoreDietTypeArgs) -> (payload: Payload)
    ensures
        payload@ == spec_encode_diet_type_args(args@),
{
    let ghost encode = |diet: StoreDietTypeArgsAux| spec_encode_diet_item(diet);
    let mut items: Vec<Payload> = Vec::new();
    let mut i: usize = 0;
    while i < args.diets.len()
        invariant
            i <= args.diets.len(),
            encode == |diet: StoreDietTypeArgsAux| spec_encode_diet_item(diet),
            items@.len() == i,
            forall|k: int| 0 <= k < i ==> (#[trigger] items@[k])@ == encode(args.diets@[k]),
        decreases args.diets.len() - i,
    {
        let item = encode_diet_item(&args.diets[i]);
        items.push(item);
        i += 1;
    }
    assert(items_view(items@) =~= args@.map_values(encode));
    object_of_list(Field::Diets, items)
}

} // verus!
