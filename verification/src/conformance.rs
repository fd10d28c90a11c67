//! The schemas that the tools hand out describe exactly the payloads that
//! their decoders accept.

use vstd::prelude::*;
use crate::decode::{
    decode_items, lemma_decode_items_ok, list_field, spec_decode_diet_item,
    spec_decode_diet_type_args, spec_decode_food_item, spec_decode_food_pref_args, Field,
};
use crate::encode::{spec_encode_diet_type_args, spec_encode_food_pref_args};
use crate::facts::{DietType, FoodKind, FoodPrefFact, StoreDietTypeArgsAux};
use crate::round_trip::{lemma_diet_type_args_round_trip, lemma_food_pref_args_round_trip};
use crate::payload::{field_of, PayloadView};
use crate::schema::{conforms, SchemaView};
use crate::tool::{
    diet_item_schema, diet_type_names, diet_type_parameters, food_item_schema, food_kind_names,
    food_pref_parameters, object_of_one, object_of_two,
};

verus! {

/// A payload conforms to the schema of an object with one required property
/// exactly when it is an object whose field of that name conforms to the
/// property's schema.
pub proof fn lemma_conforms_object_of_one(payload: PayloadView, only: Field, schema: SchemaView)
    ensures
        conforms(payload, object_of_one(only, schema)) <==> (payload matches PayloadView::Object(
            fields,
        ) && field_of(fields, only.spec_name()) matches Some(value) && conforms(value, schema)),
{
    let object = object_of_one(only, schema);
    let properties = object->Object_properties;
    let required = object->Object_required;
    if conforms(payload, object) {
        assert(field_of(payload->Object_0, required[0]) is Some);
        assert(properties[0].0 == only.spec_name());
    }
}

/// A payload conforms to the schema of an object with two required
/// properties exactly when it is an object whose fields of those names
/// conform to the properties' schemas.
pub proof fn lemma_conforms_object_of_two(
    payload: PayloadView,
    first: Field,
    first_schema: SchemaView,
    second: Field,
    second_schema: SchemaView,
)
    ensures
        conforms(payload, object_of_two(first, first_schema, second, second_schema)) <==> (
        payload matches PayloadView::Object(fields) && (field_of(
            fields,
            first.spec_name(),
        ) matches Some(value) && conforms(value, first_schema)) && (field_of(
            fields,
            second.spec_name(),
        ) matches Some(value) && conforms(value, second_schema))),
{
}

/// A text is the name of a food kind exactly when the schema lists it.
pub proof fn lemma_food_kind_names(name: Seq<char>)
    ensures
        food_kind_names().contains(name) <==> FoodKind::spec_from_name(name) is Some,
{
    if FoodKind::spec_from_name(name) is Some {
        FoodKind::lemma_from_name_is_name(name);
    }
}

/// A text is the name of a diet exactly when the schema lists it.
pub proof fn lemma_diet_type_names(name: Seq<char>)
    ensures
        diet_type_names().contains(name) <==> DietType::spec_from_name(name) is Some,
{
    if DietType::spec_from_name(name) is Some {
        DietType::lemma_from_name_is_name(name);
    }
}

/// A list item conforms to the schema of a food preference exactly when it
/// decodes as one.
pub proof fn lemma_food_item_schema(item: PayloadView)
    ensures
        conforms(item, food_item_schema()) <==> spec_decode_food_item(item) is Ok,
{
    let dish = food_item_schema()->Object_properties[0].1;
    let kind = food_item_schema()->Object_properties[1].1;
    lemma_conforms_object_of_two(item, Field::Dish, dish, Field::Kind, kind);
    if item is Object {
        let kind_value = field_of(item->Object_0, Field::Kind.spec_name());
        if kind_value is Some && kind_value->Some_0 is Text {
            lemma_food_kind_names(kind_value->Some_0->Text_0);
        }
    }
}

/// A list item conforms to the schema of a diet declaration exactly when it
/// decodes as one.
pub proof fn lemma_diet_item_schema(item: PayloadView)
    ensures
        conforms(item, diet_item_schema()) <==> spec_decode_diet_item(item) is Ok,
{
    let diet = diet_item_schema()->Object_properties[0].1;
    let follows = diet_item_schema()->Object_properties[1].1;
    lemma_conforms_object_of_two(item, Field::DietType, diet, Field::Follows, follows);
    if item is Object {
        let diet_value = field_of(item->Object_0, Field::DietType.spec_name());
        if diet_value is Some && diet_value->Some_0 is Text {
            lemma_diet_type_names(diet_value->Some_0->Text_0);
        }
    }
}

/// The food-preference tool decodes exactly the payloads that conform to the
/// schema in its definition.
pub proof fn lemma_food_pref_schema_is_exact(payload: PayloadView)
    ensures
        conforms(payload, food_pref_parameters()) <==> spec_decode_food_pref_args(payload) is Ok,
{
    let list = food_pref_parameters()->Object_properties[0].1;
    lemma_conforms_object_of_one(payload, Field::Dishes, list);
    let decode = |item: PayloadView| spec_decode_food_item(item);
    if list_field(payload, Field::Dishes) is Ok {
        let items = list_field(payload, Field::Dishes)->Ok_0;
        lemma_decode_items_ok(items, decode);
        assert forall|i: int| 0 <= i < items.len() implies (conforms(
            #[trigger] items[i],
            food_item_schema(),
        ) <==> decode(items[i]) is Ok) by {
            lemma_food_item_schema(items[i]);
        }
        if decode_items(items, decode) is Ok {
            assert forall|i: int| 0 <= i < items.len() implies conforms(
                #[trigger] items[i],
                food_item_schema(),
            ) by {
                assert(decode(items[i]) is Ok);
            }
        }
    }
}

/// The diet tool decodes exactly the payloads that conform to the schema in
/// its definition.
pub proof fn lemma_diet_type_schema_is_exact(payload: PayloadView)
    ensures
        conforms(payload, diet_type_parameters()) <==> spec_decode_diet_type_args(payload) is Ok,
{
    let list = diet_type_parameters()->Object_properties[0].1;
    lemma_conforms_object_of_one(payload, Field::Diets, list);
    let decode = |item: PayloadView| spec_decode_diet_item(item);
    if list_field(payload, Field::Diets) is Ok {
        let items = list_field(payload, Field::Diets)->Ok_0;
        lemma_decode_items_ok(items, decode);
        assert forall|i: int| 0 <= i < items.len() implies (conforms(
            #[trigger] items[i],
            diet_item_schema(),
        ) <==> decode(items[i]) is Ok) by {
            lemma_diet_item_schema(items[i]);
        }
        if decode_items(items, decode) is Ok {
            assert forall|i: int| 0 <= i < items.len() implies conforms(
                #[trigger] items[i],
                diet_item_schema(),
            ) by {
                assert(decode(items[i]) is Ok);
            }
        }
    }
}

/// Whatever arguments are encoded for a tool, the payload conforms to the
/// tool's schema.
pub proof fn lemma_encoded_arguments_conform(
    facts: Seq<FoodPrefFact>,
    diets: Seq<StoreDietTypeArgsAux>,
)
    ensures
        conforms(spec_encode_food_pref_args(facts), food_pref_parameters()),
        conforms(spec_encode_diet_type_args(diets), diet_type_parameters()),
{
    lemma_food_pref_args_round_trip(facts);
    lemma_food_pref_schema_is_exact(spec_encode_food_pref_args(facts));
    lemma_diet_type_args_round_trip(diets);
    lemma_diet_type_schema_is_exact(spec_encode_diet_type_args(diets));
}

} // verus!
