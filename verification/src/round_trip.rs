//! What holds between decoding and encoding.

use vstd::prelude::*;
use crate::decode::{
    decode_items, decode_list_args, lemma_decode_items_first_error, lemma_decode_items_ok,
    list_field, spec_decode_diet_item, spec_decode_diet_type_args, spec_decode_food_item,
    spec_decode_food_pref_args, text_field, DecodeError, Fault, Field, ItemError, Place,
};
use crate::encode::{
    encode_list_args, spec_encode_diet_item, spec_encode_diet_type_args, spec_encode_food_item,
    spec_encode_food_pref_args,
};
use crate::facts::{DietType, FoodKind, FoodPrefFact, StoreDietTypeArgsAux};
use crate::payload::{field_of, PayloadView};

verus! {

/// The six field names are six different texts.
pub proof fn lemma_field_names_differ(a: Field, b: Field)
    ensures
        a.spec_name() == b.spec_name() <==> a == b,
{
    reveal_strlit("dishes");
    reveal_strlit("dish");
    reveal_strlit("kind");
    reveal_strlit("diets");
    reveal_strlit("diet_type");
    reveal_strlit("follows");
    assert("dishes"@.len() == 6 && "dish"@.len() == 4 && "kind"@.len() == 4);
    assert("diets"@.len() == 5 && "diet_type"@.len() == 9 && "follows"@.len() == 7);
    assert("dish"@[0] != "kind"@[0]);
}

/// An encoded food preference decodes to itself.
pub proof fn lemma_food_item_round_trip(fact: FoodPrefFact)
    ensures
        spec_decode_food_item(spec_encode_food_item(fact)) == Ok::<FoodPrefFact, ItemError>(fact),
{
    lemma_field_names_differ(Field::Dish, Field::Kind);
    fact.kind.lemma_name_round_trip();
    let fields = spec_encode_food_item(fact)->Object_0;
    assert(field_of(fields.drop_first(), Field::Kind.spec_name()) == Some(fields[1].1));
}

/// An encoded diet declaration decodes to itself.
pub proof fn lemma_diet_item_round_trip(diet: StoreDietTypeArgsAux)
    ensures
        spec_decode_diet_item(spec_encode_diet_item(diet)) == Ok::<
            StoreDietTypeArgsAux,
            ItemError,
        >(diet),
{
    lemma_field_names_differ(Field::DietType, Field::Follows);
    diet.diet_type.lemma_name_round_trip();
    let fields = spec_encode_diet_item(diet)->Object_0;
    assert(field_of(fields.drop_first(), Field::Follows.spec_name()) == Some(fields[1].1));
}

/// Where every record is decoded from its own encoding, so is every list of
/// records.
pub proof fn lemma_list_round_trip<T>(
    records: Seq<T>,
    list: Field,
    encode: spec_fn(T) -> PayloadView,
    decode: spec_fn(PayloadView) -> Result<T, ItemError>,
)
    requires
        forall|record: T| #[trigger] decode(encode(record)) == Ok::<T, ItemError>(record),
    ensures
        decode_list_args(encode_list_args(records, list, encode), list, decode) == Ok::<
            Seq<T>,
            DecodeError,
        >(records),
{
    let items = records.map_values(encode);
    lemma_decode_items_ok(items, decode);
    assert forall|i: int| 0 <= i < items.len() implies (#[trigger] decode(items[i])) is Ok by {
        assert(decode(encode(records[i])) is Ok);
    }
    let decoded = decode_items(items, decode)->Ok_0;
    assert forall|i: int| 0 <= i < records.len() implies decoded[i] == records[i] by {
        assert(decode(items[i]) == Ok::<T, ItemError>(decoded[i]));
    }
    assert(decoded =~= records);
}

/// Encoding the arguments of the food-preference tool and decoding the
/// payload gives the arguments back: every record, in its place.
pub proof fn lemma_food_pref_args_round_trip(facts: Seq<FoodPrefFact>)
    ensures
        spec_decode_food_pref_args(spec_encode_food_pref_args(facts)) == Ok::<
            Seq<FoodPrefFact>,
            DecodeError,
        >(facts),
{
    let encode = |fact: FoodPrefFact| spec_encode_food_item(fact);
    let decode = |item: PayloadView| spec_decode_food_item(item);
    assert forall|fact: FoodPrefFact| #[trigger]
        decode(encode(fact)) == Ok::<FoodPrefFact, ItemError>(fact) by {
        lemma_food_item_round_trip(fact);
    }
    lemma_list_round_trip(facts, Field::Dishes, encode, decode);
}

/// Encoding the arguments of the diet tool and decoding the payload gives
/// the arguments back: every record, in its place.
pub proof fn lemma_diet_type_args_round_trip(diets: Seq<StoreDietTypeArgsAux>)
    ensures
        spec_decode_diet_type_args(spec_encode_diet_type_args(diets)) == Ok::<
            Seq<StoreDietTypeArgsAux>,
            DecodeError,
        >(diets),
{
    let encode = |diet: StoreDietTypeArgsAux| spec_encode_diet_item(diet);
    let decode = |item: PayloadView| spec_decode_diet_item(item);
    assert forall|diet: StoreDietTypeArgsAux| #[trigger]
        decode(encode(diet)) == Ok::<StoreDietTypeArgsAux, ItemError>(diet) by {
        lemma_diet_item_round_trip(diet);
    }
    lemma_list_round_trip(diets, Field::Diets, encode, decode);
}

/// What is left of an object when only its fields `first` and `second` are
/// kept, in that order. Meant for an object that has both.
pub open spec fn keep_two(item: PayloadView, first: Field, second: Field) -> PayloadView {
    PayloadView::Object(
        seq![
            (first.spec_name(), field_of(item->Object_0, first.spec_name())->Some_0),
            (second.spec_name(), field_of(item->Object_0, second.spec_name())->Some_0),
        ],
    )
}

/// What is left of a payload when only what an argument shape names is kept:
/// the list under the field `list`, and of each item the fields `first` and
/// `second`. Meant for a payload that has them.
pub open spec fn keep_shape(payload: PayloadView, list: Field, first: Field, second: Field) -> PayloadView {
    PayloadView::Object(
        seq![
            (
                list.spec_name(),
                PayloadView::List(
                    list_field(payload, list)->Ok_0.map_values(
                        |item: PayloadView| keep_two(item, first, second),
                    ),
                ),
            ),
        ],
    )
}

/// No field is lost: where a payload decodes for the food-preference tool,
/// encoding the decoded arguments gives the payload again, cut down to the
/// fields that the shape names. Only fields that the shape does not name are
/// gone.
pub proof fn lemma_food_pref_args_keep_every_field(payload: PayloadView)
    requires
        spec_decode_food_pref_args(payload) is Ok,
    ensures
        spec_encode_food_pref_args(spec_decode_food_pref_args(payload)->Ok_0) == keep_shape(
            payload,
            Field::Dishes,
            Field::Dish,
            Field::Kind,
        ),
{
    let decode = |item: PayloadView| spec_decode_food_item(item);
    let items = list_field(payload, Field::Dishes)->Ok_0;
    let facts = spec_decode_food_pref_args(payload)->Ok_0;
    lemma_decode_items_ok(items, decode);
    let encoded = facts.map_values(|fact: FoodPrefFact| spec_encode_food_item(fact));
    let kept = items.map_values(|item: PayloadView| keep_two(item, Field::Dish, Field::Kind));
    assert forall|i: int| 0 <= i < items.len() implies encoded[i] == kept[i] by {
        let fields = items[i]->Object_0;
        FoodKind::lemma_from_name_is_name(text_field(fields, Field::Kind.spec_name())->Ok_0);
    }
    assert(encoded =~= kept);
}

/// No field is lost: where a payload decodes for the diet tool, encoding the
/// decoded arguments gives the payload again, cut down to the fields that
/// the shape names. Only fields that the shape does not name are gone.
pub proof fn lemma_diet_type_args_keep_every_field(payload: PayloadView)
    requires
        spec_decode_diet_type_args(payload) is Ok,
    ensures
        spec_encode_diet_type_args(spec_decode_diet_type_args(payload)->Ok_0) == keep_shape(
            payload,
            Field::Diets,
            Field::DietType,
            Field::Follows,
        ),
{
    let decode = |item: PayloadView| spec_decode_diet_item(item);
    let items = list_field(payload, Field::Diets)->Ok_0;
    let diets = spec_decode_diet_type_args(payload)->Ok_0;
    lemma_decode_items_ok(items, decode);
    let encoded = diets.map_values(|diet: StoreDietTypeArgsAux| spec_encode_diet_item(diet));
    let kept = items.map_values(
        |item: PayloadView| keep_two(item, Field::DietType, Field::Follows),
    );
    assert forall|i: int| 0 <= i < items.len() implies encoded[i] == kept[i] by {
        let fields = items[i]->Object_0;
        DietType::lemma_from_name_is_name(text_field(fields, Field::DietType.spec_name())->Ok_0);
    }
    assert(encoded =~= kept);
}

/// A payload without the list field does not decode: the error names the
/// field as missing.
pub proof fn lemma_missing_list_field<T>(
    payload: PayloadView,
    list: Field,
    decode: spec_fn(PayloadView) -> Result<T, ItemError>,
)
    requires
        payload is Object,
        field_of(payload->Object_0, list.spec_name()) is None,
    ensures
        decode_list_args(payload, list, decode) == Err::<Seq<T>, DecodeError>(
            DecodeError { place: Place::Field(list), fault: Fault::Missing },
        ),
{
}

/// A payload in which some list item lacks a required field does not
/// decode, whatever else it holds. Unless an earlier fault comes first, the
/// error names that field of that item as missing.
pub proof fn lemma_missing_food_item_field(payload: PayloadView, index: int, field: Field)
    requires
        field == Field::Dish || field == Field::Kind,
        list_field(payload, Field::Dishes) matches Ok(items) && 0 <= index < items.len()
            && items[index] is Object && field_of(items[index]->Object_0, field.spec_name())
            is None,
    ensures
        spec_decode_food_pref_args(payload) is Err,
        ({
            let items = list_field(payload, Field::Dishes)->Ok_0;
            &&& (forall|i: int| 0 <= i < index ==> spec_decode_food_item(#[trigger] items[i]) is Ok)
            &&& (field == Field::Kind ==> text_field(
                items[index]->Object_0,
                Field::Dish.spec_name(),
            ) is Ok)
        }) ==> spec_decode_food_pref_args(payload) == Err::<Seq<FoodPrefFact>, DecodeError>(
            DecodeError { place: Place::ItemField(index as usize, field), fault: Fault::Missing },
        ),
{
    let decode = |item: PayloadView| spec_decode_food_item(item);
    let items = list_field(payload, Field::Dishes)->Ok_0;
    lemma_decode_items_ok(items, decode);
    assert(decode(items[index]) is Err);
    if (forall|i: int| 0 <= i < index ==> spec_decode_food_item(#[trigger] items[i]) is Ok) {
        assert forall|i: int| 0 <= i < index implies (#[trigger] decode(items[i])) is Ok by {
            assert(spec_decode_food_item(items[i]) is Ok);
        }
        lemma_decode_items_first_error(items, decode, index);
    }
}

/// A payload in which some list item lacks a required field does not
/// decode for the diet tool, whatever else it holds. Unless an earlier fault
/// comes first, the error names that field of that item as missing.
pub proof fn lemma_missing_diet_item_field(payload: PayloadView, index: int, field: Field)
    requires
        field == Field::DietType || field == Field::Follows,
        list_field(payload, Field::Diets) matches Ok(items) && 0 <= index < items.len()
            && items[index] is Object && field_of(items[index]->Object_0, field.spec_name())
            is None,
    ensures
        spec_decode_diet_type_args(payload) is Err,
        ({
            let items = list_field(payload, Field::Diets)->Ok_0;
            &&& (forall|i: int| 0 <= i < index ==> spec_decode_diet_item(#[trigger] items[i]) is Ok)
            &&& (field == Field::Follows ==> (text_field(
                items[index]->Object_0,
                Field::DietType.spec_name(),
            ) matches Ok(name) && DietType::spec_from_name(name) is Some))
        }) ==> spec_decode_diet_type_args(payload) == Err::<
            Seq<StoreDietTypeArgsAux>,
            DecodeError,
        >(DecodeError { place: Place::ItemField(index as usize, field), fault: Fault::Missing }),
{
    let decode = |item: PayloadView| spec_decode_diet_item(item);
    let items = list_field(payload, Field::Diets)->Ok_0;
    lemma_decode_items_ok(items, decode);
    assert(decode(items[index]) is Err);
    if (forall|i: int| 0 <= i < index ==> spec_decode_diet_item(#[trigger] items[i]) is Ok) {
        assert forall|i: int| 0 <= i < index implies (#[trigger] decode(items[i])) is Ok by {
            assert(spec_decode_diet_item(items[i]) is Ok);
        }
        lemma_decode_items_first_error(items, decode, index);
    }
}

/// Decoding, encoding and decoding again gives what the first decoding gave.
pub proof fn lemma_food_pref_args_decode_again(payload: PayloadView)
    requires
        spec_decode_food_pref_args(payload) is Ok,
    ensures
        spec_decode_food_pref_args(
            spec_encode_food_pref_args(spec_decode_food_pref_args(payload)->Ok_0),
        ) == spec_decode_food_pref_args(payload),
{
    lemma_food_pref_args_round_trip(spec_decode_food_pref_args(payload)->Ok_0);
}

/// Decoding, encoding and decoding again gives what the first decoding gave.
pub proof fn lemma_diet_type_args_decode_again(payload: PayloadView)
    requires
        spec_decode_diet_type_args(payload) is Ok,
    ensures
        spec_decode_diet_type_args(
            spec_encode_diet_type_args(spec_decode_diet_type_args(payload)->Ok_0),
        ) == spec_decode_diet_type_args(payload),
{
    lemma_diet_type_args_round_trip(spec_decode_diet_type_args(payload)->Ok_0);
}

} // verus!
