//! Decoding tool-call payloads into typed arguments.
//!
//! A payload is read against the argument shape of one tool: an object with
//! one list field, whose items are objects with two scalar fields. Fields
//! that the shape does not name are ignored. The first fault met, going
//! through the items in order and through the fields of an item in the order
//! of the shape, is the error.

use vstd::prelude::*;
use crate::facts::{
    food_facts, DietType, FoodKind, FoodPrefFact, StoreDietTypeArgs, StoreDietTypeArgsAux,
    StoreFoodPrefArgs, StoreFoodPrefArgsAux,
};
use crate::payload::{
    field_of, fields_view, find_field, items_view, lemma_list_view, lemma_object_view, Payload,
    PayloadKind, PayloadView,
};
use crate::text::{decimal, push_decimal};

verus! {

/// The fields that the two argument shapes name.
#[derive(Clone, Copy, Debug, PartialEq, Eq, Structural)]
pub enum Field {
    Dishes,
    Dish,
    Kind,
    Diets,
    DietType,
    Follows,
}

impl Field {
    /// The field's name in a payload.
    pub open spec fn spec_name(self) -> Seq<char> {
        match self {
            Field::Dishes => "dishes"@,
            Field::Dish => "dish"@,
            Field::Kind => "kind"@,
            Field::Diets => "diets"@,
            Field::DietType => "diet_type"@,
            Field::Follows => "follows"@,
        }
    }

    /// The field's name in a payload.
    pub fn name(&self) -> (name: &'static str)
        ensures
            name@ == self.spec_name(),
    {
        match self {
            Field::Dishes => "dishes",
            Field::Dish => "dish",
            Field::Kind => "kind",
            Field::Diets => "diets",
            Field::DietType => "diet_type",
            Field::Follows => "follows",
        }
    }
}

/// What is wrong with one value of a payload.
#[derive(Clone, Copy, Debug, PartialEq, Eq, Structural)]
pub enum Fault {
    /// A required field is absent.
    Missing,
    /// The value has another shape than the one required.
    Mistyped { expected: PayloadKind, found: PayloadKind },
    /// The text is none of the names of the enumerated set.
    OutsideEnum,
}

/// Where in a payload a fault lies.
#[derive(Clone, Copy, Debug, PartialEq, Eq, Structural)]
pub enum Place {
    /// The payload itself.
    Root,
    /// A field of the payload.
    Field(Field),
    /// The list item with this index, counted from zero.
    Item(usize),
    /// A field of the list item with this index.
    ItemField(usize, Field),
}

/// Why a payload could not be decoded: the first fault, and its place.
#[derive(Clone, Copy, Debug, PartialEq, Eq, Structural)]
pub struct DecodeError {
    pub place: Place,
    pub fault: Fault,
}

/// A fault within one list item: in the named field, or in the item itself.
#[derive(Clone, Copy, Debug, PartialEq, Eq, Structural)]
pub struct ItemError {
    pub field: Option<Field>,
    pub fault: Fault,
}

impl ItemError {
    /// The same fault, seen from the whole payload, for the item at `index`.
    pub open spec fn spec_at(self, index: int) -> DecodeError {
        match self.field {
            Some(field) => DecodeError {
                place: Place::ItemField(index as usize, field),
                fault: self.fault,
            },
            None => DecodeError { place: Place::Item(index as usize), fault: self.fault },
        }
    }

    /// The same fault, seen from the whole payload, for the item at `index`.
    pub fn at(self, index: usize) -> (error: DecodeError)
        ensures
            error == self.spec_at(index as int),
    {
        match self.field {
            Some(field) => DecodeError {
                place: Place::ItemField(index, field),
                fault: self.fault,
            },
            None => DecodeError { place: Place::Item(index), fault: self.fault },
        }
    }
}

/// The fault of a value that should have had the shape `expected`.
pub open spec fn mistyped(expected: PayloadKind, value: PayloadView) -> Fault {
    Fault::Mistyped { expected, found: value.kind() }
}

/// The text in the field `name`, or why there is none.
pub open spec fn text_field(fields: Seq<(Seq<char>, PayloadView)>, name: Seq<char>) -> Result<
    Seq<char>,
    Fault,
> {
    match field_of(fields, name) {
        None => Err(Fault::Missing),
        Some(PayloadView::Text(text)) => Ok(text),
        Some(other) => Err(mistyped(PayloadKind::Text, other)),
    }
}

/// The truth value in the field `name`, or why there is none.
pub open spec fn bool_field(fields: Seq<(Seq<char>, PayloadView)>, name: Seq<char>) -> Result<
    bool,
    Fault,
> {
    match field_of(fields, name) {
        None => Err(Fault::Missing),
        Some(PayloadView::Bool(b)) => Ok(b),
        Some(other) => Err(mistyped(PayloadKind::Bool, other)),
    }
}

/// The food preference that a list item states, or the item's first fault:
/// the item must be an object, `dish` a text, and `kind` the name of a kind.
pub open spec fn spec_decode_food_item(item: PayloadView) -> Result<FoodPrefFact, ItemError> {
    match item {
        PayloadView::Object(fields) => match text_field(fields, Field::Dish.spec_name()) {
            Err(fault) => Err(ItemError { field: Some(Field::Dish), fault }),
            Ok(dish) => match text_field(fields, Field::Kind.spec_name()) {
                Err(fault) => Err(ItemError { field: Some(Field::Kind), fault }),
                Ok(name) => match FoodKind::spec_from_name(name) {
                    None => Err(ItemError { field: Some(Field::Kind), fault: Fault::OutsideEnum }),
                    Some(kind) => Ok(FoodPrefFact { dish, kind }),
                },
            },
        },
        other => Err(ItemError { field: None, fault: mistyped(PayloadKind::Object, other) }),
    }
}

/// The diet declaration that a list item states, or the item's first fault:
/// the item must be an object, `diet_type` the name of a diet, and `follows`
/// a truth value.
pub open spec fn spec_decode_diet_item(item: PayloadView) -> Result<StoreDietTypeArgsAux, ItemError> {
    match item {
        PayloadView::Object(fields) => match text_field(fields, Field::DietType.spec_name()) {
            Err(fault) => Err(ItemError { field: Some(Field::DietType), fault }),
            Ok(name) => match DietType::spec_from_name(name) {
                None => Err(
                    ItemError { field: Some(Field::DietType), fault: Fault::OutsideEnum },
                ),
                Some(diet_type) => match bool_field(fields, Field::Follows.spec_name()) {
                    Err(fault) => Err(ItemError { field: Some(Field::Follows), fault }),
                    Ok(follows) => Ok(StoreDietTypeArgsAux { diet_type, follows }),
                },
            },
        },
        other => Err(ItemError { field: None, fault: mistyped(PayloadKind::Object, other) }),
    }
}

/// The records that the items state, in order, or the fault of the first
/// item that states none.
pub open spec fn decode_items<T>(
    items: Seq<PayloadView>,
    decode: spec_fn(PayloadView) -> Result<T, ItemError>,
) -> Result<Seq<T>, DecodeError>
    decreases items.len(),
{
    if items.len() == 0 {
        Ok(Seq::empty())
    } else {
        match decode_items(items.drop_last(), decode) {
            Err(error) => Err(error),
            Ok(records) => match decode(items.last()) {
                Err(error) => Err(error.spec_at(items.len() - 1)),
                Ok(record) => Ok(records.push(record)),
            },
        }
    }
}

/// The items of the list under the field `list` of a payload: the payload
/// must be an object, and `list` in it a list.
pub open spec fn list_field(payload: PayloadView, list: Field) -> Result<
    Seq<PayloadView>,
    DecodeError,
> {
    match payload {
        PayloadView::Object(fields) => match field_of(fields, list.spec_name()) {
            None => Err(DecodeError { place: Place::Field(list), fault: Fault::Missing }),
            Some(PayloadView::List(items)) => Ok(items),
            Some(other) => Err(
                DecodeError { place: Place::Field(list), fault: mistyped(PayloadKind::List, other) },
            ),
        },
        other => Err(
            DecodeError { place: Place::Root, fault: mistyped(PayloadKind::Object, other) },
        ),
    }
}

/// The records that a payload states for a tool whose arguments are one list
/// under the field `list`: the payload must be an object, and `list` in it a
/// list whose every item decodes.
pub open spec fn decode_list_args<T>(
    payload: PayloadView,
    list: Field,
    decode: spec_fn(PayloadView) -> Result<T, ItemError>,
) -> Result<Seq<T>, DecodeError> {
    match list_field(payload, list) {
        Err(error) => Err(error),
        Ok(items) => decode_items(items, decode),
    }
}

/// What decoding a payload for the food-preference tool gives.
pub open spec fn spec_decode_food_pref_args(payload: PayloadView) -> Result<
    Seq<FoodPrefFact>,
    DecodeError,
> {
    decode_list_args(payload, Field::Dishes, |item: PayloadView| spec_decode_food_item(item))
}

/// What decoding a payload for the diet tool gives.
pub open spec fn spec_decode_diet_type_args(payload: PayloadView) -> Result<
    Seq<StoreDietTypeArgsAux>,
    DecodeError,
> {
    decode_list_args(payload, Field::Diets, |item: PayloadView| spec_decode_diet_item(item))
}

/// An error in a part of the list is the error of the whole list.
pub proof fn lemma_decode_items_prefix_error<T>(
    items: Seq<PayloadView>,
    decode: spec_fn(PayloadView) -> Result<T, ItemError>,
    n: int,
)
    requires
        0 <= n <= items.len(),
        decode_items(items.take(n), decode) is Err,
    ensures
        decode_items(items, decode) == decode_items(items.take(n), decode),
    decreases items.len() - n,
{
    if n == items.len() {
        assert(items.take(n) =~= items);
    } else {
        assert(items.take(n + 1).drop_last() =~= items.take(n));
        lemma_decode_items_prefix_error(items, decode, n + 1);
    }
}

/// A list decodes exactly when each of its items does, and then item by item.
pub proof fn lemma_decode_items_ok<T>(
    items: Seq<PayloadView>,
    decode: spec_fn(PayloadView) -> Result<T, ItemError>,
)
    ensures
        decode_items(items, decode) is Ok <==> (forall|i: int|
            0 <= i < items.len() ==> (#[trigger] decode(items[i])) is Ok),
        decode_items(items, decode) matches Ok(records) ==> {
            &&& records.len() == items.len()
            &&& forall|i: int|
                0 <= i < items.len() ==> decode(items[i]) == Ok::<T, ItemError>(
                    #[trigger] records[i],
                )
        },
    decreases items.len(),
{
    if items.len() > 0 {
        let front = items.drop_last();
        lemma_decode_items_ok(front, decode);
        if decode_items(front, decode) is Err {
            let bad = choose|i: int| 0 <= i < front.len() && !(#[trigger] decode(front[i]) is Ok);
            assert(decode(items[bad]) is Err);
        } else if decode(items.last()) is Err {
            assert(decode(items[items.len() - 1]) is Err);
        } else {
            assert forall|i: int| 0 <= i < items.len() implies (#[trigger] decode(
                items[i],
            )) is Ok by {
                if i < front.len() {
                    assert(decode(front[i]) is Ok);
                }
            }
        }
    }
}

/// Where a list does not decode, the error is that of its first failing
/// item, under that item's index.
pub proof fn lemma_decode_items_first_error<T>(
    items: Seq<PayloadView>,
    decode: spec_fn(PayloadView) -> Result<T, ItemError>,
    bad: int,
)
    requires
        0 <= bad < items.len(),
        decode(items[bad]) is Err,
        forall|i: int| 0 <= i < bad ==> (#[trigger] decode(items[i])) is Ok,
    ensures
        decode_items(items, decode) == Err::<Seq<T>, DecodeError>(
            decode(items[bad])->Err_0.spec_at(bad),
        ),
{
    let upto = items.take(bad);
    lemma_decode_items_ok(upto, decode);
    assert forall|i: int| 0 <= i < upto.len() implies (#[trigger] decode(upto[i])) is Ok by {
        assert(decode(items[i]) is Ok);
    }
    assert(items.take(bad + 1).drop_last() =~= upto);
    lemma_decode_items_prefix_error(items, decode, bad + 1);
}

/// Whether `result` is what `expected` says, the decoded value taken by its
/// view.
pub open spec fn decoded_as<T: View, E>(result: Result<T, E>, expected: Result<T::V, E>) -> bool {
    match result {
        Ok(value) => expected == Ok::<T::V, E>(value@),
        Err(error) => expected == Err::<T::V, E>(error),
    }
}

/// The text in the field `field` of an object.
fn text_in<'a>(fields: &'a Vec<(String, Payload)>, field: Field) -> (found: Result<
    &'a String,
    Fault,
>)
    ensures
        decoded_as(found, text_field(fields_view(fields@), field.spec_name())),
{
    match find_field(fields, field.name()) {
        None => Err(Fault::Missing),
        Some(Payload::Text(text)) => Ok(text),
        Some(other) => Err(Fault::Mistyped { expected: PayloadKind::Text, found: other.kind() }),
    }
}

/// The truth value in the field `field` of an object.
fn bool_in(fields: &Vec<(String, Payload)>, field: Field) -> (found: Result<bool, Fault>)
    ensures
        found == bool_field(fields_view(fields@), field.spec_name()),
{
    match find_field(fields, field.name()) {
        None => Err(Fault::Missing),
        Some(Payload::Bool(b)) => Ok(*b),
        Some(other) => Err(Fault::Mistyped { expected: PayloadKind::Bool, found: other.kind() }),
    }
}

/// Reads one food preference from a list item.
pub fn decode_food_item(item: &Payload) -> (decoded: Result<StoreFoodPrefArgsAux, ItemError>)
    ensures
        decoded_as(decoded, spec_decode_food_item(item@)),
{
    match item {
        Payload::Object(fields) => {
            proof {
                lemma_object_view(*fields);
            }
            let dish = match text_in(fields, Field::Dish) {
                Ok(dish) => dish,
                Err(fault) => {
                    return Err(ItemError { field: Some(Field::Dish), fault });
                },
            };
            let name = match text_in(fields, Field::Kind) {
                Ok(name) => name,
                Err(fault) => {
                    return Err(ItemError { field: Some(Field::Kind), fault });
                },
            };
            match FoodKind::from_name(name) {
                Some(kind) => Ok(StoreFoodPrefArgsAux { dish: dish.clone(), kind }),
                None => Err(ItemError { field: Some(Field::Kind), fault: Fault::OutsideEnum }),
            }
        },
        other => Err(
            ItemError {
                field: None,
                fault: Fault::Mistyped { expected: PayloadKind::Object, found: other.kind() },
            },
        ),
    }
}

/// Reads one diet declaration from a list item.
pub fn decode_diet_item(item: &Payload) -> (decoded: Result<StoreDietTypeArgsAux, ItemError>)
    ensures
        decoded == spec_decode_diet_item(item@),
{
    match item {
        Payload::Object(fields) => {
            proof {
                lemma_object_view(*fields);
            }
            let name = match text_in(fields, Field::DietType) {
                Ok(name) => name,
                Err(fault) => {
                    return Err(ItemError { field: Some(Field::DietType), fault });
                },
            };
            let diet_type = match DietType::from_name(name) {
                Some(diet_type) => diet_type,
                None => {
                    return Err(
                        ItemError { field: Some(Field::DietType), fault: Fault::OutsideEnum },
                    );
                },
            };
            match bool_in(fields, Field::Follows) {
                Ok(follows) => Ok(StoreDietTypeArgsAux { diet_type, follows }),
                Err(fault) => Err(ItemError { field: Some(Field::Follows), fault }),
            }
        },
        other => Err(
            ItemError {
                field: None,
                fault: Fault::Mistyped { expected: PayloadKind::Object, found: other.kind() },
            },
        ),
    }
}

/// The list under the field `list` of a payload, or why there is none.
fn list_in(payload: &Payload, list: Field) -> (found: Result<&Vec<Payload>, DecodeError>)
    ensures
        match found {
            Ok(items) => list_field(payload@, list) == Ok::<Seq<PayloadView>, DecodeError>(
                items_view(items@),
            ),
            Err(error) => list_field(payload@, list) == Err::<Seq<PayloadView>, DecodeError>(
                error,
            ),
        },
{
    match payload {
        Payload::Object(fields) => {
            proof {
                lemma_object_view(*fields);
            }
            match find_field(fields, list.name()) {
                None => Err(DecodeError { place: Place::Field(list), fault: Fault::Missing }),
                Some(Payload::List(items)) => {
                    proof {
                        lemma_list_view(*items);
                    }
                    Ok(items)
                },
                Some(other) => Err(
                    DecodeError {
                        place: Place::Field(list),
                        fault: Fault::Mistyped { expected: PayloadKind::List, found: other.kind() },
                    },
                ),
            }
        },
        other => Err(
            DecodeError {
                place: Place::Root,
                fault: Fault::Mistyped { expected: PayloadKind::Object, found: other.kind() },
            },
        ),
    }
}

/// Decodes the arguments of the food-preference tool: an object whose field
/// `dishes` is a list of objects, each with a text `dish` and a `kind` that
/// names a food kind. Other fields are ignored. Nothing but the payload is
/// read, and nothing is changed.
pub fn decode_food_pref_args(payload: &Payload) -> (decoded: Result<
    StoreFoodPrefArgs,
    DecodeError,
>)
    ensures
        decoded_as(decoded, spec_decode_food_pref_args(payload@)),
{
    let items = match list_in(payload, Field::Dishes) {
        Ok(items) => items,
        Err(error) => {
            return Err(error);
        },
    };
    let ghost all = items_view(items@);
    let ghost decode = |item: PayloadView| spec_decode_food_item(item);
    let mut dishes: Vec<StoreFoodPrefArgsAux> = Vec::new();
    let mut i: usize = 0;
    assert(food_facts(dishes@) =~= Seq::<FoodPrefFact>::empty());
    while i < items.len()
        invariant
            i <= items.len(),
            all == items_view(items@),
            decode == |item: PayloadView| spec_decode_food_item(item),
            list_field(payload@, Field::Dishes) == Ok::<Seq<PayloadView>, DecodeError>(all),
            decode_items(all.take(i as int), decode) == Ok::<Seq<FoodPrefFact>, DecodeError>(
                food_facts(dishes@),
            ),
        decreases items.len() - i,
    {
        assert(all.take(i + 1).drop_last() =~= all.take(i as int));
        match decode_food_item(&items[i]) {
            Ok(record) => {
                let ghost earlier = food_facts(dishes@);
                dishes.push(record);
                assert(food_facts(dishes@) =~= earlier.push(record@));
            },
            Err(error) => {
                proof {
                    lemma_decode_items_prefix_error(all, decode, i + 1);
                }
                return Err(error.at(i));
            },
        }
        i += 1;
    }
    assert(all.take(i as int) =~= all);
    Ok(StoreFoodPrefArgs { dishes })
}

/// Decodes the arguments of the diet tool: an object whose field `diets` is
/// a list of objects, each with a `diet_type` that names a diet and a truth
/// value `follows`. Other fields are ignored. Nothing but the payload is
/// read, and nothing is changed.
pub fn decode_diet_type_args(payload: &Payload) -> (decoded: Result<
    StoreDietTypeArgs,
    DecodeError,
>)
    ensures
        decoded_as(decoded, spec_decode_diet_type_args(payload@)),
{
    let items = match list_in(payload, Field::Diets) {
        Ok(items) => items,
        Err(error) => {
            return Err(error);
        },
    };
    let ghost all = items_view(items@);
    let ghost decode = |item: PayloadView| spec_decode_diet_item(item);
    let mut diets: Vec<StoreDietTypeArgsAux> = Vec::new();
    let mut i: usize = 0;
    while i < items.len()
        invariant
            i <= items.len(),
            all == items_view(items@),
            decode == |item: PayloadView| spec_decode_diet_item(item),
            list_field(payload@, Field::Diets) == Ok::<Seq<PayloadView>, DecodeError>(all),
            decode_items(all.take(i as int), decode) == Ok::<
                Seq<StoreDietTypeArgsAux>,
                DecodeError,
            >(diets@),
        decreases items.len() - i,
    {
        assert(all.take(i + 1).drop_last() =~= all.take(i as int));
        match decode_diet_item(&items[i]) {
            Ok(record) => {
                diets.push(record);
            },
            Err(error) => {
                proof {
                    lemma_decode_items_prefix_error(all, decode, i + 1);
                }
                return Err(error.at(i));
            },
        }
        i += 1;
    }
    assert(all.take(i as int) =~= all);
    Ok(StoreDietTypeArgs { diets })
}

impl Place {
    /// The place in words.
    pub open spec fn spec_text(self) -> Seq<char> {
        match self {
            Place::Root => "the arguments"@,
            Place::Field(field) => "field `"@ + field.spec_name() + "`"@,
            Place::Item(index) => "item "@ + decimal(index as nat),
            Place::ItemField(index, field) => "field `"@ + field.spec_name() + "` of item "@
                + decimal(index as nat),
        }
    }

    /// Writes the place in words at the end of `out`.
    pub fn write(&self, out: &mut String)
        ensures
            final(out)@ == old(out)@ + self.spec_text(),
    {
        match self {
            Place::Root => {
                out.append("the arguments");
            },
            Place::Field(field) => {
                out.append("field `");
                out.append(field.name());
                out.append("`");
            },
            Place::Item(index) => {
                out.append("item ");
                push_decimal(out, *index);
            },
            Place::ItemField(index, field) => {
                out.append("field `");
                out.append(field.name());
                out.append("` of item ");
                push_decimal(out, *index);
            },
        }
    }
}

impl Fault {
    /// What is wrong, in words that follow the place.
    pub open spec fn spec_text(self) -> Seq<char> {
        match self {
            Fault::Missing => " is missing"@,
            Fault::Mistyped { expected, found } => " must be "@ + expected.spec_words()
                + ", not "@ + found.spec_words(),
            Fault::OutsideEnum => " is not one of the allowed values"@,
        }
    }

    /// Writes what is wrong at the end of `out`.
    pub fn write(&self, out: &mut String)
        ensures
            final(out)@ == old(out)@ + self.spec_text(),
    {
        match self {
            Fault::Missing => {
                out.append(" is missing");
            },
            Fault::Mistyped { expected, found } => {
                out.append(" must be ");
                out.append(expected.words());
                out.append(", not ");
                out.append(found.words());
            },
            Fault::OutsideEnum => {
                out.append(" is not one of the allowed values");
            },
        }
    }
}

impl DecodeError {
    /// The error as one line of text: the place, then what is wrong there.
    pub open spec fn spec_message(self) -> Seq<char> {
        "DecodeError: "@ + self.place.spec_text() + self.fault.spec_text()
    }

    /// The error as one line of text, fit to be handed back as the result of
    /// the tool call that it ended.
    pub fn message(&self) -> (text: String)
        ensures
            text@ == self.spec_message(),
    {
        let mut text = String::from_str("DecodeError: ");
        self.place.write(&mut text);
        self.fault.write(&mut text);
        text
    }
}

} // verus!
