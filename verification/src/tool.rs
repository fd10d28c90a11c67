//! The two tools: what a generation service is told of them, and what a call
//! of one does to the store.

use vstd::prelude::*;
use crate::decode::Field;
use crate::facts::{DietType, FoodKind, StoreDietTypeArgs, StoreFoodPrefArgs};
use crate::schema::{
    properties_view, texts_view, Schema, SchemaView, ToolDefinition, ToolDefinitionView,
};
use crate::store::MockProjectUntitled;

verus! {

/// The error of a tool whose work on the store failed.
#[derive(Clone, Copy, Debug, PartialEq, Eq, Structural)]
pub struct FoodPrefError;

impl FoodPrefError {
    /// The error in words.
    pub open spec fn spec_message(self) -> Seq<char> {
        "Food pref error"@
    }

    /// The error in words.
    pub fn message(&self) -> (text: String)
        ensures
            text@ == self.spec_message(),
    {
        String::from_str("Food pref error")
    }
}

/// The names of the food kinds, as the schema lists them.
pub open spec fn food_kind_names() -> Seq<Seq<char>> {
    seq![
        FoodKind::Allergy.spec_name(),
        FoodKind::Intolerance.spec_name(),
        FoodKind::Dislike.spec_name(),
        FoodKind::NotSure.spec_name(),
        FoodKind::Like.spec_name(),
        FoodKind::Love.spec_name(),
    ]
}

/// The names of the diets, as the schema lists them.
pub open spec fn diet_type_names() -> Seq<Seq<char>> {
    seq![
        DietType::Vegetarian.spec_name(),
        DietType::Vegan.spec_name(),
        DietType::GlutenFree.spec_name(),
        DietType::Pescatarian.spec_name(),
        DietType::Keto.spec_name(),
        DietType::Paleo.spec_name(),
    ]
}

/// The schema of an object with two properties, both required.
pub open spec fn object_of_two(
    first: Field,
    first_schema: SchemaView,
    second: Field,
    second_schema: SchemaView,
) -> SchemaView {
    SchemaView::Object {
        description: None,
        properties: seq![(first.spec_name(), first_schema), (second.spec_name(), second_schema)],
        required: seq![first.spec_name(), second.spec_name()],
    }
}

/// The schema of an object with one property, which is required.
pub open spec fn object_of_one(only: Field, schema: SchemaView) -> SchemaView {
    SchemaView::Object {
        description: None,
        properties: seq![(only.spec_name(), schema)],
        required: seq![only.spec_name()],
    }
}

/// The shape of one item of the list `dishes`.
pub open spec fn food_item_schema() -> SchemaView {
    object_of_two(
        Field::Dish,
        SchemaView::Text {
            description: Some(
                "The name of the dish or food for which we are learning about a preference"@,
            ),
            one_of: None,
        },
        Field::Kind,
        SchemaView::Text {
            description: Some("The kind of food preference that this is"@),
            one_of: Some(food_kind_names()),
        },
    )
}

/// The shape of the arguments of the food-preference tool.
pub open spec fn food_pref_parameters() -> SchemaView {
    object_of_one(
        Field::Dishes,
        SchemaView::Array {
            description: Some("A list of zero or more dishes and kinds to store"@),
            items: Box::new(food_item_schema()),
        },
    )
}

/// What a generation service is told of the food-preference tool.
pub open spec fn food_pref_definition() -> ToolDefinitionView {
    ToolDefinitionView {
        name: StoreFoodPref::spec_name(),
        description: "Store food preferences"@,
        parameters: food_pref_parameters(),
    }
}

/// The shape of one item of the list `diets`.
pub open spec fn diet_item_schema() -> SchemaView {
    object_of_two(
        Field::DietType,
        SchemaView::Text {
            description: Some("The type of diet"@),
            one_of: Some(diet_type_names()),
        },
        Field::Follows,
        SchemaView::Boolean { description: Some("Whether the user follows this diet"@) },
    )
}

/// The shape of the arguments of the diet tool.
pub open spec fn diet_type_parameters() -> SchemaView {
    object_of_one(
        Field::Diets,
        SchemaView::Array {
            description: Some(
                "A list of zero or more diet types and whether the user follows them"@,
            ),
            items: Box::new(diet_item_schema()),
        },
    )
}

/// What a generation service is told of the diet tool.
pub open spec fn diet_type_definition() -> ToolDefinitionView {
    ToolDefinitionView {
        name: StoreDietType::spec_name(),
        description: "Store diet types"@,
        parameters: diet_type_parameters(),
    }
}

/// Builds the schema of an object with two properties, both required.
fn schema_of_two(first: Field, first_schema: Schema, second: Field, second_schema: Schema) -> (schema:
    Schema)
    ensures
        schema@ == object_of_two(first, first_schema@, second, second_schema@),
{
    let mut properties: Vec<(String, Schema)> = Vec::new();
    properties.push((String::from_str(first.name()), first_schema));
    properties.push((String::from_str(second.name()), second_schema));
    let mut required: Vec<String> = Vec::new();
    required.push(String::from_str(first.name()));
    required.push(String::from_str(second.name()));
    assert(properties_view(properties@) =~= seq![
        (first.spec_name(), first_schema@),
        (second.spec_name(), second_schema@),
    ]);
    assert(texts_view(required@) =~= seq![first.spec_name(), second.spec_name()]);
    Schema::object(properties, required)
}

/// Builds the schema of an object with one property, which is required.
fn schema_of_one(only: Field, schema: Schema) -> (object: Schema)
    ensures
        object@ == object_of_one(only, schema@),
{
    let mut properties: Vec<(String, Schema)> = Vec::new();
    properties.push((String::from_str(only.name()), schema));
    let mut required: Vec<String> = Vec::new();
    required.push(String::from_str(only.name()));
    assert(properties_view(properties@) =~= seq![(only.spec_name(), schema@)]);
    assert(texts_view(required@) =~= seq![only.spec_name()]);
    Schema::object(properties, required)
}

/// The names of the food kinds, as the schema lists them.
fn food_kind_choices() -> (names: Vec<String>)
    ensures
        texts_view(names@) == food_kind_names(),
{
    let mut names: Vec<String> = Vec::new();
    names.push(String::from_str(FoodKind::Allergy.name()));
    names.push(String::from_str(FoodKind::Intolerance.name()));
    names.push(String::from_str(FoodKind::Dislike.name()));
    names.push(String::from_str(FoodKind::NotSure.name()));
    names.push(String::from_str(FoodKind::Like.name()));
    names.push(String::from_str(FoodKind::Love.name()));
    names
}

/// The names of the diets, as the schema lists them.
fn diet_type_choices() -> (names: Vec<String>)
    ensures
        texts_view(names@) == diet_type_names(),
{
    let mut names: Vec<String> = Vec::new();
    names.push(String::from_str(DietType::Vegetarian.name()));
    names.push(String::from_str(DietType::Vegan.name()));
    names.push(String::from_str(DietType::GlutenFree.name()));
    names.push(String::from_str(DietType::Pescatarian.name()));
    names.push(String::from_str(DietType::Keto.name()));
    names.push(String::from_str(DietType::Paleo.name()));
    names
}

/// The tool that records a list of food preferences.
#[derive(Clone, Copy, Debug, PartialEq, Eq, Structural)]
pub struct StoreFoodPref;

impl StoreFoodPref {
    /// The name by which the tool is called.
    pub open spec fn spec_name() -> Seq<char> {
        "StoreFoodPref"@
    }

    /// The name by which the tool is called.
    pub fn name(&self) -> (name: &'static str)
        ensures
            name@ == Self::spec_name(),
    {
        "StoreFoodPref"
    }

    /// What a generation service is told of the tool. It is the same for
    /// every prompt.
    pub fn definition(&self, _prompt: String) -> (definition: ToolDefinition)
        ensures
            definition@ == food_pref_definition(),
    {
        let item = schema_of_two(
            Field::Dish,
            Schema::text(
                "The name of the dish or food for which we are learning about a preference",
            ),
            Field::Kind,
            Schema::one_of("The kind of food preference that this is", food_kind_choices()),
        );
        let dishes = Schema::array("A list of zero or more dishes and kinds to store", item);
        ToolDefinition {
            name: String::from_str(self.name()),
            description: String::from_str("Store food preferences"),
            parameters: schema_of_one(Field::Dishes, dishes),
        }
    }

    /// Records the preferences in the store, after those that it holds and
    /// in the order of the list. An empty list changes nothing. The call
    /// never fails.
    pub fn call(&self, store: &mut MockProjectUntitled, args: StoreFoodPrefArgs) -> (done: Result<
        bool,
        FoodPrefError,
    >)
        ensures
            done == Ok::<bool, FoodPrefError>(true),
            final(store)@ == old(store)@.append_food_prefs(args@),
    {
        store.append_food_prefs(args.dishes);
        Ok(true)
    }
}

/// The tool that records a list of diet declarations.
#[derive(Clone, Copy, Debug, PartialEq, Eq, Structural)]
pub struct StoreDietType;

impl StoreDietType {
    /// The name by which the tool is called.
    pub open spec fn spec_name() -> Seq<char> {
        "StoreDietType"@
    }

    /// The name by which the tool is called.
    pub fn name(&self) -> (name: &'static str)
        ensures
            name@ == Self::spec_name(),
    {
        "StoreDietType"
    }

    /// What a generation service is told of the tool. It is the same for
    /// every prompt.
    pub fn definition(&self, _prompt: String) -> (definition: ToolDefinition)
        ensures
            definition@ == diet_type_definition(),
    {
        let item = schema_of_two(
            Field::DietType,
            Schema::one_of("The type of diet", diet_type_choices()),
            Field::Follows,
            Schema::boolean("Whether the user follows this diet"),
        );
        let diets = Schema::array(
            "A list of zero or more diet types and whether the user follows them",
            item,
        );
        ToolDefinition {
            name: String::from_str(self.name()),
            description: String::from_str("Store diet types"),
            parameters: schema_of_one(Field::Diets, diets),
        }
    }

    /// Records the declarations in the store, after those that it holds and
    /// in the order of the list. An empty list changes nothing. The call
    /// never fails.
    pub fn call(&self, store: &mut MockProjectUntitled, args: StoreDietTypeArgs) -> (done: Result<
        bool,
        FoodPrefError,
    >)
        ensures
            done == Ok::<bool, FoodPrefError>(true),
            final(store)@ == old(store)@.append_diets(args@),
    {
        store.append_diets(args.diets);
        Ok(true)
    }
}

} // verus!
