//! The structural description of a tool's arguments, as it is handed to a
//! generation service, and what it means for a payload to conform to it.

use vstd::prelude::*;
use crate::payload::{
    field_of, fields_view, find_field, items_view, lemma_list_view, lemma_object_view, Payload,
    PayloadView,
};

verus! {

/// The shape that a tool expects of a payload.
#[derive(Debug, PartialEq, Eq)]
pub enum Schema {
    /// A text; where `one_of` is given, one of those texts.
    Text { description: Option<String>, one_of: Option<Vec<String>> },
    /// A number.
    Number { description: Option<String> },
    /// A truth value.
    Boolean { description: Option<String> },
    /// A list whose every item has the shape `items`.
    Array { description: Option<String>, items: Box<Schema> },
    /// An object. Each field named in `required` must be there. A field
    /// named in `properties` has the shape given there, where it is there.
    /// Other fields may be there too.
    Object { description: Option<String>, properties: Vec<(String, Schema)>, required: Vec<String> },
}

/// The mathematical value of a schema.
pub enum SchemaView {
    Text { description: Option<Seq<char>>, one_of: Option<Seq<Seq<char>>> },
    Number { description: Option<Seq<char>> },
    Boolean { description: Option<Seq<char>> },
    Array { description: Option<Seq<char>>, items: Box<SchemaView> },
    Object {
        description: Option<Seq<char>>,
        properties: Seq<(Seq<char>, SchemaView)>,
        required: Seq<Seq<char>>,
    },
}

/// The value of an optional text.
pub open spec fn text_view(text: Option<String>) -> Option<Seq<char>> {
    match text {
        Some(text) => Some(text@),
        None => None,
    }
}

/// The values of a list of texts.
pub open spec fn texts_view(texts: Seq<String>) -> Seq<Seq<char>> {
    texts.map_values(|text: String| text@)
}

/// The values of an optional list of texts.
pub open spec fn choices_view(choices: Option<Vec<String>>) -> Option<Seq<Seq<char>>> {
    match choices {
        Some(texts) => Some(texts_view(texts@)),
        None => None,
    }
}

/// The value of a schema: the same tree, with texts as sequences of
/// characters.
pub open spec fn schema_view(schema: Schema) -> SchemaView
    decreases schema,
{
    match schema {
        Schema::Text { description, one_of } => SchemaView::Text {
            description: text_view(description),
            one_of: choices_view(one_of),
        },
        Schema::Number { description } => SchemaView::Number {
            description: text_view(description),
        },
        Schema::Boolean { description } => SchemaView::Boolean {
            description: text_view(description),
        },
        Schema::Array { description, items } => SchemaView::Array {
            description: text_view(description),
            items: Box::new(schema_view(*items)),
        },
        Schema::Object { description, properties, required } => SchemaView::Object {
            description: text_view(description),
            properties: Seq::new(
                properties@.len(),
                |i: int|
                    if 0 <= i < properties@.len() {
                        (properties@[i].0@, schema_view(properties@[i].1))
                    } else {
                        (Seq::empty(), SchemaView::Number { description: None })
                    },
            ),
            required: texts_view(required@),
        },
    }
}

impl View for Schema {
    type V = SchemaView;

    open spec fn view(&self) -> SchemaView {
        schema_view(*self)
    }
}

/// Whether a payload has the shape that a schema describes.
pub open spec fn conforms(payload: PayloadView, schema: SchemaView) -> bool
    decreases schema,
{
    match schema {
        SchemaView::Text { description, one_of } => {
            &&& payload matches PayloadView::Text(text)
            &&& one_of matches Some(choices) ==> choices.contains(text)
        },
        SchemaView::Number { description } => payload is Number,
        SchemaView::Boolean { description } => payload is Bool,
        SchemaView::Array { description, items } => {
            &&& payload matches PayloadView::List(values)
            &&& forall|i: int| 0 <= i < values.len() ==> conforms(#[trigger] values[i], *items)
        },
        SchemaView::Object { description, properties, required } => {
            &&& payload matches PayloadView::Object(fields)
            &&& forall|i: int|
                0 <= i < required.len() ==> field_of(fields, #[trigger] required[i]) is Some
            &&& forall|i: int|
                0 <= i < properties.len() ==> (field_of(
                    fields,
                    (#[trigger] properties[i]).0,
                ) matches Some(value) ==> conforms(value, properties[i].1))
        },
    }
}

/// The values of the properties of an object schema, in their order.
pub open spec fn properties_view(properties: Seq<(String, Schema)>) -> Seq<
    (Seq<char>, SchemaView),
> {
    Seq::new(properties.len(), |i: int| (properties[i].0@, properties[i].1@))
}

impl Schema {
    /// The schema of any text.
    pub fn text(description: &str) -> (schema: Schema)
        ensures
            schema@ == (SchemaView::Text { description: Some(description@), one_of: None }),
    {
        Schema::Text { description: Some(String::from_str(description)), one_of: None }
    }

    /// The schema of a text that is one of `choices`.
    pub fn one_of(description: &str, choices: Vec<String>) -> (schema: Schema)
        ensures
            schema@ == (SchemaView::Text {
                description: Some(description@),
                one_of: Some(texts_view(choices@)),
            }),
    {
        Schema::Text { description: Some(String::from_str(description)), one_of: Some(choices) }
    }

    /// The schema of a number.
    pub fn number(description: &str) -> (schema: Schema)
        ensures
            schema@ == (SchemaView::Number { description: Some(description@) }),
    {
        Schema::Number { description: Some(String::from_str(description)) }
    }

    /// The schema of a truth value.
    pub fn boolean(description: &str) -> (schema: Schema)
        ensures
            schema@ == (SchemaView::Boolean { description: Some(description@) }),
    {
        Schema::Boolean { description: Some(String::from_str(description)) }
    }

    /// The schema of a list whose items have the shape `items`.
    pub fn array(description: &str, items: Schema) -> (schema: Schema)
        ensures
            schema@ == (SchemaView::Array {
                description: Some(description@),
                items: Box::new(items@),
            }),
    {
        Schema::Array { description: Some(String::from_str(description)), items: Box::new(items) }
    }

    /// The schema of an object with the given properties, of which those
    /// named in `required` must be there.
    pub fn object(properties: Vec<(String, Schema)>, required: Vec<String>) -> (schema: Schema)
        ensures
            schema@ == (SchemaView::Object {
                description: None,
                properties: properties_view(properties@),
                required: texts_view(required@),
            }),
    {
        let schema = Schema::Object { description: None, properties, required };
        assert(schema@->Object_properties =~= properties_view(properties@));
        schema
    }
}

/// Whether `text` is one of `choices`.
fn is_one_of(choices: &Vec<String>, text: &String) -> (found: bool)
    ensures
        found == texts_view(choices@).contains(text@),
{
    let mut i: usize = 0;
    while i < choices.len()
        invariant
            i <= choices.len(),
            forall|k: int| 0 <= k < i ==> texts_view(choices@)[k] != text@,
        decreases choices.len() - i,
    {
        if choices[i] == *text {
            assert(texts_view(choices@)[i as int] == text@);
            return true;
        }
        i += 1;
    }
    false
}

/// Whether every field named in `required` is among `fields`.
fn has_required(fields: &Vec<(String, Payload)>, required: &Vec<String>) -> (all: bool)
    ensures
        all == (forall|i: int|
            0 <= i < required@.len() ==> field_of(
                fields_view(fields@),
                #[trigger] texts_view(required@)[i],
            ) is Some),
{
    let mut i: usize = 0;
    while i < required.len()
        invariant
            i <= required.len(),
            forall|k: int|
                0 <= k < i ==> field_of(
                    fields_view(fields@),
                    #[trigger] texts_view(required@)[k],
                ) is Some,
        decreases required.len() - i,
    {
        if find_field(fields, required[i].as_str()).is_none() {
            assert(field_of(fields_view(fields@), texts_view(required@)[i as int]) is None);
            return false;
        }
        i += 1;
    }
    true
}

impl Schema {
    /// Whether a payload has the shape that the schema describes.
    pub fn accepts(&self, payload: &Payload) -> (ok: bool)
        ensures
            ok == conforms(payload@, self@),
        decreases self,
    {
        match self {
            Schema::Text { description, one_of } => match payload {
                Payload::Text(text) => match one_of {
                    Some(choices) => is_one_of(choices, text),
                    None => true,
                },
                _ => false,
            },
            Schema::Number { description } => match payload {
                Payload::Number(_) => true,
                _ => false,
            },
            Schema::Boolean { description } => match payload {
                Payload::Bool(_) => true,
                _ => false,
            },
            Schema::Array { description, items } => match payload {
                Payload::List(values) => {
                    proof {
                        lemma_list_view(*values);
                    }
                    let mut i: usize = 0;
                    while i < values.len()
                        invariant
                            i <= values.len(),
                            *self == (Schema::Array { description: *description, items: *items }),
                            payload@ == PayloadView::List(items_view(values@)),
                            forall|k: int|
                                0 <= k < i ==> conforms(
                                    #[trigger] items_view(values@)[k],
                                    schema_view(**items),
                                ),
                        decreases values.len() - i,
                    {
                        if !items.accepts(&values[i]) {
                            assert(!conforms(payload@->List_0[i as int], *self@->Array_items));
                            return false;
                        }
                        i += 1;
                    }
                    true
                },
                _ => false,
            },
            Schema::Object { description, properties, required } => match payload {
                Payload::Object(fields) => {
                    proof {
                        lemma_object_view(*fields);
                    }
                    if !has_required(fields, required) {
                        return false;
                    }
                    let mut i: usize = 0;
                    while i < properties.len()
                        invariant
                            i <= properties.len(),
                            *self == (Schema::Object {
                                description: *description,
                                properties: *properties,
                                required: *required,
                            }),
                            payload@ == PayloadView::Object(fields_view(fields@)),
                            self@->Object_properties == properties_view(properties@),
                            forall|k: int|
                                0 <= k < i ==> (field_of(
                                    fields_view(fields@),
                                    (#[trigger] properties_view(properties@)[k]).0,
                                ) matches Some(value) ==> conforms(
                                    value,
                                    properties_view(properties@)[k].1,
                                )),
                        decreases properties.len() - i,
                    {
                        let property = &properties[i];
                        match find_field(fields, property.0.as_str()) {
                            Some(value) => {
                                if !property.1.accepts(value) {
                                    let ghost at = properties_view(properties@)[i as int];
                                    assert(field_of(fields_view(fields@), at.0) == Some(value@));
                                    assert(!conforms(value@, at.1));
                                    return false;
                                }
                            },
                            None => {},
                        }
                        i += 1;
                    }
                    true
                },
                _ => false,
            },
        }
    }
}

/// The list of texts as a payload.
pub open spec fn texts_payload(texts: Seq<Seq<char>>) -> PayloadView {
    PayloadView::List(texts.map_values(|text: Seq<char>| PayloadView::Text(text)))
}

/// The fields with which the written form of every schema begins: `type`,
/// and `description` where the schema has one.
pub open spec fn schema_head(kind: Seq<char>, description: Option<Seq<char>>) -> Seq<
    (Seq<char>, PayloadView),
> {
    match description {
        Some(text) => seq![
            ("type"@, PayloadView::Text(kind)),
            ("description"@, PayloadView::Text(text)),
        ],
        None => seq![("type"@, PayloadView::Text(kind))],
    }
}

/// The schema as the structured value that is handed to a generation
/// service: an object with the field `type`, which is `string`, `number`,
/// `boolean`, `array` or `object`; with `description` where there is one;
/// for a text of a fixed set, `enum`; for an array, `items`; for an object,
/// `properties` and `required`.
pub open spec fn schema_payload(schema: SchemaView) -> PayloadView
    decreases schema,
{
    match schema {
        SchemaView::Text { description, one_of } => PayloadView::Object(
            match one_of {
                Some(choices) => schema_head("string"@, description).push(
                    ("enum"@, texts_payload(choices)),
                ),
                None => schema_head("string"@, description),
            },
        ),
        SchemaView::Number { description } => PayloadView::Object(
            schema_head("number"@, description),
        ),
        SchemaView::Boolean { description } => PayloadView::Object(
            schema_head("boolean"@, description),
        ),
        SchemaView::Array { description, items } => PayloadView::Object(
            schema_head("array"@, description).push(("items"@, schema_payload(*items))),
        ),
        SchemaView::Object { description, properties, required } => PayloadView::Object(
            schema_head("object"@, description).push(
                (
                    "properties"@,
                    PayloadView::Object(
                        Seq::new(
                            properties.len(),
                            |i: int|
                                if 0 <= i < properties.len() {
                                    (properties[i].0, schema_payload(properties[i].1))
                                } else {
                                    (Seq::empty(), PayloadView::Null)
                                },
                        ),
                    ),
                ),
            ).push(("required"@, texts_payload(required))),
        ),
    }
}

/// A list of texts as a payload.
fn texts_to_payload(texts: &Vec<String>) -> (list: Payload)
    ensures
        list@ == texts_payload(texts_view(texts@)),
{
    let mut items: Vec<Payload> = Vec::new();
    let mut i: usize = 0;
    while i < texts.len()
        invariant
            i <= texts.len(),
            items@.len() == i,
            forall|k: int| 0 <= k < i ==> (#[trigger] items@[k])@ == PayloadView::Text(texts@[k]@),
        decreases texts.len() - i,
    {
        items.push(Payload::Text(texts[i].clone()));
        i += 1;
    }
    proof {
        lemma_list_view(items);
        assert(items_view(items@) =~= texts_view(texts@).map_values(
            |text: Seq<char>| PayloadView::Text(text),
        ));
    }
    Payload::List(items)
}

/// The fields with which the written form of every schema begins.
fn head_fields(kind: &str, description: &Option<String>) -> (fields: Vec<(String, Payload)>)
    ensures
        fields_view(fields@) == schema_head(kind@, text_view(*description)),
{
    let mut fields: Vec<(String, Payload)> = Vec::new();
    fields.push((String::from_str("type"), Payload::Text(String::from_str(kind))));
    match description {
        Some(text) => {
            fields.push((String::from_str("description"), Payload::Text(text.clone())));
        },
        None => {},
    }
    fields
}

/// Adds one field at the end of the fields of an object.
fn push_field(fields: &mut Vec<(String, Payload)>, name: &str, value: Payload)
    ensures
        fields_view(final(fields)@) == fields_view(old(fields)@).push((name@, value@)),
{
    fields.push((String::from_str(name), value));
}

/// The object with these fields.
fn object_payload(fields: Vec<(String, Payload)>) -> (object: Payload)
    ensures
        object@ == PayloadView::Object(fields_view(fields@)),
{
    proof {
        lemma_object_view(fields);
    }
    Payload::Object(fields)
}

impl Schema {
    /// Writes the schema as the structured value that is handed to a
    /// generation service.
    pub fn to_payload(&self) -> (payload: Payload)
        ensures
            payload@ == schema_payload(self@),
        decreases self,
    {
        match self {
            Schema::Text { description, one_of } => {
                let mut fields = head_fields("string", description);
                match one_of {
                    Some(choices) => {
                        push_field(&mut fields, "enum", texts_to_payload(choices));
                    },
                    None => {},
                }
                object_payload(fields)
            },
            Schema::Number { description } => object_payload(head_fields("number", description)),
            Schema::Boolean { description } => object_payload(
                head_fields("boolean", description),
            ),
            Schema::Array { description, items } => {
                let mut fields = head_fields("array", description);
                push_field(&mut fields, "items", items.to_payload());
                object_payload(fields)
            },
            Schema::Object { description, properties, required } => {
                let mut written: Vec<(String, Payload)> = Vec::new();
                let mut i: usize = 0;
                while i < properties.len()
                    invariant
                        i <= properties.len(),
                        written@.len() == i,
                        *self == (Schema::Object {
                            description: *description,
                            properties: *properties,
                            required: *required,
                        }),
                        forall|k: int|
                            0 <= k < i ==> (#[trigger] written@[k]).0@ == properties@[k].0@
                                && written@[k].1@ == schema_payload(properties@[k].1@),
                    decreases properties.len() - i,
                {
                    let property = &properties[i];
                    proof {
                        assert(decreases_to!(*self => self->properties));
                    }
                    written.push((property.0.clone(), property.1.to_payload()));
                    i += 1;
                }
                let mut fields = head_fields("object", description);
                proof {
                    // The properties stand in the field that follows the head.
                    let after_head = fields_view(fields@).len() as int;
                    assert(fields_view(written@) =~= schema_payload(
                        self@,
                    )->Object_0[after_head].1->Object_0);
                }
                push_field(&mut fields, "properties", object_payload(written));
                push_field(&mut fields, "required", texts_to_payload(required));
                object_payload(fields)
            },
        }
    }
}

/// What a generation service is told of a tool: its name, what it is for,
/// and the shape of its arguments.
#[derive(Debug, PartialEq, Eq)]
pub struct ToolDefinition {
    pub name: String,
    pub description: String,
    pub parameters: Schema,
}

/// The mathematical value of a tool definition.
pub struct ToolDefinitionView {
    pub name: Seq<char>,
    pub description: Seq<char>,
    pub parameters: SchemaView,
}

impl View for ToolDefinition {
    type V = ToolDefinitionView;

    open spec fn view(&self) -> ToolDefinitionView {
        ToolDefinitionView {
            name: self.name@,
            description: self.description@,
            parameters: self.parameters@,
        }
    }
}

} // verus!
