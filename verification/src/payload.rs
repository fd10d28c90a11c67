//! The structured payload of a tool call: a tree of objects, lists and
//! scalars, as a generation service hands it over.

use vstd::prelude::*;

verus! {

/// A tool-call payload. An object keeps its fields in the order in which they
/// were written; a number keeps its decimal text.
#[derive(Debug, PartialEq, Eq)]
pub enum Payload {
    Null,
    Bool(bool),
    Number(String),
    Text(String),
    List(Vec<Payload>),
    Object(Vec<(String, Payload)>),
}

/// The mathematical value of a payload.
pub enum PayloadView {
    Null,
    Bool(bool),
    Number(Seq<char>),
    Text(Seq<char>),
    List(Seq<PayloadView>),
    Object(Seq<(Seq<char>, PayloadView)>),
}

/// The six shapes that a payload can have.
#[derive(Clone, Copy, Debug, PartialEq, Eq, Structural)]
pub enum PayloadKind {
    Null,
    Bool,
    Number,
    Text,
    List,
    Object,
}

/// The value of a payload: the same tree, with texts as sequences of
/// characters.
pub open spec fn payload_view(payload: Payload) -> PayloadView
    decreases payload,
{
    match payload {
        Payload::Null => PayloadView::Null,
        Payload::Bool(b) => PayloadView::Bool(b),
        Payload::Number(n) => PayloadView::Number(n@),
        Payload::Text(t) => PayloadView::Text(t@),
        Payload::List(items) => PayloadView::List(
            Seq::new(
                items@.len(),
                |i: int|
                    if 0 <= i < items@.len() {
                        payload_view(items@[i])
                    } else {
                        PayloadView::Null
                    },
            ),
        ),
        Payload::Object(fields) => PayloadView::Object(
            Seq::new(
                fields@.len(),
                |i: int|
                    if 0 <= i < fields@.len() {
                        (fields@[i].0@, payload_view(fields@[i].1))
                    } else {
                        (Seq::empty(), PayloadView::Null)
                    },
            ),
        ),
    }
}

impl PayloadKind {
    /// The shape in words, as it stands in a message.
    pub open spec fn spec_words(self) -> Seq<char> {
        match self {
            PayloadKind::Null => "null"@,
            PayloadKind::Bool => "a boolean"@,
            PayloadKind::Number => "a number"@,
            PayloadKind::Text => "a string"@,
            PayloadKind::List => "an array"@,
            PayloadKind::Object => "an object"@,
        }
    }

    /// The shape in words, as it stands in a message.
    pub fn words(&self) -> (words: &'static str)
        ensures
            words@ == self.spec_words(),
    {
        match self {
            PayloadKind::Null => "null",
            PayloadKind::Bool => "a boolean",
            PayloadKind::Number => "a number",
            PayloadKind::Text => "a string",
            PayloadKind::List => "an array",
            PayloadKind::Object => "an object",
        }
    }
}

impl View for Payload {
    type V = PayloadView;

    open spec fn view(&self) -> PayloadView {
        payload_view(*self)
    }
}

impl PayloadView {
    /// The shape of the payload.
    pub open spec fn kind(self) -> PayloadKind {
        match self {
            PayloadView::Null => PayloadKind::Null,
            PayloadView::Bool(_) => PayloadKind::Bool,
            PayloadView::Number(_) => PayloadKind::Number,
            PayloadView::Text(_) => PayloadKind::Text,
            PayloadView::List(_) => PayloadKind::List,
            PayloadView::Object(_) => PayloadKind::Object,
        }
    }
}

/// The value of the first field called `name`, if there is one.
pub open spec fn field_of(fields: Seq<(Seq<char>, PayloadView)>, name: Seq<char>) -> Option<
    PayloadView,
>
    decreases fields.len(),
{
    if fields.len() == 0 {
        None
    } else if fields[0].0 == name {
        Some(fields[0].1)
    } else {
        field_of(fields.drop_first(), name)
    }
}

/// The values of the fields of an object, in the order of the fields.
pub open spec fn fields_view(fields: Seq<(String, Payload)>) -> Seq<(Seq<char>, PayloadView)> {
    Seq::new(fields.len(), |i: int| (fields[i].0@, fields[i].1@))
}

/// The values of the items of a list, in the order of the items.
pub open spec fn items_view(items: Seq<Payload>) -> Seq<PayloadView> {
    Seq::new(items.len(), |i: int| items[i]@)
}

/// The view of an object is the view of its fields.
pub proof fn lemma_object_view(fields: Vec<(String, Payload)>)
    ensures
        Payload::Object(fields)@ == PayloadView::Object(fields_view(fields@)),
{
    let shown = Payload::Object(fields)@;
    assert forall|i: int| 0 <= i < fields@.len() implies shown->Object_0[i] == fields_view(
        fields@,
    )[i] by {}
    assert(shown->Object_0 =~= fields_view(fields@));
}

/// The view of a list is the view of its items.
pub proof fn lemma_list_view(items: Vec<Payload>)
    ensures
        Payload::List(items)@ == PayloadView::List(items_view(items@)),
{
    let shown = Payload::List(items)@;
    assert forall|i: int| 0 <= i < items@.len() implies shown->List_0[i] == items_view(
        items@,
    )[i] by {}
    assert(shown->List_0 =~= items_view(items@));
}

/// The value of the first field called `name` among `fields`, if any.
pub fn find_field<'a>(fields: &'a Vec<(String, Payload)>, name: &str) -> (found: Option<
    &'a Payload,
>)
    ensures
        match found {
            Some(value) => field_of(fields_view(fields@), name@) == Some(value@),
            None => field_of(fields_view(fields@), name@) is None,
        },
{
    let key = String::from_str(name);
    let ghost all = fields_view(fields@);
    let mut i: usize = 0;
    assert(all.skip(0) =~= all);
    while i < fields.len()
        invariant
            i <= fields.len(),
            all == fields_view(fields@),
            key@ == name@,
            field_of(all, name@) == field_of(all.skip(i as int), name@),
        decreases fields.len() - i,
    {
        assert(all.skip(i as int).drop_first() =~= all.skip(i + 1));
        if fields[i].0 == key {
            return Some(&fields[i].1);
        }
        i += 1;
    }
    None
}

impl Payload {
    /// The value of the first field called `name`, where the payload is an
    /// object that has one.
    pub fn field(&self, name: &str) -> (found: Option<&Payload>)
        ensures
            match found {
                Some(value) => self@ matches PayloadView::Object(fields) && field_of(fields, name@)
                    == Some(value@),
                None => self@ matches PayloadView::Object(fields) ==> field_of(fields, name@)
                    is None,
            },
    {
        match self {
            Payload::Object(fields) => {
                proof {
                    lemma_object_view(*fields);
                }
                find_field(fields, name)
            },
            _ => None,
        }
    }

    /// The shape of the payload.
    pub fn kind(&self) -> (kind: PayloadKind)
        ensures
            kind == self@.kind(),
    {
        match self {
            Payload::Null => PayloadKind::Null,
            Payload::Bool(_) => PayloadKind::Bool,
            Payload::Number(_) => PayloadKind::Number,
            Payload::Text(_) => PayloadKind::Text,
            Payload::List(_) => PayloadKind::List,
            Payload::Object(_) => PayloadKind::Object,
        }
    }
}

} // verus!
