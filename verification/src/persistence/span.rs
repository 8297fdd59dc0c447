//! What the spans of storage operations tell.

use vstd::prelude::*;

use crate::persistence::error::MemoryDBError;
use crate::persistence::worker::OpType;

verus! {

/// What an attribute says.
#[derive(Debug)]
pub enum AttributeValue {
    Text(String),
    /// A length in bytes.
    Length(usize),
    Flag(bool),
    /// The refusal that the operation met, in full.
    Refusal,
}

/// What an `AttributeValue` says.
pub enum AttributeValueView {
    Text(Seq<char>),
    Length(usize),
    Flag(bool),
    Refusal,
}

impl View for AttributeValue {
    type V = AttributeValueView;

    open spec fn view(&self) -> AttributeValueView {
        match *self {
            AttributeValue::Text(text) => AttributeValueView::Text(text@),
            AttributeValue::Length(length) => AttributeValueView::Length(length),
            AttributeValue::Flag(flag) => AttributeValueView::Flag(flag),
            AttributeValue::Refusal => AttributeValueView::Refusal,
        }
    }
}

/// An attribute of a span or of an event.
#[derive(Debug)]
pub struct Attribute {
    pub name: String,
    pub value: AttributeValue,
}

impl View for Attribute {
    type V = (Seq<char>, AttributeValueView);

    open spec fn view(&self) -> (Seq<char>, AttributeValueView) {
        (self.name@, self.value@)
    }
}

/// Attributes, one after the other.
pub open spec fn attributes_view(attributes: Seq<Attribute>) -> Seq<
    (Seq<char>, AttributeValueView),
> {
    attributes.map_values(|attribute: Attribute| attribute@)
}

/// Something that happened during a span.
#[derive(Debug)]
pub struct Happening {
    pub name: String,
    pub attributes: Vec<Attribute>,
}

/// How what a span stands for came out.
#[derive(Debug)]
pub enum Outcome {
    Unset,
    Done,
    Failed(String),
}

/// What is noted on a span.
#[derive(Debug)]
pub struct Notes {
    pub attributes: Vec<Attribute>,
    pub happening: Option<Happening>,
    pub outcome: Outcome,
}

/// Whether `notes` has these attributes.
pub open spec fn has_attributes(
    notes: Notes,
    attributes: Seq<(Seq<char>, AttributeValueView)>,
) -> bool {
    attributes_view(notes.attributes@) == attributes
}

/// Whether `notes` tells of this having happened.
pub open spec fn tells_of(
    notes: Notes,
    name: Seq<char>,
    attributes: Seq<(Seq<char>, AttributeValueView)>,
) -> bool {
    notes.happening matches Some(happening) && happening.name@ == name && attributes_view(
        happening.attributes@,
    ) == attributes
}

/// The length of a text in bytes.
pub open spec fn byte_length(text: Seq<char>) -> usize {
    vstd::utf8::encode_utf8(text).len() as usize
}

/// The attribute `key`.
pub open spec fn key_view(key: Seq<char>) -> (Seq<char>, AttributeValueView) {
    ("key"@, AttributeValueView::Text(key))
}

/// The name of a kind of operation.
pub open spec fn operation_name(op_type: OpType) -> Seq<char> {
    match op_type {
        OpType::Put(..) => "SET"@,
        OpType::Delete(_) => "DELETE"@,
        OpType::Get(_) => "GET"@,
        OpType::Stop => "STOP"@,
    }
}

/// The attributes of an operation's span.
pub open spec fn operation_view(op_type: OpType) -> Seq<(Seq<char>, AttributeValueView)> {
    let operation = ("operation"@, AttributeValueView::Text(operation_name(op_type)));
    match op_type {
        OpType::Put(key, value) => seq![
            key_view(key@),
            ("value_size"@, AttributeValueView::Length(byte_length(value@))),
            operation,
        ],
        OpType::Delete(key) => seq![key_view(key@), operation],
        OpType::Get(key) => seq![key_view(key@), operation],
        OpType::Stop => seq![operation],
    }
}

/// The attributes of what a span tells of an operation that was carried out
/// and answered with `text`.
pub open spec fn success_view(op_type: OpType, text: Seq<char>) -> Seq<
    (Seq<char>, AttributeValueView),
> {
    match op_type {
        OpType::Put(key, value) => seq![
            key_view(key@),
            ("value_length"@, AttributeValueView::Length(byte_length(value@))),
        ],
        OpType::Delete(key) => seq![key_view(key@)],
        OpType::Get(key) => seq![
            key_view(key@),
            ("value_length"@, AttributeValueView::Length(byte_length(text))),
        ],
        OpType::Stop => seq![],
    }
}

/// The attributes of what a span tells of an operation that was refused.
pub open spec fn refusal_view(op_type: OpType) -> Seq<(Seq<char>, AttributeValueView)> {
    let refusal = ("error"@, AttributeValueView::Refusal);
    match op_type {
        OpType::Put(key, _) => seq![key_view(key@), refusal],
        OpType::Delete(key) => seq![key_view(key@), refusal],
        OpType::Get(key) => seq![key_view(key@), refusal],
        OpType::Stop => seq![],
    }
}

fn key_attribute(key: &String) -> (attribute: Attribute)
    ensures
        attribute@ == key_view(key@),
{
    Attribute { name: "key".to_string(), value: AttributeValue::Text(key.clone()) }
}

fn length_attribute(name: &str, text: &String) -> (attribute: Attribute)
    ensures
        attribute@ == (name@, AttributeValueView::Length(byte_length(text@))),
{
    Attribute { name: name.to_string(), value: AttributeValue::Length(text.as_str().len()) }
}

fn name_of(op_type: &OpType) -> (name: String)
    ensures
        name@ == operation_name(*op_type),
{
    match op_type {
        OpType::Put(..) => "SET".to_string(),
        OpType::Delete(_) => "DELETE".to_string(),
        OpType::Get(_) => "GET".to_string(),
        OpType::Stop => "STOP".to_string(),
    }
}

/// The key that an operation is about.
pub open spec fn key_of(op_type: OpType) -> Option<String> {
    match op_type {
        OpType::Put(key, _) => Some(key),
        OpType::Delete(key) => Some(key),
        OpType::Get(key) => Some(key),
        OpType::Stop => None,
    }
}

/// The key that an operation is about.
pub fn operation_key(op_type: &OpType) -> (key: Option<String>)
    ensures
        key == key_of(*op_type),
{
    match op_type {
        OpType::Put(key, _) => Some(key.clone()),
        OpType::Delete(key) => Some(key.clone()),
        OpType::Get(key) => Some(key.clone()),
        OpType::Stop => None,
    }
}

/// What is noted on an operation's span once the operation has been carried out
/// or refused. How it came out is noted only where it was `answered`, and never
/// of one that says to stop.
pub fn operation_notes(
    op_type: &OpType,
    reply: &Result<String, MemoryDBError>,
    answered: bool,
) -> (notes: Notes)
    ensures
        has_attributes(notes, operation_view(*op_type)),
        if op_type is Stop || !answered {
            notes.happening is None && notes.outcome is Unset
        } else {
            match *reply {
                Ok(text) => notes.outcome is Done && tells_of(
                    notes,
                    operation_name(*op_type) + " operation successful"@,
                    success_view(*op_type, text@),
                ),
                Err(error) => {
                    &&& notes.outcome matches Outcome::Failed(told) && told@ == "MemoryDB Error: "@
                        + error@
                    &&& tells_of(
                        notes,
                        operation_name(*op_type) + " operation failed"@,
                        refusal_view(*op_type),
                    )
                },
            }
        },
{
    let name = name_of(op_type);
    let mut attributes: Vec<Attribute> = Vec::new();
    let mut told: Vec<Attribute> = Vec::new();
    if let Some(key) = operation_key(op_type) {
        attributes.push(key_attribute(&key));
        told.push(key_attribute(&key));
    }
    if let OpType::Put(_, value) = op_type {
        attributes.push(length_attribute("value_size", value));
    }
    attributes.push(
        Attribute { name: "operation".to_string(), value: AttributeValue::Text(name.clone()) },
    );
    assert(attributes_view(attributes@) =~= operation_view(*op_type));
    if let OpType::Stop = op_type {
        return Notes { attributes, happening: None, outcome: Outcome::Unset };
    }
    if !answered {
        return Notes { attributes, happening: None, outcome: Outcome::Unset };
    }
    match reply {
        Ok(text) => {
            match op_type {
                OpType::Put(_, value) => told.push(length_attribute("value_length", value)),
                OpType::Get(_) => told.push(length_attribute("value_length", text)),
                _ => {},
            }
            assert(attributes_view(told@) =~= success_view(*op_type, text@));
            let happening = Happening {
                name: name.concat(" operation successful"),
                attributes: told,
            };
            Notes { attributes, happening: Some(happening), outcome: Outcome::Done }
        },
        Err(error) => {
            told.push(Attribute { name: "error".to_string(), value: AttributeValue::Refusal });
            assert(attributes_view(told@) =~= refusal_view(*op_type));
            let happening = Happening { name: name.concat(" operation failed"), attributes: told };
            Notes { attributes, happening: Some(happening), outcome: Outcome::Failed(error.text()) }
        },
    }
}

/// What is noted on the span of the storage in memory, where `held` is the text
/// that was under the operation's key before, if any.
pub fn store_notes(op_type: &OpType, held: &Option<String>) -> (notes: Notes)
    ensures
        match *op_type {
            OpType::Put(key, value) => {
                &&& has_attributes(notes, seq![])
                &&& notes.outcome is Done
                &&& tells_of(
                    notes,
                    "setting value in memory database"@,
                    seq![
                        key_view(key@),
                        ("value.size"@, AttributeValueView::Length(byte_length(value@))),
                    ],
                )
            },
            OpType::Delete(_) => {
                &&& has_attributes(
                    notes,
                    seq![("key.deleted"@, AttributeValueView::Flag(held is Some))],
                )
                &&& notes.outcome is Done
                &&& notes.happening is None
            },
            OpType::Get(key) => {
                &&& has_attributes(notes, seq![])
                &&& match *held {
                    Some(value) => notes.outcome is Done && tells_of(
                        notes,
                        "retrieved value from memory database"@,
                        seq![
                            key_view(key@),
                            ("value.size"@, AttributeValueView::Length(byte_length(value@))),
                        ],
                    ),
                    None => {
                        &&& notes.outcome matches Outcome::Failed(told) && told@ == "key not found"@
                        &&& tells_of(
                            notes,
                            "key not found in memory database"@,
                            seq![key_view(key@)],
                        )
                    },
                }
            },
            OpType::Stop => {
                &&& has_attributes(notes, seq![])
                &&& notes.outcome is Unset
                &&& notes.happening is None
            },
        },
{
    let mut attributes: Vec<Attribute> = Vec::new();
    let mut told: Vec<Attribute> = Vec::new();
    assert(attributes_view(attributes@) =~= seq![]);
    match op_type {
        OpType::Put(key, value) => {
            told.push(key_attribute(key));
            told.push(length_attribute("value.size", value));
            assert(attributes_view(told@) =~= seq![
                key_view(key@),
                ("value.size"@, AttributeValueView::Length(byte_length(value@))),
            ]);
            let happening = Happening {
                name: "setting value in memory database".to_string(),
                attributes: told,
            };
            Notes { attributes, happening: Some(happening), outcome: Outcome::Done }
        },
        OpType::Delete(_) => {
            attributes.push(
                Attribute {
                    name: "key.deleted".to_string(),
                    value: AttributeValue::Flag(held.is_some()),
                },
            );
            assert(attributes_view(attributes@) =~= seq![
                ("key.deleted"@, AttributeValueView::Flag(held is Some)),
            ]);
            Notes { attributes, happening: None, outcome: Outcome::Done }
        },
        OpType::Get(key) => {
            told.push(key_attribute(key));
            match held {
                Some(value) => {
                    told.push(length_attribute("value.size", value));
                    assert(attributes_view(told@) =~= seq![
                        key_view(key@),
                        ("value.size"@, AttributeValueView::Length(byte_length(value@))),
                    ]);
                    let happening = Happening {
                        name: "retrieved value from memory database".to_string(),
                        attributes: told,
                    };
                    Notes { attributes, happening: Some(happening), outcome: Outcome::Done }
                },
                None => {
                    assert(attributes_view(told@) =~= seq![key_view(key@)]);
                    let happening = Happening {
                        name: "key not found in memory database".to_string(),
                        attributes: told,
                    };
                    Notes {
                        attributes,
                        happening: Some(happening),
                        outcome: Outcome::Failed("key not found".to_string()),
                    }
                },
            }
        },
        OpType::Stop => Notes { attributes, happening: None, outcome: Outcome::Unset },
    }
}

} // verus!
