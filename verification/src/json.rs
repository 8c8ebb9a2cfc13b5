//! What the state file's JSON holds, as `serde_json` reads it.

use crate::text;
use vstd::prelude::*;
use vstd::string::*;

verus! {

/// A value of `serde_json`.
#[verifier::external_type_specification]
#[verifier::external_body]
pub struct ExValue(serde_json::Value);

/// An error of `serde_json`.
#[verifier::external_type_specification]
#[verifier::external_body]
pub struct ExError(serde_json::Error);

/// What stands at one place in a JSON value.
pub enum Part {
    /// The null value.
    Null,
    /// A truth value.
    Flag(bool),
    /// An integer that fits in 64 bits without a sign.
    Unsigned(u64),
    /// Any other number, as JSON writes it.
    Number(Seq<char>),
    /// A string.
    Text(Seq<char>),
    /// A list with all that it holds, as JSON writes it.
    List(Seq<char>),
    /// An object. What its members hold stands below their names.
    Object,
}

/// The parts of a JSON value, each under the names of the object members that lead to it from
/// the outermost value, which itself stands under no name. They tell any two values apart.
pub uninterp spec fn parts(value: serde_json::Value) -> Map<Seq<Seq<char>>, Part>;

/// The parts of the value that a text denotes; `None` where `serde_json` refuses the text.
pub uninterp spec fn document(text: Seq<char>) -> Option<Map<Seq<Seq<char>>, Part>>;

/// The parts below the members that a path leads through.
pub open spec fn below(
    parts: Map<Seq<Seq<char>>, Part>,
    path: Seq<Seq<char>>,
) -> Map<Seq<Seq<char>>, Part> {
    Map::new(|rest: Seq<Seq<char>>| parts.contains_key(path + rest), |rest| parts[path + rest])
}

/// The unsigned integer at a path.
pub open spec fn unsigned_at(
    parts: Map<Seq<Seq<char>>, Part>,
    path: Seq<Seq<char>>,
) -> Option<u64> {
    if parts.contains_key(path) {
        match parts[path] {
            Part::Unsigned(n) => Some(n),
            _ => None,
        }
    } else {
        None
    }
}

/// The string at a path.
pub open spec fn text_at(
    parts: Map<Seq<Seq<char>>, Part>,
    path: Seq<Seq<char>>,
) -> Option<Seq<char>> {
    if parts.contains_key(path) {
        match parts[path] {
            Part::Text(text) => Some(text),
            _ => None,
        }
    } else {
        None
    }
}

/// Whether a member's name stands for itself in a JSON pointer, and for no position in an array.
pub open spec fn plain_name(name: Seq<char>) -> bool {
    &&& name.len() > 0
    &&& !text::is_digit(name[0])
    &&& !name.contains('/')
    &&& !name.contains('~')
}

/// Whether a path consists of plain names.
pub open spec fn plain_path(path: Seq<Seq<char>>) -> bool {
    forall|i: int| 0 <= i < path.len() ==> plain_name(#[trigger] path[i])
}

/// The JSON pointer for a path of plain names: each behind a slash.
pub open spec fn pointer(path: Seq<Seq<char>>) -> Seq<char>
    decreases path.len(),
{
    if path.len() == 0 {
        seq![]
    } else {
        pointer(path.drop_last()) + seq!['/'] + path.last()
    }
}

/// Reads a JSON text with `serde_json::from_str`. Whether the text is JSON, and what it then
/// holds, is a function of the text.
#[verifier::external_body]
pub(crate) fn parse(text: &str) -> (value: Result<serde_json::Value, serde_json::Error>)
    ensures
        match value {
            Ok(value) => document(text@) == Some(parts(value)),
            Err(_) => document(text@) is None,
        },
{
    serde_json::from_str(text)
}

/// Finds a member of an object with `serde_json::Value::get`, which looks a string up in an
/// object and finds nothing in any other value. What is found holds the parts below that
/// member; where nothing is found there are none.
#[verifier::external_body]
pub(crate) fn member<'a>(value: &'a serde_json::Value, name: &str) -> (found: Option<
    &'a serde_json::Value,
>)
    ensures
        match found {
            Some(inner) => parts(*inner) == below(parts(*value), seq![name@]),
            None => below(parts(*value), seq![name@]) == Map::<Seq<Seq<char>>, Part>::empty(),
        },
{
    value.get(name)
}

/// Finds what a JSON pointer addresses with `serde_json::Value::pointer`. A pointer made of plain
/// names leads from object to object, by one member each. What is found holds the parts below
/// these members; where nothing is found there are none. Of other pointers nothing is said.
#[verifier::external_body]
pub(crate) fn addressed<'a>(value: &'a serde_json::Value, address: &str) -> (found: Option<
    &'a serde_json::Value,
>)
    ensures
        forall|path: Seq<Seq<char>>|
            #[trigger] pointer(path) == address@ && plain_path(path) ==> match found {
                Some(inner) => parts(*inner) == below(parts(*value), path),
                None => below(parts(*value), path) == Map::<Seq<Seq<char>>, Part>::empty(),
            },
{
    value.pointer(address)
}

/// The number that `serde_json::Value::as_u64` finds in a value: the value itself, where it is
/// an integer that fits.
#[verifier::external_body]
pub(crate) fn as_unsigned(value: &serde_json::Value) -> (number: Option<u64>)
    ensures
        number == unsigned_at(parts(*value), seq![]),
{
    value.as_u64()
}

/// The text that `serde_json::Value::as_str` finds in a value: the value itself, where it is a
/// string.
#[verifier::external_body]
pub(crate) fn as_text<'a>(value: &'a serde_json::Value) -> (text: Option<&'a str>)
    ensures
        match text {
            Some(text) => text_at(parts(*value), seq![]) == Some(text@),
            None => text_at(parts(*value), seq![]) is None,
        },
{
    value.as_str()
}

/// The unsigned integer under a name in a JSON object.
pub(crate) fn unsigned_member(value: &serde_json::Value, name: &str) -> (number: Option<u64>)
    ensures
        number == unsigned_at(parts(*value), seq![name@]),
{
    proof {
        lemma_below(parts(*value), seq![name@]);
    }
    match member(value, name) {
        Some(inner) => as_unsigned(inner),
        None => None,
    }
}

/// The string under a name in a JSON object.
pub(crate) fn text_member(value: &serde_json::Value, name: &str) -> (text: Option<String>)
    ensures
        text::text_of(text) == text_at(parts(*value), seq![name@]),
{
    proof {
        lemma_below(parts(*value), seq![name@]);
    }
    match member(value, name) {
        Some(inner) => match as_text(inner) {
            Some(text) => Some(String::from_str(text)),
            None => None,
        },
        None => None,
    }
}

/// The string that a JSON pointer addresses.
pub(crate) fn text_addressed(value: &serde_json::Value, address: &str) -> (text: Option<String>)
    ensures
        forall|path: Seq<Seq<char>>|
            #[trigger] pointer(path) == address@ && plain_path(path) ==> text::text_of(text)
                == text_at(parts(*value), path),
{
    proof {
        assert forall|path: Seq<Seq<char>>|
            #[trigger] pointer(path) == address@ && plain_path(path) implies text_at(
            below(parts(*value), path),
            seq![],
        ) == text_at(parts(*value), path) by {
            lemma_below(parts(*value), path);
        }
    }
    match addressed(value, address) {
        Some(inner) => match as_text(inner) {
            Some(text) => Some(String::from_str(text)),
            None => None,
        },
        None => None,
    }
}

proof fn lemma_below(all: Map<Seq<Seq<char>>, Part>, path: Seq<Seq<char>>)
    ensures
        unsigned_at(below(all, path), seq![]) == unsigned_at(all, path),
        text_at(below(all, path), seq![]) == text_at(all, path),
{
    assert(path + seq![] =~= path);
}

/// A number or a string is found at a path exactly where it stands there.
pub proof fn law_parts_are_found_where_they_stand(
    all: Map<Seq<Seq<char>>, Part>,
    path: Seq<Seq<char>>,
    number: u64,
    text: Seq<char>,
)
    ensures
        unsigned_at(all, path) == Some(number) <==> all.contains_key(path) && all[path]
            == Part::Unsigned(number),
        text_at(all, path) == Some(text) <==> all.contains_key(path) && all[path] == Part::Text(
            text,
        ),
{
}

} // verus!
