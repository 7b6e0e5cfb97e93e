//! JSON documents as trees.
//!
//! Reading the text of a document is left to `serde_json`. What it reads is
//! held here as a [`Json`], a tree of plain values that the rest of the
//! library can look into.

use crate::error::ScrapeError;
use vstd::prelude::*;

verus! {

/// A JSON document, or a part of one.
#[derive(Debug, PartialEq)]
pub enum Json {
    Null,
    Bool(bool),
    /// A number. `integer` is its value where that is a whole number from
    /// `i64::MIN` to `i64::MAX`, and `None` for every other number.
    Number { integer: Option<i64> },
    Text(String),
    Array(Vec<Json>),
    /// An object: its members, each a name and a value.
    Object(Vec<(String, Json)>),
}

/// A [`Json`] as specifications see it.
pub enum JsonValue {
    Null,
    Bool(bool),
    Number { integer: Option<i64> },
    Text(Seq<char>),
    Array(Seq<JsonValue>),
    Object(Seq<(Seq<char>, JsonValue)>),
}

/// The tree that `tree` holds, as specifications see it.
pub open spec fn tree_view(tree: Json) -> JsonValue
    decreases tree,
{
    match tree {
        Json::Null => JsonValue::Null,
        Json::Bool(b) => JsonValue::Bool(b),
        Json::Number { integer } => JsonValue::Number { integer },
        Json::Text(text) => JsonValue::Text(text@),
        Json::Array(items) => JsonValue::Array(
            Seq::new(
                items.len() as nat,
                |i: int|
                    if 0 <= i < items.len() {
                        tree_view(items[i])
                    } else {
                        JsonValue::Null
                    },
            ),
        ),
        Json::Object(members) => JsonValue::Object(
            Seq::new(
                members.len() as nat,
                |i: int|
                    if 0 <= i < members.len() {
                        (members[i].0@, tree_view(members[i].1))
                    } else {
                        (Seq::empty(), JsonValue::Null)
                    },
            ),
        ),
    }
}

impl View for Json {
    type V = JsonValue;

    open spec fn view(&self) -> JsonValue {
        tree_view(*self)
    }
}

impl Json {
    /// The view of an array holds the views of its items.
    pub proof fn lemma_array_view(items: Vec<Json>)
        ensures
            Json::Array(items)@ is Array,
            Json::Array(items)@->Array_0.len() == items.len(),
            forall|i: int|
                0 <= i < items.len() ==> (#[trigger] Json::Array(items)@->Array_0[i]) == items[i]@,
    {
    }

    /// The view of an object holds the names and the views of its members.
    pub proof fn lemma_object_view(members: Vec<(String, Json)>)
        ensures
            Json::Object(members)@ is Object,
            Json::Object(members)@->Object_0.len() == members.len(),
            forall|i: int|
                0 <= i < members.len() ==> (#[trigger] Json::Object(members)@->Object_0[i]) == (
                    members[i].0@,
                    members[i].1@,
                ),
    {
    }
}

impl Clone for Json {
    /// A tree of its own that holds what this one holds.
    fn clone(&self) -> (copy: Json)
        ensures
            copy@ == self@,
        decreases self,
    {
        match self {
            Json::Null => Json::Null,
            Json::Bool(b) => Json::Bool(*b),
            Json::Number { integer } => Json::Number { integer: *integer },
            Json::Text(text) => Json::Text(text.clone()),
            Json::Array(items) => {
                let mut copies: Vec<Json> = Vec::new();
                let mut i: usize = 0;
                while i < items.len()
                    invariant
                        i <= items.len(),
                        *self == Json::Array(*items),
                        copies.len() == i,
                        forall|j: int| 0 <= j < i ==> copies[j]@ == items[j]@,
                    decreases items.len() - i,
                {
                    proof {
                        assert(self->Array_0 == *items);
                    }
                    copies.push(items[i].clone());
                    i += 1;
                }
                proof {
                    Json::lemma_array_view(*items);
                    Json::lemma_array_view(copies);
                    assert(Json::Array(copies)@->Array_0 =~= self@->Array_0);
                }
                Json::Array(copies)
            },
            Json::Object(members) => {
                let mut copies: Vec<(String, Json)> = Vec::new();
                let mut i: usize = 0;
                while i < members.len()
                    invariant
                        i <= members.len(),
                        *self == Json::Object(*members),
                        copies.len() == i,
                        forall|j: int|
                            0 <= j < i ==> copies[j].0@ == members[j].0@ && copies[j].1@
                                == members[j].1@,
                    decreases members.len() - i,
                {
                    proof {
                        assert(self->Object_0 == *members);
                    }
                    copies.push((members[i].0.clone(), members[i].1.clone()));
                    i += 1;
                }
                proof {
                    Json::lemma_object_view(*members);
                    Json::lemma_object_view(copies);
                    assert(Json::Object(copies)@->Object_0 =~= self@->Object_0);
                }
                Json::Object(copies)
            },
        }
    }
}

/// The names of the members of an object, in the members' order.
pub open spec fn names(members: Seq<(Seq<char>, JsonValue)>) -> Seq<Seq<char>> {
    members.map_values(|member: (Seq<char>, JsonValue)| member.0)
}

impl JsonValue {
    /// The value of the first member called `name`, where this is an object
    /// that has such a member.
    pub open spec fn member(self, name: Seq<char>) -> Option<JsonValue> {
        match self {
            JsonValue::Object(members) => match names(members).index_of_first(name) {
                Some(place) => Some(members[place].1),
                None => None,
            },
            _ => None,
        }
    }

    /// The item at `index`, where this is an array that is long enough.
    pub open spec fn element(self, index: int) -> Option<JsonValue> {
        match self {
            JsonValue::Array(items) => if 0 <= index < items.len() {
                Some(items[index])
            } else {
                None
            },
            _ => None,
        }
    }
}

/// `serde_json::Value`, of which nothing is known here but what
/// [`contents`] names.
#[verifier::external_type_specification]
#[verifier::external_body]
pub struct ExValue(serde_json::Value);

/// `serde_json::Error`, of which nothing is known here.
#[verifier::external_type_specification]
#[verifier::external_body]
pub struct ExError(serde_json::Error);

/// What `serde_json::from_str` reads from `text` as a `serde_json::Value`,
/// seen as a tree; `None` where it reports an error.
pub uninterp spec fn document(text: Seq<char>) -> Option<JsonValue>;

/// The tree that a `serde_json::Value` holds. The members of an object
/// stand in the order in which its map hands them out.
pub uninterp spec fn contents(value: serde_json::Value) -> JsonValue;

/// Calls `serde_json::from_str` for a `serde_json::Value`. The contract
/// gives what it returns a name, [`document`], and claims nothing else: the
/// same text is read as the same tree, or refused, every time.
#[verifier::external_body]
fn value_from_text(text: &str) -> (read: Result<serde_json::Value, serde_json::Error>)
    ensures
        match read {
            Ok(value) => document(text@) == Some(contents(value)),
            Err(_) => document(text@) is None,
        },
{
    serde_json::from_str(text)
}

/// Takes a `serde_json::Value` apart, variant by variant, and makes the
/// same tree of it as a [`Json`]. A number keeps what
/// `serde_json::Number::as_i64` says of it.
#[verifier::external_body]
fn tree_of_value(value: serde_json::Value) -> (tree: Json)
    ensures
        tree@ == contents(value),
{
    match value {
        serde_json::Value::Null => Json::Null,
        serde_json::Value::Bool(b) => Json::Bool(b),
        serde_json::Value::Number(n) => Json::Number { integer: n.as_i64() },
        serde_json::Value::String(text) => Json::Text(text),
        serde_json::Value::Array(items) => Json::Array(
            items.into_iter().map(tree_of_value).collect(),
        ),
        serde_json::Value::Object(members) => Json::Object(
            members.into_iter().map(|(name, value)| (name, tree_of_value(value))).collect(),
        ),
    }
}

impl vstd::std_specs::convert::FromSpecImpl<serde_json::Error> for ScrapeError {
    open spec fn obeys_from_spec() -> bool {
        true
    }

    open spec fn from_spec(error: serde_json::Error) -> ScrapeError {
        ScrapeError::ProfileJsonParseError
    }
}

impl From<serde_json::Error> for ScrapeError {
    /// Whatever `serde_json` objects to, the data could not be parsed.
    fn from(_error: serde_json::Error) -> (converted: ScrapeError) {
        ScrapeError::ProfileJsonParseError
    }
}

impl Json {
    /// Reads a JSON document.
    pub fn parse(text: &str) -> (read: Result<Json, ScrapeError>)
        ensures
            match read {
                Ok(tree) => document(text@) == Some(tree@),
                Err(error) => document(text@) is None && error
                    == ScrapeError::ProfileJsonParseError,
            },
    {
        match value_from_text(text) {
            Ok(value) => Ok(tree_of_value(value)),
            Err(error) => Err(ScrapeError::from(error)),
        }
    }

    /// The value of the first member called `name`, where this is an object
    /// that has such a member.
    pub fn member(&self, name: &str) -> (found: Option<&Json>)
        ensures
            match found {
                Some(value) => self@.member(name@) == Some(value@),
                None => self@.member(name@) is None,
            },
    {
        match self {
            Json::Object(members) => {
                let wanted = name.to_owned();
                let ghost all = names(self@->Object_0);
                proof {
                    Json::lemma_object_view(*members);
                }
                let mut place: usize = 0;
                while place < members.len()
                    invariant
                        place <= members.len(),
                        wanted@ == name@,
                        self@ is Object,
                        all == names(self@->Object_0),
                        all.len() == members.len(),
                        forall|j: int|
                            0 <= j < members.len() ==> (#[trigger] self@->Object_0[j]) == (
                                members[j].0@,
                                members[j].1@,
                            ),
                        forall|j: int| 0 <= j < place ==> all[j] != name@,
                    decreases members.len() - place,
                {
                    assert(all[place as int] == self@->Object_0[place as int].0);
                    if members[place].0 == wanted {
                        proof {
                            all.index_of_first_ensures(name@);
                        }
                        return Some(&members[place].1);
                    }
                    place += 1;
                }
                proof {
                    all.index_of_first_ensures(name@);
                }
                None
            },
            _ => None,
        }
    }

    /// The item at `index`, where this is an array that is long enough.
    pub fn element(&self, index: usize) -> (found: Option<&Json>)
        ensures
            match found {
                Some(value) => self@.element(index as int) == Some(value@),
                None => self@.element(index as int) is None,
            },
    {
        match self {
            Json::Array(items) => {
                proof {
                    Json::lemma_array_view(*items);
                }
                if index < items.len() {
                    Some(&items[index])
                } else {
                    None
                }
            },
            _ => None,
        }
    }
}

} // verus!
