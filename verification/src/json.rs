//! JSON documents of the operations endpoints.
use vstd::prelude::*;

verus! {

/// A JSON document. A number keeps its value only if it is an unsigned integer.
#[derive(Debug, PartialEq, Eq)]
pub enum Json {
    Null,
    Bool(bool),
    Number(Option<u64>),
    Text(String),
    List(Vec<Json>),
    Object(Vec<(String, Json)>),
}

/// The plain values of a JSON document.
pub enum JsonView {
    Null,
    Bool(bool),
    Number(Option<u64>),
    Text(Seq<char>),
    List(Seq<JsonView>),
    Object(Seq<(Seq<char>, JsonView)>),
}

/// The plain values of a JSON document, item by item.
pub open spec fn json_view(json: Json) -> JsonView
    decreases json,
{
    match json {
        Json::Null => JsonView::Null,
        Json::Bool(value) => JsonView::Bool(value),
        Json::Number(value) => JsonView::Number(value),
        Json::Text(text) => JsonView::Text(text@),
        Json::List(items) => JsonView::List(
            Seq::new(
                items@.len(),
                |i: int|
                    if 0 <= i < items@.len() {
                        json_view(items@[i])
                    } else {
                        JsonView::Null
                    },
            ),
        ),
        Json::Object(entries) => JsonView::Object(
            Seq::new(
                entries@.len(),
                |i: int|
                    if 0 <= i < entries@.len() {
                        (entries@[i].0@, json_view(entries@[i].1))
                    } else {
                        (Seq::empty(), JsonView::Null)
                    },
            ),
        ),
    }
}

impl View for Json {
    type V = JsonView;

    open spec fn view(&self) -> JsonView {
        json_view(*self)
    }
}

/// `serde_json::Value`, an untyped JSON document.
#[verifier::external_type_specification]
#[verifier::external_body]
pub struct ExJsonValue(serde_json::Value);

/// What `serde_json::from_slice` reads from a byte sequence: the document, or the text of the
/// error.
pub uninterp spec fn json_document(bytes: Seq<u8>) -> Result<JsonView, Seq<char>>;

/// Convert a `serde_json::Value`, variant by variant and item by item, with
/// `serde_json::Number::as_u64` for a number. Nothing is claimed of the result here.
#[verifier::external_body]
fn json_tree(value: serde_json::Value) -> Json {
    match value {
        serde_json::Value::Null => Json::Null,
        serde_json::Value::Bool(value) => Json::Bool(value),
        serde_json::Value::Number(value) => Json::Number(value.as_u64()),
        serde_json::Value::String(value) => Json::Text(value),
        serde_json::Value::Array(values) => Json::List(values.into_iter().map(json_tree).collect()),
        serde_json::Value::Object(values) => Json::Object(
            values.into_iter().map(|(key, value)| (key, json_tree(value))).collect(),
        ),
    }
}

/// `serde_json::from_slice` into a `serde_json::Value`. The document and the text of the error
/// depend on the bytes alone. What they are is not stated.
#[verifier::external_body]
fn parse_json(bytes: &[u8]) -> (r: Result<Json, String>)
    ensures
        match (r, json_document(bytes@)) {
            (Ok(document), Ok(expected)) => document@ == expected,
            (Err(error), Err(text)) => error@ == text,
            _ => false,
        },
{
    match serde_json::from_slice::<serde_json::Value>(bytes) {
        Ok(value) => Ok(json_tree(value)),
        Err(error) => Err(error.to_string()),
    }
}

/// The index of the first entry with key `key`, from index `from` on.
pub open spec fn find_key(
    entries: Seq<(Seq<char>, JsonView)>,
    key: Seq<char>,
    from: int,
) -> Option<int>
    decreases entries.len() - from,
{
    if from < 0 || from >= entries.len() {
        None
    } else if entries[from].0 == key {
        Some(from)
    } else {
        find_key(entries, key, from + 1)
    }
}

impl JsonView {
    /// The value of `key` in an object.
    pub open spec fn spec_get(self, key: Seq<char>) -> Option<JsonView> {
        match self {
            JsonView::Object(entries) => match find_key(entries, key, 0) {
                Some(index) => Some(entries[index].1),
                None => None,
            },
            _ => None,
        }
    }

    /// Whether the value of `key` is the boolean `value`.
    pub open spec fn spec_has_bool(self, key: Seq<char>, value: bool) -> bool {
        self.spec_get(key) == Some(JsonView::Bool(value))
    }

    /// Whether the value of `key` is the text `value`.
    pub open spec fn spec_has_text(self, key: Seq<char>, value: Seq<char>) -> bool {
        self.spec_get(key) matches Some(JsonView::Text(text)) && text == value
    }

    /// The unsigned integer that is the value of `key`.
    pub open spec fn spec_unsigned(self, key: Seq<char>) -> Option<u64> {
        match self.spec_get(key) {
            Some(JsonView::Number(value)) => value,
            _ => None,
        }
    }
}

impl Json {
    /// Parse a document.
    pub fn parse(bytes: &[u8]) -> (r: Result<Json, String>)
        ensures
            match (r, json_document(bytes@)) {
                (Ok(document), Ok(expected)) => document@ == expected,
                (Err(error), Err(text)) => error@ == text,
                _ => false,
            },
    {
        parse_json(bytes)
    }

    pub fn is_object(&self) -> (r: bool)
        ensures
            r == (self@ is Object),
    {
        match self {
            Json::Object(_) => true,
            _ => false,
        }
    }

    pub fn get(&self, key: &str) -> (r: Option<&Json>)
        ensures
            match r {
                Some(value) => self@.spec_get(key@) == Some(value@),
                None => self@.spec_get(key@) is None,
            },
    {
        match self {
            Json::Object(entries) => {
                let wanted = key.to_owned();
                let ghost parts = self@->Object_0;
                let mut index: usize = 0;
                while index < entries.len()
                    invariant
                        index <= entries@.len(),
                        wanted@ == key@,
                        *self == Json::Object(*entries),
                        self@ == JsonView::Object(parts),
                        parts.len() == entries@.len(),
                        forall|i: int|
                            0 <= i < parts.len() ==> #[trigger] parts[i] == (
                                entries@[i].0@,
                                entries@[i].1@,
                            ),
                        find_key(parts, key@, 0) == find_key(parts, key@, index as int),
                    decreases entries.len() - index,
                {
                    let entry = &entries[index];
                    assert(parts[index as int] == (entry.0@, entry.1@));
                    if entry.0 == wanted {
                        return Some(&entry.1);
                    }
                    index = index + 1;
                }
                None
            },
            _ => None,
        }
    }

    pub fn has_bool(&self, key: &str, value: bool) -> (r: bool)
        ensures
            r == self@.spec_has_bool(key@, value),
    {
        match self.get(key) {
            Some(Json::Bool(found)) => *found == value,
            _ => false,
        }
    }

    pub fn has_text(&self, key: &str, value: &str) -> (r: bool)
        ensures
            r == self@.spec_has_text(key@, value@),
    {
        match self.get(key) {
            Some(Json::Text(found)) => *found == value.to_owned(),
            _ => false,
        }
    }

    pub fn unsigned(&self, key: &str) -> (r: Option<u64>)
        ensures
            r == self@.spec_unsigned(key@),
    {
        match self.get(key) {
            Some(Json::Number(value)) => *value,
            _ => None,
        }
    }
}

} // verus!
