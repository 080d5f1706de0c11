//! A plain model of JSON values.
//!
//! `serde_json` reads and writes JSON text. The rest of the library works on
//! `JsonValue`, a tree of plain values, and states its contracts over the
//! mathematical view `JsonView`.

use vstd::prelude::*;

verus! {

/// A JSON value.
///
/// A number is held as its JSON text. Among the members of an object the last
/// one with a given name counts, as when a JSON text repeats a name.
#[derive(Debug, PartialEq)]
pub enum JsonValue {
    Null,
    Bool(bool),
    Number(String),
    Text(String),
    Array(Vec<JsonValue>),
    Object(Vec<(String, JsonValue)>),
}

/// The mathematical value of a `JsonValue`.
pub enum JsonView {
    Null,
    Bool(bool),
    Number(Seq<char>),
    Text(Seq<char>),
    Array(Seq<JsonView>),
    Object(Seq<(Seq<char>, JsonView)>),
}

/// The mathematical value that `j` stands for.
pub open spec fn value_view(j: JsonValue) -> JsonView
    decreases j,
{
    match j {
        JsonValue::Null => JsonView::Null,
        JsonValue::Bool(b) => JsonView::Bool(b),
        JsonValue::Number(n) => JsonView::Number(n@),
        JsonValue::Text(s) => JsonView::Text(s@),
        JsonValue::Array(items) => JsonView::Array(
            Seq::new(
                items@.len(),
                |i: int|
                    if 0 <= i < items@.len() {
                        value_view(items@[i])
                    } else {
                        JsonView::Null
                    },
            ),
        ),
        JsonValue::Object(members) => JsonView::Object(
            Seq::new(
                members@.len(),
                |i: int|
                    if 0 <= i < members@.len() {
                        (members@[i].0@, value_view(members@[i].1))
                    } else {
                        (Seq::<char>::empty(), JsonView::Null)
                    },
            ),
        ),
    }
}

impl View for JsonValue {
    type V = JsonView;

    open spec fn view(&self) -> JsonView {
        value_view(*self)
    }
}

/// The views of the items of an array.
pub open spec fn items_view(items: Seq<JsonValue>) -> Seq<JsonView> {
    Seq::new(items.len(), |i: int| items[i]@)
}

/// The views of the members of an object.
pub open spec fn members_view(members: Seq<(String, JsonValue)>) -> Seq<(Seq<char>, JsonView)> {
    Seq::new(members.len(), |i: int| (members[i].0@, members[i].1@))
}

/// The view of an array is the sequence of the views of its items.
pub proof fn lemma_array_view(items: Vec<JsonValue>)
    ensures
        JsonValue::Array(items)@ == JsonView::Array(items_view(items@)),
{
    let built = JsonValue::Array(items)@;
    assert(built->Array_0 =~= items_view(items@));
}

/// The view of an object is the sequence of the views of its members.
pub proof fn lemma_object_view(members: Vec<(String, JsonValue)>)
    ensures
        JsonValue::Object(members)@ == JsonView::Object(members_view(members@)),
{
    let built = JsonValue::Object(members)@->Object_0;
    let direct = members_view(members@);
    assert(built.len() == direct.len());
    assert forall|i: int| 0 <= i < built.len() implies built[i] == direct[i] by {
        assert(built[i].0 == members@[i].0@);
        assert(built[i].1 == members@[i].1@);
    }
    assert(built =~= direct);
}

/// The value of the last member named `key`, if there is one.
pub open spec fn lookup(members: Seq<(Seq<char>, JsonView)>, key: Seq<char>) -> Option<JsonView>
    decreases members.len(),
{
    if members.len() == 0 {
        None
    } else if members.last().0 == key {
        Some(members.last().1)
    } else {
        lookup(members.drop_last(), key)
    }
}

impl JsonView {
    /// The member named `key` of an object; `None` for a missing member and
    /// for a value that is no object.
    pub open spec fn member(self, key: Seq<char>) -> Option<JsonView> {
        match self {
            JsonView::Object(members) => lookup(members, key),
            _ => None,
        }
    }

    /// The member named `key`, with `Null` standing for a missing member.
    pub open spec fn member_or_null(self, key: Seq<char>) -> JsonView {
        match self.member(key) {
            Some(v) => v,
            None => JsonView::Null,
        }
    }

    /// The characters of a JSON string.
    pub open spec fn as_text(self) -> Option<Seq<char>> {
        match self {
            JsonView::Text(s) => Some(s),
            _ => None,
        }
    }

    /// The truth value of a JSON boolean.
    pub open spec fn as_bool(self) -> Option<bool> {
        match self {
            JsonView::Bool(b) => Some(b),
            _ => None,
        }
    }

    /// The text of a JSON number.
    pub open spec fn as_number(self) -> Option<Seq<char>> {
        match self {
            JsonView::Number(n) => Some(n),
            _ => None,
        }
    }

    /// The items of a JSON array.
    pub open spec fn as_items(self) -> Option<Seq<JsonView>> {
        match self {
            JsonView::Array(items) => Some(items),
            _ => None,
        }
    }
}

/// The view of an optional reference to a value.
pub open spec fn view_of(v: Option<&JsonValue>) -> Option<JsonView> {
    match v {
        Some(j) => Some(j@),
        None => None,
    }
}

impl JsonValue {
    /// A JSON string with the characters of `s`.
    pub fn text(s: &str) -> (j: JsonValue)
        ensures
            j@ == JsonView::Text(s@),
    {
        JsonValue::Text(s.to_owned())
    }

    /// A JSON array of `items`.
    pub fn array(items: Vec<JsonValue>) -> (j: JsonValue)
        ensures
            j@ == JsonView::Array(items_view(items@)),
    {
        proof {
            lemma_array_view(items);
        }
        JsonValue::Array(items)
    }

    /// A JSON object of `members`.
    pub fn object(members: Vec<(String, JsonValue)>) -> (j: JsonValue)
        ensures
            j@ == JsonView::Object(members_view(members@)),
    {
        proof {
            lemma_object_view(members);
        }
        JsonValue::Object(members)
    }

    /// The member named `key` of an object.
    pub fn get(&self, key: &str) -> (r: Option<&JsonValue>)
        ensures
            view_of(r) == self@.member(key@),
    {
        match self {
            JsonValue::Object(members) => {
                proof {
                    lemma_object_view(*members);
                }
                let wanted: String = key.to_owned();
                let ghost all = members_view(members@);
                let mut i: usize = members.len();
                proof {
                    assert(all.take(i as int) == all);
                }
                while i > 0
                    invariant
                        i <= members.len(),
                        all == members_view(members@),
                        wanted@ == key@,
                        self@.member(key@) == lookup(all, key@),
                        lookup(all, key@) == lookup(all.take(i as int), key@),
                    decreases i,
                {
                    i -= 1;
                    proof {
                        let upto = all.take(i + 1);
                        assert(upto.drop_last() == all.take(i as int));
                        assert(upto.last() == all[i as int]);
                    }
                    if members[i].0 == wanted {
                        return Some(&members[i].1);
                    }
                }
                proof {
                    assert(all.take(0).len() == 0);
                }
                None
            },
            _ => None,
        }
    }

    /// The characters of a JSON string.
    pub fn as_str(&self) -> (r: Option<&str>)
        ensures
            match r {
                Some(s) => self@.as_text() == Some(s@),
                None => self@.as_text() is None,
            },
    {
        match self {
            JsonValue::Text(s) => Some(s.as_str()),
            _ => None,
        }
    }

    /// The truth value of a JSON boolean.
    pub fn as_bool(&self) -> (r: Option<bool>)
        ensures
            r == self@.as_bool(),
    {
        match self {
            JsonValue::Bool(b) => Some(*b),
            _ => None,
        }
    }

    /// The text of a JSON number.
    pub fn as_number(&self) -> (r: Option<&str>)
        ensures
            match r {
                Some(s) => self@.as_number() == Some(s@),
                None => self@.as_number() is None,
            },
    {
        match self {
            JsonValue::Number(n) => Some(n.as_str()),
            _ => None,
        }
    }

    /// The items of a JSON array.
    pub fn as_array(&self) -> (r: Option<&Vec<JsonValue>>)
        ensures
            match r {
                Some(items) => self@.as_items() == Some(items_view(items@)),
                None => self@.as_items() is None,
            },
    {
        match self {
            JsonValue::Array(items) => {
                proof {
                    lemma_array_view(*items);
                }
                Some(items)
            },
            _ => None,
        }
    }

    /// True for the JSON value `null`.
    pub fn is_null(&self) -> (r: bool)
        ensures
            r == (self@ == JsonView::Null),
    {
        match self {
            JsonValue::Null => true,
            _ => false,
        }
    }
}

/// The error of `serde_json`.
#[verifier::external_type_specification]
#[verifier::external_body]
pub struct ExJsonError(serde_json::Error);

/// The value type of `serde_json`.
#[verifier::external_type_specification]
#[verifier::external_body]
pub struct ExSerdeValue(serde_json::Value);

/// What `serde_json::from_str` reads from a text: the value, or `None` where
/// the text is no JSON document.
pub uninterp spec fn json_parse(text: Seq<char>) -> Option<JsonView>;

/// The compact JSON text that `serde_json` writes for a value.
pub uninterp spec fn json_text(value: JsonView) -> Seq<char>;

/// Turns a `serde_json::Value` into a `JsonValue` of the same shape: one arm
/// for each variant, a number by the text that `serde_json` prints for it, the
/// members of an object in the order in which its map hands them out.
#[verifier::external_body]
fn from_serde(v: serde_json::Value) -> JsonValue {
    match v {
        serde_json::Value::Null => JsonValue::Null,
        serde_json::Value::Bool(b) => JsonValue::Bool(b),
        serde_json::Value::Number(n) => JsonValue::Number(n.to_string()),
        serde_json::Value::String(s) => JsonValue::Text(s),
        serde_json::Value::Array(a) => JsonValue::Array(a.into_iter().map(from_serde).collect()),
        serde_json::Value::Object(m) => JsonValue::Object(
            m.into_iter().map(|(k, v)| (k, from_serde(v))).collect(),
        ),
    }
}

/// Turns a `JsonValue` into the `serde_json::Value` of the same shape. A number
/// is read back from its text, and is `null` where the text is no number;
/// members are inserted in order, so that the last one of a name stays.
#[verifier::external_body]
fn to_serde(j: &JsonValue) -> serde_json::Value {
    match j {
        JsonValue::Null => serde_json::Value::Null,
        JsonValue::Bool(b) => serde_json::Value::Bool(*b),
        JsonValue::Number(n) => serde_json::from_str::<serde_json::Number>(n)
            .map_or(serde_json::Value::Null, serde_json::Value::Number),
        JsonValue::Text(s) => serde_json::Value::String(s.clone()),
        JsonValue::Array(a) => serde_json::Value::Array(a.iter().map(to_serde).collect()),
        JsonValue::Object(m) => serde_json::Value::Object(
            m.iter().map(|(k, v)| (k.clone(), to_serde(v))).collect(),
        ),
    }
}

/// `serde_json::from_str` at the type `serde_json::Value`: reads one JSON
/// document from `text`. The result depends on the text alone, so it has the
/// name `json_parse`; the error is handed on as it is.
#[verifier::external_body]
fn read_json(text: &str) -> (r: Result<JsonValue, serde_json::Error>)
    ensures
        match r {
            Ok(j) => json_parse(text@) == Some(j@),
            Err(_) => json_parse(text@) is None,
        },
{
    match serde_json::from_str::<serde_json::Value>(text) {
        Ok(v) => Ok(from_serde(v)),
        Err(e) => Err(e),
    }
}

/// The `Display` of `serde_json::Value`: the compact JSON text of the value.
/// The result depends on the value alone, so it has the name `json_text`.
#[verifier::external_body]
fn write_json(j: &JsonValue) -> (s: String)
    ensures
        s@ == json_text(j@),
{
    to_serde(j).to_string()
}

/// Reads a JSON document; `None` where `text` is none.
pub fn parse_json(text: &str) -> (r: Option<JsonValue>)
    ensures
        match r {
            Some(j) => json_parse(text@) == Some(j@),
            None => json_parse(text@) is None,
        },
{
    match read_json(text) {
        Ok(j) => Some(j),
        Err(_) => None,
    }
}

/// The compact JSON text of a value.
pub fn render_json(j: &JsonValue) -> (s: String)
    ensures
        s@ == json_text(j@),
{
    write_json(j)
}

} // verus!
