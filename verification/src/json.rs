//! JSON documents as trees of plain values.
//!
//! The text is parsed by `serde_json`; what it yields is copied, value for value,
//! into a [`Json`] tree, which the rest of the library reads.

use vstd::prelude::*;

verus! {

/// The readings of a JSON number that the library asks for.
#[derive(Debug, Clone, Copy, PartialEq, Eq)]
pub struct JsonNumber {
    /// The number as an unsigned 64-bit integer, where it was written as one.
    pub unsigned: Option<u64>,
    /// The number as an IEEE 754 binary64 value, given by its bit pattern.
    pub float_bits: Option<u64>,
}

/// A JSON value.
#[derive(Debug)]
pub enum Json {
    Null,
    Bool(bool),
    Number(JsonNumber),
    Text(String),
    Array(Vec<Json>),
    /// The members of an object, each a name and a value.
    Object(Vec<(String, Json)>),
}

/// The mathematical model of a [`Json`] value.
pub enum JsonView {
    Null,
    Bool(bool),
    Number(JsonNumber),
    Text(Seq<char>),
    Array(Seq<JsonView>),
    Object(Seq<(Seq<char>, JsonView)>),
}

/// The value of the first member called `key` among `members`.
pub open spec fn find_member(members: Seq<(Seq<char>, JsonView)>, key: Seq<char>) -> Option<
    JsonView,
>
    decreases members.len(),
{
    if members.len() == 0 {
        None
    } else if members[0].0 == key {
        Some(members[0].1)
    } else {
        find_member(members.drop_first(), key)
    }
}

/// The members without those called `key`.
pub open spec fn remove_member(members: Seq<(Seq<char>, JsonView)>, key: Seq<char>) -> Seq<
    (Seq<char>, JsonView),
>
    decreases members.len(),
{
    if members.len() == 0 {
        members
    } else if members[0].0 == key {
        remove_member(members.drop_first(), key)
    } else {
        seq![members[0]] + remove_member(members.drop_first(), key)
    }
}

/// Removing the members called `removed` leaves no member of that name and
/// leaves the member of every other name as it was.
pub proof fn lemma_find_after_remove(
    members: Seq<(Seq<char>, JsonView)>,
    removed: Seq<char>,
    key: Seq<char>,
)
    ensures
        find_member(remove_member(members, removed), key) == if key == removed {
            None
        } else {
            find_member(members, key)
        },
    decreases members.len(),
{
    if members.len() > 0 {
        lemma_find_after_remove(members.drop_first(), removed, key);
        if members[0].0 != removed {
            let rest = remove_member(members.drop_first(), removed);
            let kept = seq![members[0]] + rest;
            assert(kept[0] == members[0]);
            assert(kept.drop_first() =~= rest);
        }
    }
}

impl JsonView {
    /// This value without its members called `key`, where it is an object.
    pub open spec fn without(self, key: Seq<char>) -> JsonView {
        match self {
            JsonView::Object(members) => JsonView::Object(remove_member(members, key)),
            _ => self,
        }
    }

    /// The member called `key`, where this value is an object that has one.
    pub open spec fn member(self, key: Seq<char>) -> Option<JsonView> {
        match self {
            JsonView::Object(members) => find_member(members, key),
            _ => None,
        }
    }

    /// The value as an unsigned integer, where it is a number written as one.
    pub open spec fn as_u64(self) -> Option<u64> {
        match self {
            JsonView::Number(n) => n.unsigned,
            _ => None,
        }
    }

    /// The bit pattern of the value as a binary64 number, where it is a number.
    pub open spec fn as_float_bits(self) -> Option<u64> {
        match self {
            JsonView::Number(n) => n.float_bits,
            _ => None,
        }
    }

    /// The text of the value, where it is a string.
    pub open spec fn as_text(self) -> Option<Seq<char>> {
        match self {
            JsonView::Text(s) => Some(s),
            _ => None,
        }
    }
}

impl View for Json {
    type V = JsonView;

    open spec fn view(&self) -> JsonView {
        self.model()
    }
}

impl Json {
    /// The mathematical model of this value.
    pub open spec fn model(self) -> JsonView
        decreases self,
    {
        match self {
            Json::Null => JsonView::Null,
            Json::Bool(b) => JsonView::Bool(b),
            Json::Number(n) => JsonView::Number(n),
            Json::Text(s) => JsonView::Text(s@),
            Json::Array(items) => JsonView::Array(
                Seq::new(
                    items@.len(),
                    |i: int|
                        if 0 <= i < items@.len() {
                            items@[i].model()
                        } else {
                            JsonView::Null
                        },
                ),
            ),
            Json::Object(members) => JsonView::Object(
                Seq::new(
                    members@.len(),
                    |i: int|
                        if 0 <= i < members@.len() {
                            (members@[i].0@, members@[i].1.model())
                        } else {
                            (Seq::empty(), JsonView::Null)
                        },
                ),
            ),
        }
    }

    /// Looks up the member called `key` of an object: the first of that name,
    /// or nothing where there is none or the value is no object.
    pub fn get(&self, key: &str) -> (r: Option<&Json>)
        ensures
            match r {
                Some(value) => self@.member(key@) == Some(value@),
                None => self@.member(key@) is None,
            },
    {
        match self {
            Json::Object(members) => {
                let wanted: String = key.to_owned();
                let ghost all = self@->Object_0;
                let mut i: usize = 0;
                assert(all.skip(0) =~= all);
                while i < members.len()
                    invariant
                        i <= members.len(),
                        wanted@ == key@,
                        self@ == JsonView::Object(all),
                        all.len() == members.len(),
                        forall|j: int|
                            0 <= j < all.len() ==> all[j] == (
                                #[trigger] members@[j].0@,
                                members@[j].1@,
                            ),
                        find_member(all, key@) == find_member(all.skip(i as int), key@),
                    decreases members.len() - i,
                {
                    let ghost rest = all.skip(i as int);
                    assert(rest[0] == all[i as int]);
                    assert(rest.drop_first() =~= all.skip(i + 1));
                    if members[i].0 == wanted {
                        return Some(&members[i].1);
                    }
                    i = i + 1;
                }
                None
            },
            _ => None,
        }
    }

    /// The value as an unsigned integer, where it is a number written as one.
    pub fn as_u64(&self) -> (r: Option<u64>)
        ensures
            r == self@.as_u64(),
    {
        match self {
            Json::Number(n) => n.unsigned,
            _ => None,
        }
    }

    /// The bit pattern of the value as a binary64 number, where it is a number.
    pub fn as_float_bits(&self) -> (r: Option<u64>)
        ensures
            r == self@.as_float_bits(),
    {
        match self {
            Json::Number(n) => n.float_bits,
            _ => None,
        }
    }

    /// The text of the value, where it is a string.
    pub fn as_text(&self) -> (r: Option<&str>)
        ensures
            match r {
                Some(text) => self@.as_text() == Some(text@),
                None => self@.as_text() is None,
            },
    {
        match self {
            Json::Text(s) => Some(s.as_str()),
            _ => None,
        }
    }
}

/// Declares the document type of `serde_json`, which the library only converts
/// into a [`Json`] tree and never reads itself.
#[verifier::external_type_specification]
#[verifier::external_body]
pub struct ExValue(serde_json::Value);

/// What a `serde_json::Value` holds, as a tree: null, a boolean, a number by
/// its readings, a string, the items of an array, or the members of an object.
pub uninterp spec fn value_model(value: serde_json::Value) -> JsonView;

/// What `serde_json::from_slice` makes of a text that is read as a
/// `serde_json::Value`: the tree that the value holds, or the message of the
/// error that the parser reports.
pub uninterp spec fn json_document(text: Seq<u8>) -> Result<JsonView, Seq<char>>;

/// Parses a JSON text with `serde_json::from_slice` and, where that fails,
/// takes the error's message by `to_string`. The contract only names the
/// outcome: what `serde_json` reads from these bytes is a function of the
/// bytes, and this is it.
#[verifier::external_body]
fn from_slice(text: &[u8]) -> (r: Result<serde_json::Value, String>)
    ensures
        match r {
            Ok(value) => json_document(text@) == Ok::<JsonView, Seq<char>>(value_model(value)),
            Err(message) => json_document(text@) == Err::<JsonView, Seq<char>>(message@),
        },
{
    serde_json::from_slice::<serde_json::Value>(text).map_err(|error| error.to_string())
}

/// Copies a `serde_json::Value` into a [`Json`] tree, variant for variant. A
/// number is copied as what `Number::as_u64` and `Number::as_f64` return for it,
/// the latter by `to_bits`; an object as its members in the order in which
/// `Map::iter` yields them. The contract says that the copy is the tree that
/// the value holds, and no more.
#[verifier::external_body]
fn lift(value: &serde_json::Value) -> (r: Json)
    ensures
        r@ == value_model(*value),
{
    match value {
        serde_json::Value::Null => Json::Null,
        serde_json::Value::Bool(b) => Json::Bool(*b),
        serde_json::Value::Number(n) => Json::Number(
            JsonNumber { unsigned: n.as_u64(), float_bits: n.as_f64().map(|x| x.to_bits()) },
        ),
        serde_json::Value::String(s) => Json::Text(s.clone()),
        serde_json::Value::Array(items) => Json::Array(items.iter().map(lift).collect()),
        serde_json::Value::Object(members) => Json::Object(
            members.iter().map(|(k, v)| (k.clone(), lift(v))).collect(),
        ),
    }
}

/// The model of what the parser hands back.
pub open spec fn parsed_view(parsed: Result<Json, String>) -> Result<JsonView, Seq<char>> {
    match parsed {
        Ok(doc) => Ok(doc@),
        Err(message) => Err(message@),
    }
}

impl Json {
    /// Parses a JSON text into a tree, or gives the parser's message.
    pub fn parse(text: &[u8]) -> (r: Result<Json, String>)
        ensures
            parsed_view(r) == json_document(text@),
    {
        match from_slice(text) {
            Ok(value) => Ok(lift(&value)),
            Err(message) => Err(message),
        }
    }
}

} // verus!
