//! JSON as the message plane needs it: objects whose members are looked up,
//! added, removed and merged by key. A member is `null`, a boolean, a number,
//! a string, or a nested array or object that is carried as compact JSON text
//! and never opened here.

use crate::assoc::{
    distinct_keys, lemma_included_same_len, lemma_map_of, lemma_map_of_finite, lemma_with_pair,
    lemma_with_pairs, lemma_same_map_same_len, lemma_without, map_of, with_pair, with_pairs, without,
};
use crate::text::same_text;
use vstd::prelude::*;

verus! {

/// Why a payload was not read as JSON, in the reader's words.
#[derive(Debug)]
pub struct JsonError {
    pub message: String,
}

/// One JSON value.
#[derive(Debug)]
pub enum JsonValue {
    Null,
    Bool(bool),
    /// A number, written as it stands in compact JSON.
    Number(String),
    /// A string, unquoted and unescaped.
    Text(String),
    /// An array or an object, as compact JSON text.
    Nested(String),
}

/// The mathematical value of a [`JsonValue`].
pub enum JsonModel {
    Null,
    Bool(bool),
    Number(Seq<char>),
    Text(Seq<char>),
    Nested(Seq<char>),
}

impl View for JsonValue {
    type V = JsonModel;

    open spec fn view(&self) -> JsonModel {
        match self {
            JsonValue::Null => JsonModel::Null,
            JsonValue::Bool(b) => JsonModel::Bool(*b),
            JsonValue::Number(t) => JsonModel::Number(t@),
            JsonValue::Text(t) => JsonModel::Text(t@),
            JsonValue::Nested(t) => JsonModel::Nested(t@),
        }
    }
}

/// The members that `serde_json` reads from a payload holding a JSON object,
/// each value as a [`JsonModel`]; `None` where it reads no object.
pub uninterp spec fn parsed_object(payload: Seq<u8>) -> Option<Seq<(Seq<char>, JsonModel)>>;

/// The value that `serde_json` reads from a payload; `None` where it reads
/// no JSON value.
pub uninterp spec fn parsed_value(payload: Seq<u8>) -> Option<JsonModel>;

/// The JSON string literal that `serde_json` writes for a text: the text in
/// double quotes, with its escapes.
pub uninterp spec fn quoted(text: Seq<char>) -> Seq<char>;

/// The models of a list of members.
pub open spec fn members_model(members: Seq<(String, JsonValue)>) -> Seq<(Seq<char>, JsonModel)> {
    Seq::new(members.len(), |i: int| (members[i].0@, members[i].1@))
}

/// The compact JSON text of a value.
pub open spec fn value_text(value: JsonModel) -> Seq<char> {
    match value {
        JsonModel::Null => "null"@,
        JsonModel::Bool(b) => if b {
            "true"@
        } else {
            "false"@
        },
        JsonModel::Number(t) => t,
        JsonModel::Text(t) => quoted(t),
        JsonModel::Nested(t) => t,
    }
}

/// The members of an object in compact JSON, without the braces: each as
/// its quoted key, a colon and its value, with commas between them.
pub open spec fn members_text(members: Seq<(Seq<char>, JsonModel)>) -> Seq<char>
    decreases members.len(),
{
    if members.len() == 0 {
        Seq::<char>::empty()
    } else if members.len() == 1 {
        quoted(members[0].0) + ":"@ + value_text(members[0].1)
    } else {
        members_text(members.drop_last()) + ","@ + quoted(members.last().0) + ":"@ + value_text(
            members.last().1,
        )
    }
}

/// The compact JSON text of an object with these members, in this order.
pub open spec fn object_text(members: Seq<(Seq<char>, JsonModel)>) -> Seq<char> {
    "{"@ + members_text(members) + "}"@
}

/// Reads a payload as a JSON object with `serde_json::from_slice` and hands
/// out its members in the order in which `serde_json::Map` walks them. The
/// result is named by `parsed_object`; the keys of a map are distinct.
#[verifier::external_body]
fn read_object(payload: &[u8]) -> (r: Result<Vec<(String, JsonValue)>, JsonError>)
    ensures
        match r {
            Ok(members) => parsed_object(payload@) == Some(members_model(members@))
                && distinct_keys(members_model(members@)),
            Err(_) => parsed_object(payload@) is None,
        },
{
    let map: serde_json::Map<String, serde_json::Value> = serde_json::from_slice(payload)
        .map_err(|e| JsonError { message: e.to_string() })?;
    let mut members = Vec::new();
    for (key, value) in map {
        members.push((key, match value {
            serde_json::Value::Null => JsonValue::Null,
            serde_json::Value::Bool(b) => JsonValue::Bool(b),
            serde_json::Value::Number(n) => JsonValue::Number(n.to_string()),
            serde_json::Value::String(s) => JsonValue::Text(s),
            nested => JsonValue::Nested(nested.to_string()),
        }));
    }
    Ok(members)
}

/// Reads a payload as one JSON value with `serde_json::from_slice`. The
/// result is named by `parsed_value`.
#[verifier::external_body]
fn read_value(payload: &[u8]) -> (r: Result<JsonValue, JsonError>)
    ensures
        match r {
            Ok(value) => parsed_value(payload@) == Some(value@),
            Err(_) => parsed_value(payload@) is None,
        },
{
    let value: serde_json::Value = serde_json::from_slice(payload)
        .map_err(|e| JsonError { message: e.to_string() })?;
    Ok(match value {
        serde_json::Value::Null => JsonValue::Null,
        serde_json::Value::Bool(b) => JsonValue::Bool(b),
        serde_json::Value::Number(n) => JsonValue::Number(n.to_string()),
        serde_json::Value::String(s) => JsonValue::Text(s),
        nested => JsonValue::Nested(nested.to_string()),
    })
}

/// Writes a text as a JSON string literal with `serde_json::to_string`. The
/// result is named by `quoted`.
#[verifier::external_body]
fn quote(text: &str) -> (r: String)
    ensures
        r@ == quoted(text@),
{
    serde_json::to_string(text).unwrap_or_default()
}

/// A list of members as an object in compact JSON.
pub fn members_to_text(members: &Vec<(String, JsonValue)>) -> (r: String)
    ensures
        r@ == object_text(members_model(members@)),
{
    let mut out = String::from_str("{");
    let n: usize = members.len();
    let mut i: usize = 0;
    assert(members_model(members@).take(0) =~= Seq::<(Seq<char>, JsonModel)>::empty());
    assert("{"@ + Seq::<char>::empty() =~= "{"@);
    while i < n
        invariant
            n == members@.len(),
            i <= n,
            out@ == "{"@ + members_text(members_model(members@).take(i as int)),
        decreases n - i,
    {
        let ghost upto = members_model(members@).take(i + 1);
        proof {
            assert(upto.drop_last() =~= members_model(members@).take(i as int));
            assert(upto.last() == members_model(members@)[i as int]);
            assert(upto[0] == members_model(members@)[0]);
        }
        let ghost before = out@;
        if i > 0 {
            out.append(",");
        }
        let key = quote(members[i].0.as_str());
        out.append(key.as_str());
        out.append(":");
        let value = members[i].1.to_text();
        out.append(value.as_str());
        proof {
            let m = members_model(members@)[i as int];
            if i == 0 {
                assert(members_text(members_model(members@).take(0)) =~= Seq::<char>::empty());
                assert(out@ =~= "{"@ + (quoted(m.0) + ":"@ + value_text(m.1)));
            } else {
                assert(out@ =~= "{"@ + (members_text(members_model(members@).take(i as int)) + ","@
                    + quoted(m.0) + ":"@ + value_text(m.1)));
            }
        }
        i = i + 1;
    }
    proof {
        assert(members_model(members@).take(n as int) =~= members_model(members@));
    }
    out.append("}");
    out
}

impl JsonValue {
    /// Reads one JSON value from a payload.
    pub fn parse(payload: &[u8]) -> (r: Result<JsonValue, JsonError>)
        ensures
            match r {
                Ok(value) => parsed_value(payload@) == Some(value@),
                Err(_) => parsed_value(payload@) is None,
            },
    {
        read_value(payload)
    }

    /// The JSON string holding `text`.
    pub fn text(text: &str) -> (r: JsonValue)
        ensures
            r@ == JsonModel::Text(text@),
    {
        JsonValue::Text(String::from_str(text))
    }

    pub fn is_null(&self) -> (r: bool)
        ensures
            r == (self@ == JsonModel::Null),
    {
        match self {
            JsonValue::Null => true,
            _ => false,
        }
    }

    /// The text of a JSON string; `None` for any other value.
    pub fn as_text(&self) -> (r: Option<&str>)
        ensures
            match r {
                Some(t) => self@ == JsonModel::Text(t@),
                None => !(self@ is Text),
            },
    {
        match self {
            JsonValue::Text(t) => Some(t.as_str()),
            _ => None,
        }
    }

    /// Whether two values are the same JSON.
    pub fn equals(&self, other: &JsonValue) -> (r: bool)
        ensures
            r == (self@ == other@),
    {
        match (self, other) {
            (JsonValue::Null, JsonValue::Null) => true,
            (JsonValue::Bool(a), JsonValue::Bool(b)) => *a == *b,
            (JsonValue::Number(a), JsonValue::Number(b)) => same_text(a.as_str(), b.as_str()),
            (JsonValue::Text(a), JsonValue::Text(b)) => same_text(a.as_str(), b.as_str()),
            (JsonValue::Nested(a), JsonValue::Nested(b)) => same_text(a.as_str(), b.as_str()),
            _ => false,
        }
    }

    /// The value in compact JSON.
    pub fn to_text(&self) -> (r: String)
        ensures
            r@ == value_text(self@),
    {
        match self {
            JsonValue::Null => String::from_str("null"),
            JsonValue::Bool(b) => if *b {
                String::from_str("true")
            } else {
                String::from_str("false")
            },
            JsonValue::Number(t) => t.clone(),
            JsonValue::Text(t) => quote(t.as_str()),
            JsonValue::Nested(t) => t.clone(),
        }
    }
}

impl Clone for JsonValue {
    fn clone(&self) -> (r: Self)
        ensures
            r@ == self@,
    {
        match self {
            JsonValue::Null => JsonValue::Null,
            JsonValue::Bool(b) => JsonValue::Bool(*b),
            JsonValue::Number(t) => JsonValue::Number(t.clone()),
            JsonValue::Text(t) => JsonValue::Text(t.clone()),
            JsonValue::Nested(t) => JsonValue::Nested(t.clone()),
        }
    }
}

/// A JSON object: members with distinct keys, kept in the order in which
/// they were added.
#[derive(Debug)]
pub struct JsonObject {
    members: Vec<(String, JsonValue)>,
}

impl View for JsonObject {
    type V = Map<Seq<char>, JsonModel>;

    closed spec fn view(&self) -> Map<Seq<char>, JsonModel> {
        map_of(members_model(self.members@))
    }
}

impl JsonObject {
    #[verifier::type_invariant]
    spec fn well_formed(&self) -> bool {
        distinct_keys(members_model(self.members@))
    }

    /// The members in their order.
    pub closed spec fn members(&self) -> Seq<(Seq<char>, JsonModel)> {
        members_model(self.members@)
    }

    /// A value of this type has distinct keys, and its view is the map of
    /// its members.
    pub proof fn lemma_members(&self)
        requires
            distinct_keys(self.members()),
        ensures
            self@ == map_of(self.members()),
            self@.dom().finite(),
    {
        lemma_map_of_finite(self.members());
    }

    /// The object without members.
    pub fn new() -> (r: JsonObject)
        ensures
            r@ == Map::<Seq<char>, JsonModel>::empty(),
            r.members() == Seq::<(Seq<char>, JsonModel)>::empty(),
    {
        let r = JsonObject { members: Vec::new() };
        assert(r@ =~= Map::<Seq<char>, JsonModel>::empty());
        assert(r.members() =~= Seq::<(Seq<char>, JsonModel)>::empty());
        r
    }

    /// Reads a JSON object from a payload; fails with the reader's error
    /// where the payload is no JSON object.
    pub fn parse(payload: &[u8]) -> (r: Result<JsonObject, JsonError>)
        ensures
            match r {
                Ok(object) => parsed_object(payload@) == Some(object.members()) && distinct_keys(
                    object.members(),
                ),
                Err(_) => parsed_object(payload@) is None,
            },
    {
        match read_object(payload) {
            Ok(members) => Ok(JsonObject { members }),
            Err(e) => Err(e),
        }
    }

    /// The number of members.
    pub fn len(&self) -> (r: usize)
        ensures
            r == self.members().len(),
    {
        self.members.len()
    }

    fn find(&self, key: &str) -> (r: Option<usize>)
        ensures
            match r {
                Some(i) => i < self.members@.len() && self.members@[i as int].0@ == key@,
                None => forall|i: int| 0 <= i < self.members@.len() ==> self.members@[i].0@ != key@,
            },
    {
        let n: usize = self.members.len();
        let mut i: usize = 0;
        while i < n
            invariant
                n == self.members@.len(),
                i <= n,
                forall|k: int| 0 <= k < i ==> self.members@[k].0@ != key@,
            decreases n - i,
        {
            if same_text(self.members[i].0.as_str(), key) {
                return Some(i);
            }
            i = i + 1;
        }
        None
    }

    /// The value of a member.
    pub fn get(&self, key: &str) -> (r: Option<&JsonValue>)
        ensures
            match r {
                Some(value) => self@.contains_key(key@) && self@[key@] == value@,
                None => !self@.contains_key(key@),
            },
    {
        proof {
            use_type_invariant(self);
            lemma_map_of(members_model(self.members@));
        }
        match self.find(key) {
            Some(i) => {
                assert(members_model(self.members@)[i as int].0 == key@);
                Some(&self.members[i].1)
            },
            None => None,
        }
    }

    pub fn contains_key(&self, key: &str) -> (r: bool)
        ensures
            r == self@.contains_key(key@),
    {
        self.get(key).is_some()
    }

    /// Puts a member: in the place of the member with that key where there
    /// is one, else behind the last. Returns the value that the key had.
    pub fn insert(&mut self, key: String, value: JsonValue) -> (r: Option<JsonValue>)
        ensures
            final(self)@ == old(self)@.insert(key@, value@),
            final(self).members() == with_pair(old(self).members(), key@, value@),
            match r {
                Some(previous) => old(self)@.contains_key(key@) && old(self)@[key@] == previous@,
                None => !old(self)@.contains_key(key@),
            },
    {
        proof {
            use_type_invariant(&*self);
            lemma_map_of(members_model(self.members@));
            lemma_with_pair(members_model(self.members@), key@, value@);
        }
        let ghost before = members_model(self.members@);
        match self.find(key.as_str()) {
            Some(i) => {
                assert(before[i as int].0 == key@);
                let mut members: Vec<(String, JsonValue)> = Vec::new();
                std::mem::swap(&mut self.members, &mut members);
                members.push((key, value));
                let previous = members.swap_remove(i);
                proof {
                    assert(members_model(members@) =~= with_pair(before, key@, value@));
                }
                self.members = members;
                Some(previous.1)
            },
            None => {
                let mut members: Vec<(String, JsonValue)> = Vec::new();
                std::mem::swap(&mut self.members, &mut members);
                members.push((key, value));
                proof {
                    assert(members_model(members@) =~= with_pair(before, key@, value@));
                }
                self.members = members;
                None
            },
        }
    }
    /// Takes the member of a key out. Returns the value that the key had.
    pub fn remove(&mut self, key: &str) -> (r: Option<JsonValue>)
        ensures
            final(self)@ == old(self)@.remove(key@),
            final(self).members() == without(old(self).members(), key@),
            match r {
                Some(previous) => old(self)@.contains_key(key@) && old(self)@[key@] == previous@,
                None => !old(self)@.contains_key(key@),
            },
    {
        proof {
            use_type_invariant(&*self);
            lemma_map_of(members_model(self.members@));
            lemma_without(members_model(self.members@), key@);
        }
        let ghost before = members_model(self.members@);
        match self.find(key) {
            Some(i) => {
                assert(before[i as int].0 == key@);
                let mut members: Vec<(String, JsonValue)> = Vec::new();
                std::mem::swap(&mut self.members, &mut members);
                let previous = members.remove(i);
                proof {
                    assert(members_model(members@) =~= without(before, key@));
                }
                self.members = members;
                Some(previous.1)
            },
            None => {
                assert(self.members() =~= without(before, key@));
                None
            },
        }
    }

    /// Puts a member unless the key has one already.
    pub fn insert_if_absent(&mut self, key: String, value: JsonValue)
        ensures
            final(self)@ == if old(self)@.contains_key(key@) {
                old(self)@
            } else {
                old(self)@.insert(key@, value@)
            },
            final(self).members() == if old(self)@.contains_key(key@) {
                old(self).members()
            } else {
                old(self).members().push((key@, value@))
            },
    {
        if !self.contains_key(key.as_str()) {
            proof {
                use_type_invariant(&*self);
                lemma_map_of(members_model(self.members@));
            }
            let _ = self.insert(key, value);
        }
    }

    /// Puts every member of `other`, in the order of `other`: a key that
    /// both have takes the value of `other`.
    pub fn extend(&mut self, other: &JsonObject)
        ensures
            final(self)@ == old(self)@.union_prefer_right(other@),
            final(self).members() == with_pairs(old(self).members(), other.members()),
    {
        proof {
            use_type_invariant(&*self);
            use_type_invariant(other);
            lemma_with_pairs(self.members(), other.members());
        }
        let n: usize = other.members.len();
        let mut i: usize = 0;
        assert(other.members().take(0) =~= Seq::<(Seq<char>, JsonModel)>::empty());
        while i < n
            invariant
                n == other.members@.len(),
                i <= n,
                self.members() == with_pairs(old(self).members(), other.members().take(i as int)),
            decreases n - i,
        {
            let ghost upto = other.members().take(i + 1);
            proof {
                assert(upto.drop_last() =~= other.members().take(i as int));
                assert(upto.last() == (other.members@[i as int].0@, other.members@[i as int].1@));
            }
            let _ = self.insert(other.members[i].0.clone(), other.members[i].1.clone());
            i = i + 1;
        }
        proof {
            assert(other.members().take(n as int) =~= other.members());
            use_type_invariant(&*self);
        }
    }

    /// Whether two objects have the same keys with the same values, in any
    /// order.
    pub fn equals(&self, other: &JsonObject) -> (r: bool)
        ensures
            r == (self@ == other@),
    {
        proof {
            use_type_invariant(self);
            use_type_invariant(other);
            lemma_map_of(self.members());
            lemma_map_of(other.members());
        }
        if self.members.len() != other.members.len() {
            proof {
                if self@ == other@ {
                    lemma_same_map_same_len(self.members(), other.members());
                }
            }
            return false;
        }
        let n: usize = self.members.len();
        let mut i: usize = 0;
        while i < n
            invariant
                n == self.members@.len(),
                n == other.members@.len(),
                i <= n,
                forall|k: int|
                    0 <= k < i ==> other@.contains_key(#[trigger] self.members()[k].0) && other@[self.members()[k].0]
                        == self.members()[k].1,
            decreases n - i,
        {
            match other.get(self.members[i].0.as_str()) {
                Some(value) => {
                    if !self.members[i].1.equals(value) {
                        proof {
                            use_type_invariant(self);
                            lemma_map_of(self.members());
                            assert(self@[self.members()[i as int].0] == self.members()[i as int].1);
                        }
                        return false;
                    }
                },
                None => {
                    proof {
                        use_type_invariant(self);
                        lemma_map_of(self.members());
                        assert(self@.contains_key(self.members()[i as int].0));
                    }
                    return false;
                },
            }
            i = i + 1;
        }
        proof {
            use_type_invariant(self);
            use_type_invariant(other);
            lemma_included_same_len(self.members(), other.members());
        }
        true
    }

    /// The key of the member at a position.
    pub fn key_at(&self, i: usize) -> (r: &str)
        requires
            i < self.members().len(),
        ensures
            r@ == self.members()[i as int].0,
    {
        self.members[i].0.as_str()
    }

    /// The value of the member at a position.
    pub fn value_at(&self, i: usize) -> (r: &JsonValue)
        requires
            i < self.members().len(),
        ensures
            r@ == self.members()[i as int].1,
    {
        &self.members[i].1
    }

    /// The object in compact JSON, its members in their order.
    pub fn to_text(&self) -> (r: String)
        ensures
            r@ == object_text(self.members()),
    {
        members_to_text(&self.members)
    }
}

impl Clone for JsonObject {
    fn clone(&self) -> (r: Self)
        ensures
            r@ == self@,
            r.members() == self.members(),
    {
        proof {
            use_type_invariant(self);
        }
        let mut members: Vec<(String, JsonValue)> = Vec::new();
        let n: usize = self.members.len();
        let mut i: usize = 0;
        while i < n
            invariant
                n == self.members@.len(),
                i <= n,
                members@.len() == i,
                members_model(members@) == members_model(self.members@).take(i as int),
            decreases n - i,
        {
            let key = self.members[i].0.clone();
            let value = self.members[i].1.clone();
            assert(key@ == self.members@[i as int].0@);
            assert(value@ == self.members@[i as int].1@);
            let ghost before = members@;
            members.push((key, value));
            proof {
                let target = members_model(self.members@).take(i + 1);
                assert forall|j: int| 0 <= j < members@.len() implies members_model(members@)[j]
                    == target[j] by {
                    if j < i {
                        assert(members@[j] == before[j]);
                        assert(members_model(before)[j] == members_model(self.members@).take(
                            i as int,
                        )[j]);
                    }
                }
                assert(members_model(members@) =~= target);
            }
            i = i + 1;
        }
        assert(members_model(self.members@).take(n as int) =~= members_model(self.members@));
        JsonObject { members }
    }
}

} // verus!