//! JSON-like values: what answers, defaults and the rendering context are made of.
use vstd::prelude::*;
use vstd::string::*;

use crate::text::text_eq;

verus! {

/// A JSON number. Integers are held as such; any other number is held as the
/// literal that denotes it.
#[derive(Debug)]
pub enum Number {
    /// A non-negative integer.
    PosInt(u64),
    /// An integer, used for the negative ones.
    NegInt(i64),
    /// The JSON literal of a number that is no 64-bit integer, such as `1.5`.
    Literal(String),
}

/// A JSON-like value. An object keeps its members in the order they were added.
#[derive(Debug)]
pub enum Value {
    Null,
    Bool(bool),
    Number(Number),
    String(String),
    Array(Vec<Value>),
    Object(Vec<(String, Value)>),
}

/// The mathematical content of a [`Number`].
pub enum JsonNumber {
    Integer(int),
    Literal(Seq<char>),
}

/// The mathematical content of a [`Value`].
pub enum Json {
    Null,
    Bool(bool),
    Number(JsonNumber),
    String(Seq<char>),
    Array(Seq<Json>),
    Object(Seq<(Seq<char>, Json)>),
}

impl Number {
    /// What the number stands for.
    pub open spec fn model(&self) -> JsonNumber {
        match self {
            Number::PosInt(n) => JsonNumber::Integer(*n as int),
            Number::NegInt(n) => JsonNumber::Integer(*n as int),
            Number::Literal(text) => JsonNumber::Literal(text@),
        }
    }

    /// A copy of the number.
    pub fn duplicate(&self) -> (r: Number)
        ensures
            r.model() == self.model(),
    {
        match self {
            Number::PosInt(n) => Number::PosInt(*n),
            Number::NegInt(n) => Number::NegInt(*n),
            Number::Literal(text) => Number::Literal(text.clone()),
        }
    }
}

/// The models of the items, in order.
pub open spec fn models(items: Vec<Value>) -> Seq<Json>
    decreases items, 0nat,
{
    Seq::new(
        items.len() as nat,
        |i: int|
            if 0 <= i < items.len() {
                items[i].model()
            } else {
                Json::Null
            },
    )
}

/// The models of the members of an object, keys first.
pub open spec fn member_models(fields: Vec<(String, Value)>) -> Seq<(Seq<char>, Json)>
    decreases fields, 0nat,
{
    Seq::new(
        fields.len() as nat,
        |i: int|
            if 0 <= i < fields.len() {
                (fields[i].0@, fields[i].1.model())
            } else {
                (Seq::<char>::empty(), Json::Null)
            },
    )
}

/// The index of the first member of `members` whose key is `key`, if any.
pub open spec fn find_member(members: Seq<(Seq<char>, Json)>, key: Seq<char>) -> Option<int>
    decreases members.len(),
{
    if members.len() == 0 {
        None
    } else {
        match find_member(members.drop_last(), key) {
            Some(i) => Some(i),
            None => if members.last().0 == key {
                Some(members.len() - 1)
            } else {
                None
            },
        }
    }
}

impl Json {
    /// The member of an object under `key`: the first one, where a key occurs
    /// more than once. `None` for a missing key and for anything that is no object.
    pub open spec fn get(self, key: Seq<char>) -> Option<Json> {
        match self {
            Json::Object(members) => match find_member(members, key) {
                Some(i) => Some(members[i].1),
                None => None,
            },
            _ => None,
        }
    }
}

pub proof fn lemma_find_member(members: Seq<(Seq<char>, Json)>, key: Seq<char>)
    ensures
        match find_member(members, key) {
            Some(i) => 0 <= i < members.len() && members[i].0 == key && forall|j: int|
                0 <= j < i ==> members[j].0 != key,
            None => forall|j: int| 0 <= j < members.len() ==> members[j].0 != key,
        },
    decreases members.len(),
{
    if members.len() > 0 {
        let init = members.drop_last();
        lemma_find_member(init, key);
        assert forall|j: int| 0 <= j < init.len() implies init[j] == members[j] by {}
        match find_member(init, key) {
            Some(i) => {
                assert(init[i] == members[i]);
            },
            None => {
                assert forall|j: int| 0 <= j < init.len() implies members[j].0 != key by {
                    assert(init[j].0 != key);
                }
            },
        }
    }
}

impl Value {
    /// What the value stands for.
    pub open spec fn model(&self) -> Json
        decreases self, 1nat,
    {
        match self {
            Value::Null => Json::Null,
            Value::Bool(b) => Json::Bool(*b),
            Value::Number(n) => Json::Number(n.model()),
            Value::String(s) => Json::String(s@),
            Value::Array(items) => Json::Array(models(*items)),
            Value::Object(fields) => Json::Object(member_models(*fields)),
        }
    }

    /// A deep copy of the value.
    pub fn duplicate(&self) -> (r: Value)
        ensures
            r.model() == self.model(),
        decreases self,
    {
        match self {
            Value::Null => Value::Null,
            Value::Bool(b) => Value::Bool(*b),
            Value::Number(n) => Value::Number(n.duplicate()),
            Value::String(s) => Value::String(s.clone()),
            Value::Array(items) => {
                let mut out: Vec<Value> = Vec::new();
                let mut i: usize = 0;
                while i < items.len()
                    invariant
                        self is Array,
                        self->Array_0 == *items,
                        i <= items.len(),
                        out.len() == i,
                        forall|k: int| 0 <= k < i ==> out[k].model() == items[k].model(),
                    decreases items.len() - i,
                {
                    let item = &items[i];
                    out.push(item.duplicate());
                    i = i + 1;
                }
                assert(models(out) =~= models(*items));
                Value::Array(out)
            },
            Value::Object(fields) => {
                let mut out: Vec<(String, Value)> = Vec::new();
                let mut i: usize = 0;
                while i < fields.len()
                    invariant
                        self is Object,
                        self->Object_0 == *fields,
                        i <= fields.len(),
                        out.len() == i,
                        forall|k: int|
                            0 <= k < i ==> out[k].0@ == fields[k].0@ && out[k].1.model()
                                == fields[k].1.model(),
                    decreases fields.len() - i,
                {
                    let field = &fields[i];
                    out.push((field.0.clone(), field.1.duplicate()));
                    i = i + 1;
                }
                assert(member_models(out) =~= member_models(*fields));
                Value::Object(out)
            },
        }
    }

    /// The text of a string value.
    pub fn as_str(&self) -> (r: Option<&str>)
        ensures
            match r {
                Some(s) => self.model() == Json::String(s@),
                None => !(self.model() is String),
            },
    {
        match self {
            Value::String(s) => Some(s.as_str()),
            _ => None,
        }
    }

    /// The truth value of a boolean value.
    pub fn as_bool(&self) -> (r: Option<bool>)
        ensures
            match r {
                Some(b) => self.model() == Json::Bool(b),
                None => !(self.model() is Bool),
            },
    {
        match self {
            Value::Bool(b) => Some(*b),
            _ => None,
        }
    }

    /// The member under `key`, as [`Json::get`] defines it.
    pub fn get(&self, key: &str) -> (r: Option<&Value>)
        ensures
            match r {
                Some(v) => self.model().get(key@) == Some(v.model()),
                None => self.model().get(key@).is_none(),
            },
    {
        match self {
            Value::Object(fields) => {
                let ghost members = member_models(*fields);
                let mut i: usize = 0;
                while i < fields.len()
                    invariant
                        i <= fields.len(),
                        self is Object,
                        self->Object_0 == *fields,
                        members == member_models(*fields),
                        forall|j: int| 0 <= j < i ==> members[j].0 != key@,
                    decreases fields.len() - i,
                {
                    let field = &fields[i];
                    if text_eq(field.0.as_str(), key) {
                        proof {
                            lemma_find_member(members, key@);
                            assert(members[i as int] == (field.0@, field.1.model()));
                        }
                        return Some(&field.1);
                    }
                    i = i + 1;
                }
                proof {
                    lemma_find_member(members, key@);
                }
                None
            },
            _ => None,
        }
    }
}

} // verus!
