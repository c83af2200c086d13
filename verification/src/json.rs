//! JSON values as the JSON-RPC layer sees them.
//!
//! `JsonValue` is the executable tree; `Json` is its mathematical model, with
//! strings as `Seq<char>` and integers as `int`. Numbers that are not integers
//! are kept as the text that names them, so the library never holds a float.
use vstd::prelude::*;

verus! {

/// The model of a JSON value.
pub enum Json {
    Null,
    Bool(bool),
    Int(int),
    /// A number that is not an integer, by its text.
    Float(Seq<char>),
    Str(Seq<char>),
    Array(Seq<Json>),
    /// Members in document order; a later member shadows an earlier one with the same key.
    Object(Seq<(Seq<char>, Json)>),
}

/// The member under `key` in `members`: the last one with that key, as in a
/// JSON object where a repeated key overwrites the earlier value.
pub open spec fn lookup(members: Seq<(Seq<char>, Json)>, key: Seq<char>) -> Option<Json>
    decreases members.len(),
{
    if members.len() == 0 {
        None
    } else if members.last().0 == key {
        Some(members.last().1)
    } else {
        lookup(members.drop_last(), key)
    }
}

impl Json {
    /// The member under `key` when `self` is an object.
    pub open spec fn get(self, key: Seq<char>) -> Option<Json> {
        match self {
            Json::Object(members) => lookup(members, key),
            _ => None,
        }
    }

    /// The text of `self` when it is a string.
    pub open spec fn as_str(self) -> Option<Seq<char>> {
        match self {
            Json::Str(s) => Some(s),
            _ => None,
        }
    }
}

/// The model of an optional value, `null` standing for an absent one.
pub open spec fn or_null(v: Option<Json>) -> Json {
    match v {
        Some(j) => j,
        None => Json::Null,
    }
}

/// A JSON value.
#[derive(Debug, PartialEq)]
pub enum JsonValue {
    Null,
    Bool(bool),
    Int(i128),
    /// A number that is not an integer, by its text.
    Float(String),
    Str(String),
    Array(Vec<JsonValue>),
    /// Members in document order.
    Object(Vec<(String, JsonValue)>),
}

/// The model of the members of an object.
pub open spec fn members_model(members: Seq<(String, JsonValue)>) -> Seq<(Seq<char>, Json)> {
    Seq::new(members.len(), |i: int| (members[i].0@, members[i].1@))
}

impl JsonValue {
    pub open spec fn model(self) -> Json
        decreases self,
    {
        match self {
            JsonValue::Null => Json::Null,
            JsonValue::Bool(b) => Json::Bool(b),
            JsonValue::Int(n) => Json::Int(n as int),
            JsonValue::Float(t) => Json::Float(t@),
            JsonValue::Str(s) => Json::Str(s@),
            JsonValue::Array(items) => Json::Array(
                Seq::new(
                    items@.len(),
                    |i: int|
                        if 0 <= i < items@.len() {
                            items@[i].model()
                        } else {
                            Json::Null
                        },
                ),
            ),
            JsonValue::Object(members) => Json::Object(
                Seq::new(
                    members@.len(),
                    |i: int|
                        if 0 <= i < members@.len() {
                            (members@[i].0@, members@[i].1.model())
                        } else {
                            (Seq::empty(), Json::Null)
                        },
                ),
            ),
        }
    }
}

impl View for JsonValue {
    type V = Json;

    open spec fn view(&self) -> Json {
        self.model()
    }
}

/// The model of an optional value.
pub open spec fn opt_model(v: Option<JsonValue>) -> Option<Json> {
    match v {
        Some(j) => Some(j@),
        None => None,
    }
}

/// Builds a string value.
pub fn json_string(s: String) -> (r: JsonValue)
    ensures
        r@ == Json::Str(s@),
{
    JsonValue::Str(s)
}

/// `v`, or `null` where it is absent.
pub fn value_or_null(v: Option<JsonValue>) -> (r: JsonValue)
    ensures
        r@ == or_null(opt_model(v)),
{
    match v {
        Some(j) => j,
        None => JsonValue::Null,
    }
}

/// Builds an object from its members, in the order given.
pub fn json_object(members: Vec<(String, JsonValue)>) -> (r: JsonValue)
    ensures
        r@ == Json::Object(members_model(members@)),
{
    let r = JsonValue::Object(members);
    proof {
        assert(r@->Object_0 =~= members_model(members@));
    }
    r
}

impl JsonValue {
    /// A copy of `self`.
    pub fn copy(&self) -> (r: JsonValue)
        ensures
            r@ == self@,
        decreases self,
    {
        match self {
            JsonValue::Null => JsonValue::Null,
            JsonValue::Bool(b) => JsonValue::Bool(*b),
            JsonValue::Int(n) => JsonValue::Int(*n),
            JsonValue::Float(t) => JsonValue::Float(t.clone()),
            JsonValue::Str(s) => JsonValue::Str(s.clone()),
            JsonValue::Array(items) => {
                let mut out: Vec<JsonValue> = Vec::new();
                let mut i: usize = 0;
                while i < items.len()
                    invariant
                        *self == JsonValue::Array(*items),
                        i <= items@.len(),
                        out@.len() == i,
                        forall|j: int| 0 <= j < i ==> (#[trigger] out@[j])@ == items@[j]@,
                    decreases items@.len() - i,
                {
                    proof {
                        assert(decreases_to!(*self => (*self)->Array_0));
                        assert(decreases_to!(*items => items[i as int]));
                    }
                    let c = items[i].copy();
                    out.push(c);
                    i = i + 1;
                }
                let r = JsonValue::Array(out);
                proof {
                    assert(r@->Array_0 =~= self@->Array_0);
                }
                r
            },
            JsonValue::Object(members) => {
                let mut out: Vec<(String, JsonValue)> = Vec::new();
                let mut i: usize = 0;
                while i < members.len()
                    invariant
                        *self == JsonValue::Object(*members),
                        i <= members@.len(),
                        out@.len() == i,
                        forall|j: int|
                            0 <= j < i ==> (#[trigger] out@[j]).0@ == members@[j].0@ && out@[j].1@
                                == members@[j].1@,
                    decreases members@.len() - i,
                {
                    proof {
                        assert(decreases_to!(*self => (*self)->Object_0));
                        assert(decreases_to!(*members => members[i as int]));
                        assert(decreases_to!(members[i as int] => members[i as int].1));
                    }
                    let k = members[i].0.clone();
                    let c = members[i].1.copy();
                    out.push((k, c));
                    i = i + 1;
                }
                let r = JsonValue::Object(out);
                proof {
                    assert(r@->Object_0 =~= self@->Object_0);
                }
                r
            },
        }
    }
}

/// The model of an optional borrowed value.
pub open spec fn opt_ref_model(v: Option<&JsonValue>) -> Option<Json> {
    match v {
        Some(j) => Some(j@),
        None => None,
    }
}

impl JsonValue {
    /// Whether `self` is an object.
    pub fn is_object(&self) -> (r: bool)
        ensures
            r == (self@ is Object),
    {
        match self {
            JsonValue::Object(_) => true,
            _ => false,
        }
    }

    /// The member of `self` under `key`, when `self` is an object that has one.
    pub fn member(&self, key: &str) -> (r: Option<&JsonValue>)
        ensures
            opt_ref_model(r) == self@.get(key@),
    {
        match self {
            JsonValue::Object(members) => {
                let ghost all = self@->Object_0;
                let mut i: usize = members.len();
                proof {
                    assert(all.take(i as int) =~= all);
                }
                while i > 0
                    invariant
                        *self == JsonValue::Object(*members),
                        all == self@->Object_0,
                        all.len() == members@.len(),
                        i <= members@.len(),
                        lookup(all.take(i as int), key@) == lookup(all, key@),
                    decreases i,
                {
                    let k = i - 1;
                    proof {
                        assert(all[k as int] == (members@[k as int].0@, members@[k as int].1@));
                        assert(all.take(i as int).last() == all[k as int]);
                        assert(all.take(i as int).drop_last() =~= all.take(k as int));
                    }
                    if crate::text::same_text(members[k].0.as_str(), key) {
                        return Some(&members[k].1);
                    }
                    i = k;
                }
                None
            },
            _ => None,
        }
    }

    /// The text of `self`, when it is a string.
    pub fn text(&self) -> (r: Option<&String>)
        ensures
            match r {
                Some(t) => self@.as_str() == Some(t@),
                None => self@.as_str() is None,
            },
    {
        match self {
            JsonValue::Str(s) => Some(s),
            _ => None,
        }
    }
}

/// A member lookup finds the last member with that key, and finds nothing
/// exactly when no member has it.
pub proof fn law_lookup_last_wins(members: Seq<(Seq<char>, Json)>, key: Seq<char>)
    ensures
        lookup(members, key) is None <==> forall|i: int| 0 <= i < members.len() ==> (#[trigger] members[i]).0 != key,
        lookup(members, key) matches Some(v) ==> exists|i: int|
            0 <= i < members.len() && #[trigger] members[i] == (key, v) && forall|j: int|
                i < j < members.len() ==> (#[trigger] members[j]).0 != key,
    decreases members.len(),
{
    if members.len() > 0 {
        let rest = members.drop_last();
        law_lookup_last_wins(rest, key);
        let n = members.len() - 1;
        if members.last().0 == key {
            assert(members[n] == (key, members.last().1));
        } else {
            assert forall|i: int| 0 <= i < rest.len() implies rest[i] == members[i] by {}
            if lookup(rest, key) is None {
                assert forall|i: int| 0 <= i < members.len() implies (#[trigger] members[i]).0 != key by {
                    if i < n {
                        assert(rest[i] == members[i]);
                    }
                }
            } else {
                let v = lookup(rest, key)->0;
                let i = choose|i: int|
                    0 <= i < rest.len() && #[trigger] rest[i] == (key, v) && forall|j: int|
                        i < j < rest.len() ==> (#[trigger] rest[j]).0 != key;
                assert(members[i] == (key, v));
                assert forall|j: int| i < j < members.len() implies (#[trigger] members[j]).0 != key by {
                    if j < n {
                        assert(rest[j] == members[j]);
                    }
                }
            }
            if forall|i: int| 0 <= i < members.len() ==> (#[trigger] members[i]).0 != key {
                assert forall|i: int| 0 <= i < rest.len() implies (#[trigger] rest[i]).0 != key by {
                    assert(rest[i] == members[i]);
                }
            }
        }
    }
}

/// The model of a value keeps what the value holds: its flag, its integer,
/// its texts, and item by item its array and its members.
pub proof fn law_json_model(v: JsonValue)
    ensures
        v matches JsonValue::Null ==> v@ == Json::Null,
        v matches JsonValue::Bool(b) ==> v@ == Json::Bool(b),
        v matches JsonValue::Int(n) ==> v@ == Json::Int(n as int),
        v matches JsonValue::Float(t) ==> v@ == Json::Float(t@),
        v matches JsonValue::Str(t) ==> v@ == Json::Str(t@),
        v matches JsonValue::Array(items) ==> v@ is Array && v@->Array_0.len() == items@.len() && forall|
            i: int,
        | 0 <= i < items@.len() ==> v@->Array_0[i] == (#[trigger] items@[i])@,
        v matches JsonValue::Object(members) ==> v@ is Object && v@->Object_0.len() == members@.len()
            && forall|i: int|
            0 <= i < members@.len() ==> v@->Object_0[i] == ((#[trigger] members@[i]).0@, members@[i].1@),
        forall|m: Seq<(String, JsonValue)>, i: int|
            0 <= i < m.len() ==> #[trigger] members_model(m)[i] == (m[i].0@, m[i].1@) && members_model(m).len()
                == m.len(),
{
}

} // verus!
