//! A JSON value held as plain data, with the lookups that the tools and the
//! model back ends make on tool arguments and API replies.
use vstd::prelude::*;
use crate::text::{owned, str_eq};

verus! {

broadcast use vstd::std_specs::vec::group_vec_axioms;

/// A JSON number as the parser holds it: a non-negative integer, a negative
/// integer, or any other number kept as its decimal text.
pub enum JsonNumber {
    PosInt(u64),
    NegInt(i64),
    Float(String),
}

/// A JSON value. Object members keep their order.
pub enum Json {
    Null,
    Bool(bool),
    Number(JsonNumber),
    Str(String),
    Array(Vec<Json>),
    Object(Vec<(String, Json)>),
}

/// The mathematical view of a JSON number.
pub enum NumberV {
    PosInt(u64),
    NegInt(i64),
    Float(Seq<char>),
}

/// The mathematical view of a JSON value.
pub enum JsonV {
    Null,
    Bool(bool),
    Number(NumberV),
    Str(Seq<char>),
    Array(Seq<JsonV>),
    Object(Seq<(Seq<char>, JsonV)>),
}

pub open spec fn number_view(n: JsonNumber) -> NumberV {
    match n {
        JsonNumber::PosInt(u) => NumberV::PosInt(u),
        JsonNumber::NegInt(i) => NumberV::NegInt(i),
        JsonNumber::Float(s) => NumberV::Float(s@),
    }
}

pub open spec fn json_view(j: Json) -> JsonV
    decreases j,
{
    match j {
        Json::Null => JsonV::Null,
        Json::Bool(b) => JsonV::Bool(b),
        Json::Number(n) => JsonV::Number(number_view(n)),
        Json::Str(s) => JsonV::Str(s@),
        Json::Array(items) => JsonV::Array(
            Seq::new(
                items@.len(),
                |i: int|
                    if 0 <= i < items@.len() {
                        json_view(items@[i])
                    } else {
                        JsonV::Null
                    },
            ),
        ),
        Json::Object(fields) => JsonV::Object(
            Seq::new(
                fields@.len(),
                |i: int|
                    if 0 <= i < fields@.len() {
                        (fields@[i].0@, json_view(fields@[i].1))
                    } else {
                        (Seq::empty(), JsonV::Null)
                    },
            ),
        ),
    }
}

impl View for Json {
    type V = JsonV;

    open spec fn view(&self) -> JsonV {
        json_view(*self)
    }
}

impl View for JsonNumber {
    type V = NumberV;

    open spec fn view(&self) -> NumberV {
        number_view(*self)
    }
}

/// The value of the first member named `key` among `fields`.
pub open spec fn fields_get(fields: Seq<(Seq<char>, JsonV)>, key: Seq<char>) -> Option<JsonV>
    decreases fields.len(),
{
    if fields.len() == 0 {
        None
    } else if fields[0].0 == key {
        Some(fields[0].1)
    } else {
        fields_get(fields.drop_first(), key)
    }
}

/// `value.get(key)`: the member `key` of an object; nothing for other values.
pub open spec fn jget(v: JsonV, key: Seq<char>) -> Option<JsonV> {
    match v {
        JsonV::Object(fields) => fields_get(fields, key),
        _ => None,
    }
}

/// `value[key].as_str()`: the member `key` when it is a string.
pub open spec fn field_str(v: JsonV, key: Seq<char>) -> Option<Seq<char>> {
    match jget(v, key) {
        Some(JsonV::Str(s)) => Some(s),
        _ => None,
    }
}

/// `value[key].as_u64()`: the member `key` when it is a non-negative integer.
pub open spec fn field_u64(v: JsonV, key: Seq<char>) -> Option<u64> {
    match jget(v, key) {
        Some(JsonV::Number(NumberV::PosInt(u))) => Some(u),
        _ => None,
    }
}

/// `value[key].as_bool()`: the member `key` when it is a boolean.
pub open spec fn field_bool(v: JsonV, key: Seq<char>) -> Option<bool> {
    match jget(v, key) {
        Some(JsonV::Bool(b)) => Some(b),
        _ => None,
    }
}

/// `value[key].as_array()`: the member `key` when it is an array.
pub open spec fn field_array(v: JsonV, key: Seq<char>) -> Option<Seq<JsonV>> {
    match jget(v, key) {
        Some(JsonV::Array(items)) => Some(items),
        _ => None,
    }
}

/// The strings among `items`, in order (`filter_map(as_str)`).
pub open spec fn strings_in(items: Seq<JsonV>) -> Seq<Seq<char>>
    decreases items.len(),
{
    if items.len() == 0 {
        Seq::empty()
    } else {
        let rest = strings_in(items.drop_last());
        match items.last() {
            JsonV::Str(s) => rest.push(s),
            _ => rest,
        }
    }
}

pub fn clone_number(n: &JsonNumber) -> (r: JsonNumber)
    ensures
        r@ == n@,
{
    match n {
        JsonNumber::PosInt(u) => JsonNumber::PosInt(*u),
        JsonNumber::NegInt(i) => JsonNumber::NegInt(*i),
        JsonNumber::Float(s) => JsonNumber::Float(s.clone()),
    }
}

impl Json {
    /// A copy of this value.
    #[verifier::loop_isolation(false)]
    pub fn deep_clone(&self) -> (r: Json)
        ensures
            r@ == self@,
        decreases self,
    {
        match self {
            Json::Null => Json::Null,
            Json::Bool(b) => Json::Bool(*b),
            Json::Number(n) => Json::Number(clone_number(n)),
            Json::Str(s) => Json::Str(s.clone()),
            Json::Array(items) => {
                let mut out: Vec<Json> = Vec::new();
                let mut i: usize = 0;
                while i < items.len()
                    invariant
                        i <= items.len(),
                        out@.len() == i,
                        forall|k: int| 0 <= k < i ==> (#[trigger] out@[k])@ == items@[k]@,
                    decreases items.len() - i,
                {
                    proof {
                        assert(decreases_to!(*self => (*self)->Array_0));
                        assert(decreases_to!(*items => items[i as int]));
                        assert(decreases_to!(*self => items[i as int]));
                    }
                    let c = items[i].deep_clone();
                    out.push(c);
                    i = i + 1;
                }
                let r = Json::Array(out);
                assert(r@ =~= self@) by {
                    if let JsonV::Array(a) = json_view(r) {
                        if let JsonV::Array(b) = json_view(*self) {
                            assert(a =~= b);
                        }
                    }
                }
                r
            },
            Json::Object(fields) => {
                let mut out: Vec<(String, Json)> = Vec::new();
                let mut i: usize = 0;
                while i < fields.len()
                    invariant
                        i <= fields.len(),
                        out@.len() == i,
                        forall|k: int|
                            0 <= k < i ==> (#[trigger] out@[k]).0@ == fields@[k].0@ && out@[k].1@
                                == fields@[k].1@,
                    decreases fields.len() - i,
                {
                    let key = fields[i].0.clone();
                    proof {
                        assert(decreases_to!(*self => (*self)->Object_0));
                        assert(decreases_to!(*fields => fields[i as int]));
                        assert(decreases_to!(fields[i as int] => fields[i as int].1));
                        assert(decreases_to!(*self => fields[i as int].1));
                    }
                    let value = fields[i].1.deep_clone();
                    out.push((key, value));
                    i = i + 1;
                }
                let r = Json::Object(out);
                assert(r@ =~= self@) by {
                    if let JsonV::Object(a) = json_view(r) {
                        if let JsonV::Object(b) = json_view(*self) {
                            assert(a =~= b);
                        }
                    }
                }
                r
            },
        }
    }

    /// `value.get(key)` of `serde_json`: the member `key` of an object.
    pub fn get(&self, key: &str) -> (r: Option<&Json>)
        ensures
            match r {
                Some(v) => jget(self@, key@) == Some(v@),
                None => jget(self@, key@) is None,
            },
    {
        match self {
            Json::Object(fields) => {
                let ghost fv = match self@ {
                    JsonV::Object(f) => f,
                    _ => Seq::empty(),
                };
                assert(fv.len() == fields@.len());
                assert(fv.skip(0) =~= fv);
                let mut i: usize = 0;
                while i < fields.len()
                    invariant
                        i <= fields.len(),
                        fv.len() == fields@.len(),
                        self@ == JsonV::Object(fv),
                        forall|k: int|
                            0 <= k < fields@.len() ==> #[trigger] fv[k] == (
                                fields@[k].0@,
                                fields@[k].1@,
                            ),
                        fields_get(fv, key@) == fields_get(fv.skip(i as int), key@),
                    decreases fields.len() - i,
                {
                    assert(fv.skip(i as int)[0] == fv[i as int]);
                    assert(fv.skip(i as int).drop_first() =~= fv.skip(i + 1));
                    if str_eq(fields[i].0.as_str(), key) {
                        assert(fv[i as int].0 == key@);
                        assert(fv.skip(i as int)[0] == fv[i as int]);
                        assert(fields_get(fv.skip(i as int), key@) == Some(fv[i as int].1));
                        assert(jget(self@, key@) == fields_get(fv, key@));
                        return Some(&fields[i].1);
                    }
                    i = i + 1;
                }
                assert(fv.skip(i as int).len() == 0);
                None
            },
            _ => None,
        }
    }

    /// `value[key].as_str()`, owned.
    pub fn str_field(&self, key: &str) -> (r: Option<String>)
        ensures
            match r {
                Some(s) => field_str(self@, key@) == Some(s@),
                None => field_str(self@, key@) is None,
            },
    {
        match self.get(key) {
            Some(Json::Str(s)) => Some(s.clone()),
            _ => None,
        }
    }

    /// `value[key].as_u64()`.
    pub fn u64_field(&self, key: &str) -> (r: Option<u64>)
        ensures
            r == field_u64(self@, key@),
    {
        match self.get(key) {
            Some(Json::Number(JsonNumber::PosInt(u))) => Some(*u),
            _ => None,
        }
    }

    /// `value[key].as_bool()`.
    pub fn bool_field(&self, key: &str) -> (r: Option<bool>)
        ensures
            r == field_bool(self@, key@),
    {
        match self.get(key) {
            Some(Json::Bool(b)) => Some(*b),
            _ => None,
        }
    }

    /// The strings of the array member `key` (`as_array` then `filter_map(as_str)`),
    /// or `None` when that member is not an array.
    pub fn string_items(&self, key: &str) -> (r: Option<Vec<String>>)
        ensures
            match r {
                Some(v) => field_array(self@, key@) matches Some(items) && v@.map_values(
                    |s: String| s@,
                ) == strings_in(items),
                None => field_array(self@, key@) is None,
            },
    {
        match self.get(key) {
            Some(Json::Array(items)) => {
                let ghost iv = match jget(self@, key@) {
                    Some(JsonV::Array(a)) => a,
                    _ => Seq::empty(),
                };
                assert(iv.len() == items@.len());
                let mut out: Vec<String> = Vec::new();
                let mut i: usize = 0;
                while i < items.len()
                    invariant
                        i <= items.len(),
                        iv.len() == items@.len(),
                        forall|k: int| 0 <= k < items@.len() ==> #[trigger] iv[k] == items@[k]@,
                        out@.map_values(|s: String| s@) == strings_in(iv.take(i as int)),
                    decreases items.len() - i,
                {
                    assert(iv.take(i + 1).drop_last() =~= iv.take(i as int));
                    match &items[i] {
                        Json::Str(s) => {
                            out.push(s.clone());
                        },
                        _ => {},
                    }
                    assert(out@.map_values(|s: String| s@) =~= strings_in(iv.take(i + 1)));
                    i = i + 1;
                }
                assert(iv.take(items.len() as int) =~= iv);
                Some(out)
            },
            _ => None,
        }
    }
}

/// `{"key": value}` with a single member.
pub fn single_member(key: &str, value: Json) -> (r: Json)
    ensures
        r@ == JsonV::Object(seq![(key@, value@)]),
{
    let mut fields: Vec<(String, Json)> = Vec::new();
    fields.push((owned(key), value));
    let r = Json::Object(fields);
    assert(r@ =~= JsonV::Object(seq![(key@, value@)])) by {
        if let JsonV::Object(a) = json_view(r) {
            assert(a =~= seq![(key@, value@)]);
        }
    }
    r
}

} // verus!
