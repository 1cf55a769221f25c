//! JSON values as the tunnel protocol carries them.

use vstd::prelude::*;

verus! {

/// A JSON number, kept in the three forms a JSON parser distinguishes.
#[derive(Debug, PartialEq)]
pub enum JsonNumber {
    PosInt(u64),
    NegInt(i64),
    /// A number with a fraction or exponent, kept as its decimal text.
    Float(String),
}

/// A JSON value.  Objects keep their members in order.
#[derive(Debug, PartialEq)]
pub enum JsonValue {
    Null,
    Bool(bool),
    Number(JsonNumber),
    String(String),
    Array(Vec<JsonValue>),
    Object(Vec<(String, JsonValue)>),
}

/// The mathematical content of a JSON number.
pub enum NumberView {
    PosInt(u64),
    NegInt(i64),
    Float(Seq<char>),
}

/// The mathematical content of a JSON value.
pub enum JsonView {
    Null,
    Bool(bool),
    Number(NumberView),
    Str(Seq<char>),
    Array(Seq<JsonView>),
    Object(Seq<(Seq<char>, JsonView)>),
}

impl JsonNumber {
    pub open spec fn num_view(self) -> NumberView {
        match self {
            JsonNumber::PosInt(n) => NumberView::PosInt(n),
            JsonNumber::NegInt(n) => NumberView::NegInt(n),
            JsonNumber::Float(s) => NumberView::Float(s@),
        }
    }
}

impl JsonValue {
    pub open spec fn json_view(self) -> JsonView
        decreases self,
    {
        match self {
            JsonValue::Null => JsonView::Null,
            JsonValue::Bool(b) => JsonView::Bool(b),
            JsonValue::Number(n) => JsonView::Number(n.num_view()),
            JsonValue::String(s) => JsonView::Str(s@),
            JsonValue::Array(items) => JsonView::Array(
                Seq::new(
                    items@.len(),
                    |i: int|
                        if 0 <= i < items@.len() {
                            proof {
                                assert(decreases_to!(items => items[i]));
                            }
                            items[i].json_view()
                        } else {
                            JsonView::Null
                        },
                ),
            ),
            JsonValue::Object(fields) => JsonView::Object(
                Seq::new(
                    fields@.len(),
                    |i: int|
                        if 0 <= i < fields@.len() {
                            proof {
                                assert(decreases_to!(fields => fields[i]));
                                assert(decreases_to!(fields[i] => fields[i].1));
                            }
                            (fields[i].0@, fields[i].1.json_view())
                        } else {
                            (Seq::empty(), JsonView::Null)
                        },
                ),
            ),
        }
    }
}

/// The first member of an object whose name is `key`.
pub open spec fn first_member(fields: Seq<(Seq<char>, JsonView)>, key: Seq<char>) -> Option<JsonView>
    decreases fields.len(),
{
    if fields.len() == 0 {
        None
    } else if fields[0].0 == key {
        Some(fields[0].1)
    } else {
        first_member(fields.drop_first(), key)
    }
}

/// The view of an object's member list.
pub open spec fn fields_view(fields: Seq<(String, JsonValue)>) -> Seq<(Seq<char>, JsonView)> {
    Seq::new(fields.len(), |i: int| (fields[i].0@, fields[i].1@))
}

/// The view of an array's items.
pub open spec fn items_view(items: Seq<JsonValue>) -> Seq<JsonView> {
    Seq::new(items.len(), |i: int| items[i]@)
}

impl JsonView {
    /// The member named `key` of an object; `None` for anything else.
    pub open spec fn member(self, key: Seq<char>) -> Option<JsonView> {
        match self {
            JsonView::Object(fields) => first_member(fields, key),
            _ => None,
        }
    }

    /// The text of a JSON string.
    pub open spec fn text(self) -> Option<Seq<char>> {
        match self {
            JsonView::Str(s) => Some(s),
            _ => None,
        }
    }

    /// A number that is a non-negative integer (`serde_json::Value::as_u64`).
    pub open spec fn unsigned(self) -> Option<u64> {
        match self {
            JsonView::Number(NumberView::PosInt(n)) => Some(n),
            _ => None,
        }
    }

    /// The string value with the given text.
    pub open spec fn string(s: Seq<char>) -> JsonView {
        JsonView::Str(s)
    }
}

impl View for JsonValue {
    type V = JsonView;

    open spec fn view(&self) -> JsonView {
        self.json_view()
    }
}

impl JsonValue {
    /// The view of an object built from `fields`.
    pub proof fn lemma_object_view(fields: Vec<(String, JsonValue)>)
        ensures
            JsonValue::Object(fields)@ == JsonView::Object(fields_view(fields@)),
    {
        assert(JsonValue::Object(fields)@->Object_0 =~= fields_view(fields@));
    }

    /// The view of an array built from `items`.
    pub proof fn lemma_array_view(items: Vec<JsonValue>)
        ensures
            JsonValue::Array(items)@ == JsonView::Array(items_view(items@)),
    {
        assert(JsonValue::Array(items)@->Array_0 =~= items_view(items@));
    }

    /// The JSON number `n`, as a JSON parser holds it.
    pub open spec fn int_view(n: int) -> JsonView {
        if n >= 0 {
            JsonView::Number(NumberView::PosInt(n as u64))
        } else {
            JsonView::Number(NumberView::NegInt(n as i64))
        }
    }

    /// The JSON number `n`.
    pub fn from_i64(n: i64) -> (v: JsonValue)
        ensures
            v@ == Self::int_view(n as int),
    {
        if n >= 0 {
            JsonValue::Number(JsonNumber::PosInt(n as u64))
        } else {
            JsonValue::Number(JsonNumber::NegInt(n))
        }
    }

    /// The JSON number `n`.
    pub fn from_u64(n: u64) -> (v: JsonValue)
        ensures
            v@ == Self::int_view(n as int),
    {
        JsonValue::Number(JsonNumber::PosInt(n))
    }

    /// An object of one member.
    pub fn object1(k1: &str, v1: JsonValue) -> (r: JsonValue)
        ensures
            r@ == JsonView::Object(seq![(k1@, v1@)]),
    {
        let ghost w1 = v1@;
        let mut f: Vec<(String, JsonValue)> = Vec::new();
        f.push((k1.to_string(), v1));
        proof {
            Self::lemma_object_view(f);
            assert(fields_view(f@) =~= seq![(k1@, w1)]);
        }
        JsonValue::Object(f)
    }

    /// An object of two members.
    pub fn object2(k1: &str, v1: JsonValue, k2: &str, v2: JsonValue) -> (r: JsonValue)
        ensures
            r@ == JsonView::Object(seq![(k1@, v1@), (k2@, v2@)]),
    {
        let ghost w1 = v1@;
        let ghost w2 = v2@;
        let mut f: Vec<(String, JsonValue)> = Vec::new();
        f.push((k1.to_string(), v1));
        f.push((k2.to_string(), v2));
        proof {
            Self::lemma_object_view(f);
            assert(fields_view(f@) =~= seq![(k1@, w1), (k2@, w2)]);
        }
        JsonValue::Object(f)
    }

    /// An object of three members.
    pub fn object3(k1: &str, v1: JsonValue, k2: &str, v2: JsonValue, k3: &str, v3: JsonValue) -> (r: JsonValue)
        ensures
            r@ == JsonView::Object(seq![(k1@, v1@), (k2@, v2@), (k3@, v3@)]),
    {
        let ghost w1 = v1@;
        let ghost w2 = v2@;
        let ghost w3 = v3@;
        let mut f: Vec<(String, JsonValue)> = Vec::new();
        f.push((k1.to_string(), v1));
        f.push((k2.to_string(), v2));
        f.push((k3.to_string(), v3));
        proof {
            Self::lemma_object_view(f);
            assert(fields_view(f@) =~= seq![(k1@, w1), (k2@, w2), (k3@, w3)]);
        }
        JsonValue::Object(f)
    }

    /// An object of four members.
    pub fn object4(k1: &str, v1: JsonValue, k2: &str, v2: JsonValue, k3: &str, v3: JsonValue, k4: &str, v4: JsonValue)
        -> (r: JsonValue)
        ensures
            r@ == JsonView::Object(seq![(k1@, v1@), (k2@, v2@), (k3@, v3@), (k4@, v4@)]),
    {
        let ghost w1 = v1@;
        let ghost w2 = v2@;
        let ghost w3 = v3@;
        let ghost w4 = v4@;
        let mut f: Vec<(String, JsonValue)> = Vec::new();
        f.push((k1.to_string(), v1));
        f.push((k2.to_string(), v2));
        f.push((k3.to_string(), v3));
        f.push((k4.to_string(), v4));
        proof {
            Self::lemma_object_view(f);
            assert(fields_view(f@) =~= seq![(k1@, w1), (k2@, w2), (k3@, w3), (k4@, w4)]);
        }
        JsonValue::Object(f)
    }

    /// A JSON string holding `s`.
    pub fn from_str(s: &str) -> (v: JsonValue)
        ensures
            v@ == JsonView::Str(s@),
    {
        JsonValue::String(s.to_string())
    }

    /// A copy of this value.
    pub fn duplicate(&self) -> (r: JsonValue)
        ensures
            r@ == self@,
        decreases self,
    {
        match self {
            JsonValue::Null => {
                JsonValue::Null
            },
            JsonValue::Bool(b) => JsonValue::Bool(*b),
            JsonValue::Number(JsonNumber::PosInt(n)) => JsonValue::Number(JsonNumber::PosInt(*n)),
            JsonValue::Number(JsonNumber::NegInt(n)) => JsonValue::Number(JsonNumber::NegInt(*n)),
            JsonValue::Number(JsonNumber::Float(t)) => JsonValue::Number(JsonNumber::Float(t.clone())),
            JsonValue::String(t) => JsonValue::String(t.clone()),
            JsonValue::Array(items) => {
                let mut out: Vec<JsonValue> = Vec::new();
                let mut i: usize = 0;
                while i < items.len()
                    invariant
                        *self == JsonValue::Array(*items),
                        i <= items.len(),
                        out@.len() == i,
                        forall|j: int| 0 <= j < i ==> #[trigger] out@[j]@ == items@[j]@,
                    decreases items.len() - i,
                {
                    proof {
                        assert(decreases_to!(*self => self->Array_0));
                        assert(decreases_to!(*items => items[i as int]));
                        assert(decreases_to!(*self => items[i as int]));
                    }
                    out.push(items[i].duplicate());
                    i = i + 1;
                }
                proof {
                    JsonValue::lemma_array_view(out);
                    JsonValue::lemma_array_view(*items);
                    assert(items_view(out@) =~= items_view(items@));
                }
                JsonValue::Array(out)
            },
            JsonValue::Object(fields) => {
                let mut out: Vec<(String, JsonValue)> = Vec::new();
                let mut i: usize = 0;
                while i < fields.len()
                    invariant
                        *self == JsonValue::Object(*fields),
                        i <= fields.len(),
                        out@.len() == i,
                        forall|j: int|
                            0 <= j < i ==> (#[trigger] out@[j]).0@ == fields@[j].0@ && out@[j].1@
                                == fields@[j].1@,
                    decreases fields.len() - i,
                {
                    let name = fields[i].0.clone();
                    proof {
                        assert(decreases_to!(*self => self->Object_0));
                        assert(decreases_to!(*fields => fields[i as int]));
                        assert(decreases_to!(fields[i as int] => fields[i as int].1));
                        assert(decreases_to!(*self => fields[i as int].1));
                    }
                    let value = fields[i].1.duplicate();
                    out.push((name, value));
                    i = i + 1;
                }
                proof {
                    JsonValue::lemma_object_view(out);
                    JsonValue::lemma_object_view(*fields);
                    assert(fields_view(out@) =~= fields_view(fields@));
                }
                JsonValue::Object(out)
            },
        }
    }

    /// The member named `key`, when this is an object that has one
    /// (`serde_json::Value::get` with a string index).
    pub fn get(&self, key: &str) -> (r: Option<&JsonValue>)
        ensures
            match r {
                Some(v) => self@.member(key@) == Some(v@),
                None => self@.member(key@) is None,
            },
    {
        match self {
            JsonValue::Object(fields) => {
                assert(*self == JsonValue::Object(*fields));
                let ghost fv = fields_view(fields@);
                proof {
                    JsonValue::lemma_object_view(*fields);
                    assert(fv.skip(0) =~= fv);
                }
                let wanted = key.to_string();
                let mut i: usize = 0;
                while i < fields.len()
                    invariant
                        i <= fields.len(),
                        fv == fields_view(fields@),
                        self@ == JsonView::Object(fv),
                        first_member(fv, key@) == first_member(fv.skip(i as int), key@),
                        wanted@ == key@,
                    decreases fields.len() - i,
                {
                    assert(fv.skip(i as int)[0] == fv[i as int]);
                    if fields[i].0 == wanted {
                        assert(fv[i as int].0 == key@);
                        assert(first_member(fv.skip(i as int), key@) == Some(fv[i as int].1));
                        assert(fv[i as int].1 == fields@[i as int].1@);
                        return Some(&fields[i].1);
                    }
                    assert(fv.skip(i as int).drop_first() =~= fv.skip(i + 1));
                    i = i + 1;
                }
                None
            },
            _ => None,
        }
    }

    /// The text of a JSON string.
    pub fn as_str(&self) -> (r: Option<&str>)
        ensures
            match r {
                Some(t) => self@.text() == Some(t@),
                None => self@.text() is None,
            },
    {
        match self {
            JsonValue::String(t) => Some(t.as_str()),
            _ => None,
        }
    }

    /// The value of a non-negative integer.
    pub fn as_u64(&self) -> (r: Option<u64>)
        ensures
            r == self@.unsigned(),
    {
        match self {
            JsonValue::Number(JsonNumber::PosInt(n)) => Some(*n),
            _ => None,
        }
    }
}

} // verus!
