use vstd::prelude::*;

verus! {

/// JSON values (`serde_json::Value`) are carried through the library as they
/// are: nothing here looks inside them.
#[verifier::external_type_specification]
#[verifier::external_body]
pub struct ExJsonValue(serde_json::Value);

/// `serde_json::Value::clone`: the derived clone of a JSON value, taken as
/// the same value.
pub assume_specification[ <serde_json::Value as Clone>::clone ](v: &serde_json::Value) -> (res: serde_json::Value)
    ensures
        res == *v,
;


/// A 64-bit IEEE-754 number, carried by its bits.
#[derive(Debug, Clone, Copy, PartialEq, Eq, Structural)]
pub struct Real64 {
    pub bits: u64,
}

/// A 32-bit IEEE-754 number, carried by its bits.
#[derive(Debug, Clone, Copy, PartialEq, Eq, Structural)]
pub struct Real32 {
    pub bits: u32,
}

/// A JSON number: a non-negative integer, a negative integer, or a
/// floating-point number.
#[derive(Debug, Clone, Copy, PartialEq, Eq, Structural)]
pub enum JsonNumber {
    PosInt(u64),
    NegInt(i64),
    Float(Real64),
}

/// A JSON document.
#[derive(Debug)]
pub enum Json {
    Null,
    Bool(bool),
    Number(JsonNumber),
    Str(String),
    Array(Vec<Json>),
    Object(Vec<(String, Json)>),
}

/// A JSON document as a mathematical value.
pub enum JsonV {
    Null,
    Bool(bool),
    Number(JsonNumber),
    Str(Seq<char>),
    Array(Seq<JsonV>),
    Object(Seq<(Seq<char>, JsonV)>),
}

/// The mathematical value of a JSON document.
pub open spec fn json_view(j: Json) -> JsonV
    decreases j,
{
    match j {
        Json::Null => JsonV::Null,
        Json::Bool(b) => JsonV::Bool(b),
        Json::Number(n) => JsonV::Number(n),
        Json::Str(s) => JsonV::Str(s@),
        Json::Array(items) => JsonV::Array(
            Seq::new(
                items@.len(),
                |i: int|
                    if 0 <= i < items@.len() {
                        json_view(items@[i])
                    } else {
                        JsonV::Null
                    },
            ),
        ),
        Json::Object(fields) => JsonV::Object(
            Seq::new(
                fields@.len(),
                |i: int|
                    if 0 <= i < fields@.len() {
                        (fields@[i].0@, json_view(fields@[i].1))
                    } else {
                        (Seq::empty(), JsonV::Null)
                    },
            ),
        ),
    }
}


impl View for Json {
    type V = JsonV;

    open spec fn view(&self) -> JsonV {
        json_view(*self)
    }
}

/// The value under `key` in a list of object members: the first member with
/// that key.
pub open spec fn member(fields: Seq<(Seq<char>, JsonV)>, key: Seq<char>) -> Option<JsonV>
    decreases fields.len(),
{
    if fields.len() == 0 {
        None
    } else if fields[0].0 == key {
        Some(fields[0].1)
    } else {
        member(fields.drop_first(), key)
    }
}

/// Object members as mathematical values.
pub open spec fn members_view(fields: Seq<(String, Json)>) -> Seq<(Seq<char>, JsonV)> {
    Seq::new(fields.len(), |i: int| (fields[i].0@, fields[i].1@))
}

/// Array items as mathematical values.
pub open spec fn items_view(items: Seq<Json>) -> Seq<JsonV> {
    Seq::new(items.len(), |i: int| items[i]@)
}

impl JsonV {
    /// The member `key` of an object; nothing for a missing key or a value
    /// that is no object.
    pub open spec fn get(self, key: Seq<char>) -> Option<JsonV> {
        match self {
            JsonV::Object(fields) => member(fields, key),
            _ => None,
        }
    }

    /// The member `key` of an object, `Null` where there is none.
    pub open spec fn at(self, key: Seq<char>) -> JsonV {
        match self.get(key) {
            Some(v) => v,
            None => JsonV::Null,
        }
    }

    /// The characters of a string value.
    pub open spec fn as_str(self) -> Option<Seq<char>> {
        match self {
            JsonV::Str(s) => Some(s),
            _ => None,
        }
    }

    /// A number that is a non-negative integer.
    pub open spec fn as_u64(self) -> Option<u64> {
        match self {
            JsonV::Number(JsonNumber::PosInt(n)) => Some(n),
            _ => None,
        }
    }
}

/// An object document is viewed as the object of its members' views.
pub proof fn lemma_object_view(fields: Vec<(String, Json)>)
    ensures
        Json::Object(fields)@ == JsonV::Object(members_view(fields@)),
{
    assert(Json::Object(fields)@->Object_0 =~= members_view(fields@));
}

/// An array document is viewed as the array of its items' views.
pub proof fn lemma_array_view(items: Vec<Json>)
    ensures
        Json::Array(items)@ == JsonV::Array(items_view(items@)),
{
    assert(Json::Array(items)@->Array_0 =~= items_view(items@));
}

impl Json {
    /// A string value.
    pub fn string(s: &str) -> (res: Json)
        ensures
            res@ == JsonV::Str(s@),
    {
        Json::Str(String::from_str(s))
    }

    /// An object with the given members, in order.
    pub fn object(fields: Vec<(String, Json)>) -> (res: Json)
        ensures
            res@ == JsonV::Object(members_view(fields@)),
    {
        proof {
            lemma_object_view(fields);
        }
        Json::Object(fields)
    }

    /// An array with the given items, in order.
    pub fn array(items: Vec<Json>) -> (res: Json)
        ensures
            res@ == JsonV::Array(items_view(items@)),
    {
        proof {
            lemma_array_view(items);
        }
        Json::Array(items)
    }

    /// The member `key` of an object.
    pub fn get(&self, key: &str) -> (res: Option<&Json>)
        ensures
            match res {
                Some(v) => self@.get(key@) == Some(v@),
                None => self@.get(key@) is None,
            },
    {
        match self {
            Json::Object(fields) => {
                proof {
                    lemma_object_view(*fields);
                    assert(members_view(fields@).skip(0) =~= members_view(fields@));
                }
                let mut i: usize = 0;
                while i < fields.len()
                    invariant
                        i <= fields.len(),
                        self@ == JsonV::Object(members_view(fields@)),
                        member(members_view(fields@), key@) == member(members_view(fields@).skip(i as int), key@),
                    decreases fields.len() - i,
                {
                    let ghost rest = members_view(fields@).skip(i as int);
                    assert(rest.drop_first() =~= members_view(fields@).skip(i + 1));
                    if crate::text::equals(fields[i].0.as_str(), key) {
                        return Some(&fields[i].1);
                    }
                    i = i + 1;
                }
                assert(members_view(fields@).skip(i as int).len() == 0);
                None
            },
            _ => None,
        }
    }

    /// The characters of a string value.
    pub fn as_str(&self) -> (res: Option<&str>)
        ensures
            match res {
                Some(s) => self@.as_str() == Some(s@),
                None => self@.as_str() is None,
            },
    {
        match self {
            Json::Str(s) => Some(s.as_str()),
            _ => None,
        }
    }

    /// A number that is a non-negative integer.
    pub fn as_u64(&self) -> (res: Option<u64>)
        ensures
            res == self@.as_u64(),
    {
        match self {
            Json::Number(JsonNumber::PosInt(n)) => Some(*n),
            _ => None,
        }
    }

    /// Whether the value is an object.
    pub fn is_object(&self) -> (res: bool)
        ensures
            res == self@ is Object,
    {
        match self {
            Json::Object(_) => true,
            _ => false,
        }
    }

    /// Whether the value is an array.
    pub fn is_array(&self) -> (res: bool)
        ensures
            res == self@ is Array,
    {
        match self {
            Json::Array(_) => true,
            _ => false,
        }
    }

    /// The items of an array.
    pub fn as_array(&self) -> (res: Option<&Vec<Json>>)
        ensures
            match res {
                Some(items) => self@ == JsonV::Array(items_view(items@)),
                None => !(self@ is Array),
            },
    {
        match self {
            Json::Array(items) => {
                proof {
                    lemma_array_view(*items);
                }
                Some(items)
            },
            _ => None,
        }
    }

    /// The string member `key` of an object, as `value[key].as_str()` reads it.
    pub fn str_at(&self, key: &str) -> (res: Option<&str>)
        ensures
            match res {
                Some(s) => self@.at(key@).as_str() == Some(s@),
                None => self@.at(key@).as_str() is None,
            },
    {
        match self.get(key) {
            Some(v) => v.as_str(),
            None => None,
        }
    }

    /// The non-negative integer member `key` of an object, as
    /// `value[key].as_u64()` reads it.
    pub fn u64_at(&self, key: &str) -> (res: Option<u64>)
        ensures
            res == self@.at(key@).as_u64(),
    {
        match self.get(key) {
            Some(v) => v.as_u64(),
            None => None,
        }
    }
}

impl Clone for Json {
    fn clone(&self) -> (res: Self)
        ensures
            res@ == self@,
        decreases self,
    {
        match self {
            Json::Null => Json::Null,
            Json::Bool(b) => Json::Bool(*b),
            Json::Number(n) => Json::Number(*n),
            Json::Str(s) => Json::Str(s.clone()),
            Json::Array(items) => {
                let mut out: Vec<Json> = Vec::new();
                let mut i: usize = 0;
                while i < items.len()
                    invariant
                        *self == Json::Array(*items),
                        i <= items.len(),
                        out.len() == i,
                        forall|k: int| 0 <= k < i ==> #[trigger] out@[k]@ == items@[k]@,
                    decreases items.len() - i,
                {
                    proof {
                        assert(decreases_to!(*self => self->Array_0));
                        assert(decreases_to!(*items => items@));
                        assert(decreases_to!(items@ => items@[i as int]));
                    }
                    let item = items[i].clone();
                    out.push(item);
                    i = i + 1;
                }
                proof {
                    lemma_array_view(*items);
                    lemma_array_view(out);
                    assert(items_view(out@) =~= items_view(items@));
                }
                Json::Array(out)
            },
            Json::Object(fields) => {
                let mut out: Vec<(String, Json)> = Vec::new();
                let mut i: usize = 0;
                while i < fields.len()
                    invariant
                        *self == Json::Object(*fields),
                        i <= fields.len(),
                        out.len() == i,
                        forall|k: int| 0 <= k < i ==> (#[trigger] out@[k]).0@ == fields@[k].0@ && out@[k].1@ == fields@[k].1@,
                    decreases fields.len() - i,
                {
                    let key = fields[i].0.clone();
                    proof {
                        assert(decreases_to!(*self => self->Object_0));
                        assert(decreases_to!(*fields => fields@));
                        assert(decreases_to!(fields@ => fields@[i as int]));
                        assert(decreases_to!(fields@[i as int] => fields@[i as int].1));
                    }
                    let value = fields[i].1.clone();
                    out.push((key, value));
                    i = i + 1;
                }
                proof {
                    lemma_object_view(*fields);
                    lemma_object_view(out);
                    assert(members_view(out@) =~= members_view(fields@));
                }
                Json::Object(out)
            },
        }
    }
}

impl Json {
    /// An object with one member.
    pub fn object1(k1: &str, v1: Json) -> (res: Json)
        ensures
            res@ == JsonV::Object(seq![(k1@, v1@)]),
    {
        let ghost a = v1@;
        let fields = vec![(String::from_str(k1), v1)];
        let ghost fv = fields@;
        let res = Json::object(fields);
        assert(members_view(fv) =~= seq![(k1@, a)]);
        res
    }

    /// An object with two members, in order.
    pub fn object2(k1: &str, v1: Json, k2: &str, v2: Json) -> (res: Json)
        ensures
            res@ == JsonV::Object(seq![(k1@, v1@), (k2@, v2@)]),
    {
        let ghost a = v1@;
        let ghost b = v2@;
        let fields = vec![(String::from_str(k1), v1), (String::from_str(k2), v2)];
        let ghost fv = fields@;
        let res = Json::object(fields);
        assert(members_view(fv) =~= seq![(k1@, a), (k2@, b)]);
        res
    }

    /// An object with three members, in order.
    pub fn object3(k1: &str, v1: Json, k2: &str, v2: Json, k3: &str, v3: Json) -> (res: Json)
        ensures
            res@ == JsonV::Object(seq![(k1@, v1@), (k2@, v2@), (k3@, v3@)]),
    {
        let ghost a = v1@;
        let ghost b = v2@;
        let ghost c = v3@;
        let fields = vec![(String::from_str(k1), v1), (String::from_str(k2), v2), (String::from_str(k3), v3)];
        let ghost fv = fields@;
        let res = Json::object(fields);
        assert(members_view(fv) =~= seq![(k1@, a), (k2@, b), (k3@, c)]);
        res
    }

    /// An array holding one item.
    pub fn array1(v1: Json) -> (res: Json)
        ensures
            res@ == JsonV::Array(seq![v1@]),
    {
        let ghost a = v1@;
        let items = vec![v1];
        let ghost iv = items@;
        let res = Json::array(items);
        assert(items_view(iv) =~= seq![a]);
        res
    }

    /// An array of strings.
    pub fn strings(items: &Vec<String>) -> (res: Json)
        ensures
            res@ == JsonV::Array(strs_view(items@)),
    {
        let mut out: Vec<Json> = Vec::new();
        let mut i: usize = 0;
        while i < items.len()
            invariant
                i <= items.len(),
                items_view(out@) == strs_view(items@.take(i as int)),
            decreases items.len() - i,
        {
            let ghost before = out@;
            out.push(Json::Str(items[i].clone()));
            proof {
                assert(items_view(out@) =~= items_view(before).push(JsonV::Str(items@[i as int]@)));
                assert(strs_view(items@.take(i + 1)) =~= strs_view(items@.take(i as int)).push(JsonV::Str(items@[i as int]@)));
            }
            i = i + 1;
        }
        assert(items@.take(items@.len() as int) =~= items@);
        Json::array(out)
    }
}

/// Strings as JSON string values.
pub open spec fn strs_view(items: Seq<String>) -> Seq<JsonV> {
    Seq::new(items.len(), |i: int| JsonV::Str(items[i]@))
}

/// A lower-case hexadecimal digit.
pub open spec fn hex_digit(d: int) -> char {
    if d < 10 {
        (48 + d) as char
    } else {
        (87 + d) as char
    }
}

/// How serde_json writes one character inside a string: the quote and the
/// backslash behind a backslash, the five control characters that have a
/// short escape by it, the other control characters below U+0020 as `\u00`
/// and two lower-case hexadecimal digits, and every other character as it is.
pub open spec fn json_escape_char(c: char) -> Seq<char> {
    if c == '"' {
        seq!['\\', '"']
    } else if c == '\\' {
        seq!['\\', '\\']
    } else if c == '\u{8}' {
        seq!['\\', 'b']
    } else if c == '\t' {
        seq!['\\', 't']
    } else if c == '\n' {
        seq!['\\', 'n']
    } else if c == '\u{c}' {
        seq!['\\', 'f']
    } else if c == '\r' {
        seq!['\\', 'r']
    } else if (c as int) < 32 {
        seq!['\\', 'u', '0', '0', hex_digit((c as int) / 16), hex_digit((c as int) % 16)]
    } else {
        seq![c]
    }
}

/// The characters of `s`, each written as serde_json writes it in a string.
pub open spec fn json_escaped(s: Seq<char>) -> Seq<char>
    decreases s.len(),
{
    if s.len() == 0 {
        Seq::empty()
    } else {
        json_escaped(s.drop_last()) + json_escape_char(s.last())
    }
}

/// The JSON text of a string, as `serde_json::to_string` writes it: quoted,
/// with the characters that JSON requires escaped.
pub open spec fn json_quoted(s: Seq<char>) -> Seq<char> {
    seq!['"'] + json_escaped(s) + seq!['"']
}

/// `serde_json::to_string` of a string slice: the JSON string literal of `s`.
/// serde_json fails only on a value whose serializer fails or on a map with
/// keys that are not strings, so for a string it does not fail.
#[verifier::external_body]
pub(crate) fn quote_json(s: &str) -> (res: String)
    ensures
        res@ == json_quoted(s@),
{
    serde_json::to_string(s).unwrap_or_default()
}

} // verus!
