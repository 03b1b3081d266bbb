use vstd::prelude::*;

verus! {

#[verifier::external_type_specification]
#[verifier::external_body]
pub struct ExNumber(serde_json::Number);

#[verifier::external_type_specification]
#[verifier::external_body]
pub struct ExValue(serde_json::Value);

#[verifier::external_type_specification]
#[verifier::external_body]
pub struct ExJsonError(serde_json::Error);

/// A JSON value, with its strings, arrays and object members held as plain values.
/// Object members come in the order that `serde_json`'s map gives them (sorted by
/// key), each key once.
#[derive(Debug, PartialEq)]
pub enum Json {
    Null,
    Bool(bool),
    Number(serde_json::Number),
    Str(String),
    Array(Vec<Json>),
    Object(Vec<(String, Json)>),
}

/// The value of the first member named `key`.
pub open spec fn lookup(members: Seq<(String, Json)>, key: Seq<char>) -> Option<Json>
    decreases members.len(),
{
    if members.len() == 0 {
        None
    } else if members[0].0@ == key {
        Some(members[0].1)
    } else {
        lookup(members.drop_first(), key)
    }
}

/// The JSON value that `text` denotes, or `None` where `text` is not JSON.
pub uninterp spec fn json_parse(text: Seq<char>) -> Option<Json>;

/// The position of the member that `lookup` finds.
pub fn member_index(ms: &Vec<(String, Json)>, key: &str) -> (r: Option<usize>)
    ensures
        match r {
            Some(i) => i < ms@.len() && lookup(ms@, key@) == Some(ms@[i as int].1),
            None => lookup(ms@, key@) is None,
        },
{
    let k = key.to_owned();
    let mut i: usize = 0;
    assert(ms@.subrange(0, ms@.len() as int) =~= ms@);
    while i < ms.len()
        invariant
            k@ == key@,
            i <= ms@.len(),
            lookup(ms@, key@) == lookup(ms@.subrange(i as int, ms@.len() as int), key@),
        decreases ms@.len() - i,
    {
        let ghost rest = ms@.subrange(i as int, ms@.len() as int);
        assert(rest[0] == ms@[i as int]);
        if ms[i].0 == k {
            return Some(i);
        }
        assert(rest.drop_first() =~= ms@.subrange(i + 1, ms@.len() as int));
        i = i + 1;
    }
    None
}

impl Json {
    /// The member `key` of an object.
    pub open spec fn member(self, key: Seq<char>) -> Option<Json> {
        match self {
            Json::Object(ms) => lookup(ms@, key),
            _ => None,
        }
    }

    /// The elements of an array.
    pub open spec fn elements(self) -> Option<Seq<Json>> {
        match self {
            Json::Array(v) => Some(v@),
            _ => None,
        }
    }

    /// The characters of a string.
    pub open spec fn text(self) -> Option<Seq<char>> {
        match self {
            Json::Str(s) => Some(s@),
            _ => None,
        }
    }

    /// The member `key` of an object; `None` for a value of another kind.
    pub fn get(&self, key: &str) -> (r: Option<&Json>)
        ensures
            match r {
                Some(v) => self.member(key@) == Some(*v),
                None => self.member(key@) is None,
            },
    {
        match self {
            Json::Object(ms) => match member_index(ms, key) {
                Some(i) => Some(&ms[i].1),
                None => None,
            },
            _ => None,
        }
    }

    /// The member `key` of an object, taken out of it.
    pub fn take(self, key: &str) -> (r: Option<Json>)
        ensures
            r == self.member(key@),
    {
        match self {
            Json::Object(mut ms) => match member_index(&ms, key) {
                Some(i) => {
                    let (_, v) = ms.swap_remove(i);
                    Some(v)
                },
                None => None,
            },
            _ => None,
        }
    }

    /// The first element of an array, taken out of it.
    pub fn take_first(self) -> (r: Option<Json>)
        ensures
            r == (match self.elements() {
                Some(es) => if es.len() > 0 { Some(es[0]) } else { None },
                None => None,
            }),
    {
        match self {
            Json::Array(mut v) => if v.len() > 0 { Some(v.swap_remove(0)) } else { None },
            _ => None,
        }
    }

    /// The elements of an array, taken out of it.
    pub fn into_array(self) -> (r: Option<Vec<Json>>)
        ensures
            match r {
                Some(v) => self.elements() == Some(v@),
                None => self.elements() is None,
            },
    {
        match self {
            Json::Array(v) => Some(v),
            _ => None,
        }
    }

    /// The element at `i` of an array; `None` for a value of another kind or past the end.
    pub fn at(&self, i: usize) -> (r: Option<&Json>)
        ensures
            match r {
                Some(v) => self.elements() matches Some(es) && i < es.len() && es[i as int] == *v,
                None => !(self.elements() matches Some(es) && i < es.len()),
            },
    {
        match self {
            Json::Array(v) => if i < v.len() { Some(&v[i]) } else { None },
            _ => None,
        }
    }

    /// The elements of an array.
    pub fn as_array(&self) -> (r: Option<&Vec<Json>>)
        ensures
            match r {
                Some(v) => self.elements() == Some(v@),
                None => self.elements() is None,
            },
    {
        match self {
            Json::Array(v) => Some(v),
            _ => None,
        }
    }

    /// The text of a string.
    pub fn as_str(&self) -> (r: Option<&String>)
        ensures
            match r {
                Some(s) => self.text() == Some(s@),
                None => self.text() is None,
            },
    {
        match self {
            Json::Str(s) => Some(s),
            _ => None,
        }
    }
}

/// Relies on `serde_json::from_str`: it parses a JSON text into a value, or fails
/// with an error, depending on the text alone. The value is carried over member by
/// member into the library's own type.
#[verifier::external_body]
pub fn parse_json(text: &str) -> (r: Result<Json, serde_json::Error>)
    ensures
        match r {
            Ok(j) => json_parse(text@) == Some(j),
            Err(_) => json_parse(text@) is None,
        },
{
    serde_json::from_str::<serde_json::Value>(text).map(Json::from_value)
}

/// Relies on the `Display` of `serde_json::Error`: the message that describes it.
#[verifier::external_body]
pub fn error_text(e: &serde_json::Error) -> String {
    e.to_string()
}

impl Json {
    /// Carries a parsed `serde_json` value over into the library's own type, kind for
    /// kind and member for member.
    #[verifier::external_body]
    fn from_value(v: serde_json::Value) -> Json {
        match v {
            serde_json::Value::Null => Json::Null,
            serde_json::Value::Bool(b) => Json::Bool(b),
            serde_json::Value::Number(n) => Json::Number(n),
            serde_json::Value::String(s) => Json::Str(s),
            serde_json::Value::Array(a) => Json::Array(a.into_iter().map(Json::from_value).collect()),
            serde_json::Value::Object(m) => Json::Object(
                m.into_iter().map(|(k, x)| (k, Json::from_value(x))).collect(),
            ),
        }
    }
}

} // verus!
