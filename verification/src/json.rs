use vstd::prelude::*;
use vstd::string::StrSliceExecFns;

use serde_json::Value;

use crate::err::{ErrV, NBAError};

verus! {

/// The IEEE-754 bit pattern of a floating-point cell.
///
/// The decoder never computes with floating-point values; it only carries
/// them from a response cell into a record field. Holding the bits keeps
/// that copy exact and lets contracts speak of it as a plain integer.
#[derive(Clone, Copy, Debug, PartialEq, Eq, Structural)]
pub struct FloatBits {
    pub bits: u64,
}

/// The library's own model of a JSON document.
///
/// The transport hands the response body to [`parse_json`], which translates
/// the parsed document into this type; everything downstream (locating the
/// result table, resolving columns, decoding rows) is ordinary verified code
/// over it. Object members keep the order in which the parser yields them.
#[derive(Debug, PartialEq)]
pub enum JsonValue {
    Null,
    Bool(bool),
    Int(i64),
    UInt(u64),
    Float(FloatBits),
    Str(String),
    Array(Vec<JsonValue>),
    Object(Vec<(String, JsonValue)>),
}

/// Coercion of a cell to a signed integer: signed cells verbatim, unsigned
/// cells when they fit; anything else is absent.
pub open spec fn cell_i64(c: JsonValue) -> Option<i64> {
    match c {
        JsonValue::Int(i) => Some(i),
        JsonValue::UInt(u) => if u <= i64::MAX { Some(u as i64) } else { None },
        _ => None,
    }
}

/// Coercion of a cell to an unsigned integer: unsigned cells verbatim,
/// non-negative signed cells; anything else is absent.
pub open spec fn cell_u64(c: JsonValue) -> Option<u64> {
    match c {
        JsonValue::UInt(u) => Some(u),
        JsonValue::Int(i) => if i >= 0 { Some(i as u64) } else { None },
        _ => None,
    }
}

/// Coercion of a cell to a floating-point field: only a floating-point cell
/// yields a value, copied bit-for-bit.
pub open spec fn cell_float(c: JsonValue) -> Option<FloatBits> {
    match c {
        JsonValue::Float(fb) => Some(fb),
        _ => None,
    }
}

/// Coercion of a cell to a string field: only a string cell yields a value,
/// copied verbatim.
pub open spec fn cell_str(c: JsonValue) -> Option<Seq<char>> {
    match c {
        JsonValue::Str(s) => Some(s@),
        _ => None,
    }
}

/// The view of an optional string field.
pub open spec fn view_opt_str(o: Option<String>) -> Option<Seq<char>> {
    match o {
        Some(s) => Some(s@),
        None => None,
    }
}

/// The member a JSON object associates with `key`: the first pair whose name
/// equals `key`, if any.
pub open spec fn obj_lookup(pairs: Seq<(String, JsonValue)>, key: Seq<char>) -> Option<JsonValue>
    decreases pairs.len(),
{
    if pairs.len() == 0 {
        None
    } else if pairs[0].0@ == key {
        Some(pairs[0].1)
    } else {
        obj_lookup(pairs.drop_first(), key)
    }
}

/// Reading field `key` of a document: absent unless the document is an
/// object with such a member.
pub open spec fn json_get(doc: JsonValue, key: Seq<char>) -> Option<JsonValue> {
    match doc {
        JsonValue::Object(pairs) => obj_lookup(pairs@, key),
        _ => None,
    }
}

/// `obj_lookup` yields the first pair whose name matches.
pub proof fn lemma_obj_lookup_found(pairs: Seq<(String, JsonValue)>, key: Seq<char>, i: int)
    requires
        0 <= i < pairs.len(),
        pairs[i].0@ == key,
        forall|j: int| 0 <= j < i ==> pairs[j].0@ != key,
    ensures
        obj_lookup(pairs, key) == Some(pairs[i].1),
    decreases i,
{
    if i > 0 {
        assert(pairs[0].0@ != key);
        lemma_obj_lookup_found(pairs.drop_first(), key, i - 1);
        assert(pairs.drop_first()[i - 1] == pairs[i]);
    }
}

/// `obj_lookup` yields nothing when no pair's name matches.
pub proof fn lemma_obj_lookup_absent(pairs: Seq<(String, JsonValue)>, key: Seq<char>)
    requires
        forall|j: int| 0 <= j < pairs.len() ==> pairs[j].0@ != key,
    ensures
        obj_lookup(pairs, key) is None,
    decreases pairs.len(),
{
    if pairs.len() > 0 {
        lemma_obj_lookup_absent(pairs.drop_first(), key);
    }
}

/// Character-for-character equality of two string slices.
pub(crate) fn str_eq(a: &str, b: &str) -> (r: bool)
    ensures
        r == (a@ == b@),
{
    let alen = a.unicode_len();
    let blen = b.unicode_len();
    if alen != blen {
        return false;
    }
    let mut i: usize = 0;
    while i < alen
        invariant
            alen == a@.len(),
            blen == b@.len(),
            alen == blen,
            i <= alen,
            forall|j: int| 0 <= j < i ==> a@[j] == b@[j],
        decreases alen - i,
    {
        if a.get_char(i) != b.get_char(i) {
            return false;
        }
        i += 1;
    }
    proof {
        assert(a@ =~= b@);
    }
    true
}

impl JsonValue {
    /// The member this document associates with `key`, when the document is
    /// an object holding one.
    pub fn get<'a>(&'a self, key: &str) -> (r: Option<&'a JsonValue>)
        ensures
            match r {
                Some(v) => json_get(*self, key@) == Some(*v),
                None => json_get(*self, key@) is None,
            },
    {
        match self {
            JsonValue::Object(pairs) => {
                let mut i: usize = 0;
                while i < pairs.len()
                    invariant
                        i <= pairs@.len(),
                        *self == JsonValue::Object(*pairs),
                        forall|j: int| 0 <= j < i ==> pairs@[j].0@ != key@,
                    decreases pairs@.len() - i,
                {
                    if str_eq(pairs[i].0.as_str(), key) {
                        proof {
                            lemma_obj_lookup_found(pairs@, key@, i as int);
                        }
                        return Some(&pairs[i].1);
                    }
                    i += 1;
                }
                proof {
                    lemma_obj_lookup_absent(pairs@, key@);
                }
                None
            },
            _ => None,
        }
    }

    /// The elements of this document, when it is a list.
    pub fn as_array(&self) -> (r: Option<&Vec<JsonValue>>)
        ensures
            match r {
                Some(a) => *self == JsonValue::Array(*a),
                None => !(*self is Array),
            },
    {
        match self {
            JsonValue::Array(a) => Some(a),
            _ => None,
        }
    }

    /// This cell as a signed integer, per [`cell_i64`].
    pub fn as_i64(&self) -> (r: Option<i64>)
        ensures
            r == cell_i64(*self),
    {
        match self {
            JsonValue::Int(i) => Some(*i),
            JsonValue::UInt(u) => {
                if *u <= i64::MAX as u64 {
                    Some(*u as i64)
                } else {
                    None
                }
            },
            _ => None,
        }
    }

    /// This cell as an unsigned integer, per [`cell_u64`].
    pub fn as_u64(&self) -> (r: Option<u64>)
        ensures
            r == cell_u64(*self),
    {
        match self {
            JsonValue::UInt(u) => Some(*u),
            JsonValue::Int(i) => {
                if *i >= 0 {
                    Some(*i as u64)
                } else {
                    None
                }
            },
            _ => None,
        }
    }

    /// This cell as floating-point bits, per [`cell_float`].
    pub fn as_float(&self) -> (r: Option<FloatBits>)
        ensures
            r == cell_float(*self),
    {
        match self {
            JsonValue::Float(fb) => Some(*fb),
            _ => None,
        }
    }

    /// This cell as an owned string, per [`cell_str`].
    pub fn as_string(&self) -> (r: Option<String>)
        ensures
            view_opt_str(r) == cell_str(*self),
    {
        match self {
            JsonValue::Str(s) => Some(s.clone()),
            _ => None,
        }
    }
}

#[verifier::external_type_specification]
#[verifier::external_body]
pub struct ExValue(Value);

#[verifier::external_type_specification]
#[verifier::external_body]
pub struct ExNumber(serde_json::Number);

/// What parsing a text as JSON yields, translated into the library's document
/// model: `Some(doc)` when the text is a well-formed JSON document, `None`
/// when it is not. The result depends on the text alone.
pub uninterp spec fn json_of(s: Seq<char>) -> Option<JsonValue>;

/// Translates a parsed `serde_json::Value` into the library's document model,
/// one node at a time: each variant maps to its counterpart, numbers to the
/// integer form they fit in (their bit pattern otherwise). Trusted as the
/// conversion half of [`parse_json`]'s boundary; it relies on
/// `serde_json::Value`'s accessors only.
/// Translates one parsed JSON number: the integer form it fits in, else its
/// bit pattern. Trusted beside [`from_serde`]; it relies on
/// `serde_json::Number`'s accessors only.
#[verifier::external_body]
fn num_from_serde(n: serde_json::Number) -> JsonValue {
    match (n.as_u64(), n.as_i64(), n.as_f64()) {
        (Some(u), _, _) => JsonValue::UInt(u),
        (_, Some(i), _) => JsonValue::Int(i),
        (_, _, Some(x)) => JsonValue::Float(FloatBits { bits: x.to_bits() }),
        _ => JsonValue::Null,
    }
}

#[verifier::external_body]
fn from_serde(v: Value) -> JsonValue {
    match v {
        Value::Null => JsonValue::Null,
        Value::Bool(b) => JsonValue::Bool(b),
        Value::Number(n) => num_from_serde(n),
        Value::String(s) => JsonValue::Str(s),
        Value::Array(a) => JsonValue::Array(a.into_iter().map(from_serde).collect()),
        Value::Object(m) => JsonValue::Object(m.into_iter().map(|(k, x)| (k, from_serde(x))).collect()),
    }
}

/// Relies on `serde_json::from_str`: parses a response body into a JSON
/// document, `Ok` exactly when the body is well-formed JSON.
#[verifier::external_body]
pub(crate) fn parse_json(body: &str) -> (r: Result<JsonValue, NBAError>)
    ensures
        match r {
            Ok(doc) => json_of(body@) == Some(doc),
            Err(e) => json_of(body@) is None && e@ == ErrV::Shape,
        },
{
    match serde_json::from_str::<Value>(body) {
        Ok(v) => Ok(from_serde(v)),
        Err(_) => Err(NBAError::ShapeError),
    }
}

} // verus!
