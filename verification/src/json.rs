//! Field-name-driven JSON deserialization.
//!
//! A response body is parsed into a generic JSON tree by `serde_json`; the
//! tree is modelled in specifications by [`JsonModel`], and every typed
//! response shape implements [`FromJson`], whose contract pins exactly which
//! trees decode and to which values.  Optional fields that are absent or
//! null decode to `None`, distinguishable from a present-but-empty value;
//! unknown fields are ignored.

use vstd::prelude::*;

verus! {

/// The mathematical model of a JSON document.
///
/// A number is modelled by what it yields as an `i64`: `Num(Some(n))` for an
/// integer in range, `Num(None)` for any other number.  An object is a map
/// from field name to value (with duplicate keys, the last occurrence wins,
/// as in the parser).
pub enum JsonModel {
    Null,
    Bool(bool),
    Num(Option<i64>),
    Str(Seq<char>),
    Arr(Seq<JsonModel>),
    Obj(Map<Seq<char>, JsonModel>),
}

#[verifier::external_type_specification]
#[verifier::external_body]
pub struct ExJsonValue(serde_json::Value);

/// The model of a parsed JSON value.
pub uninterp spec fn json_model(v: serde_json::Value) -> JsonModel;

/// What parsing a JSON text yields: `Some` of the model of the resulting
/// tree when the text is valid JSON (within the parser's recursion limit),
/// `None` otherwise.
pub uninterp spec fn json_of_text(s: Seq<char>) -> Option<JsonModel>;

/// Relies on `serde_json::from_str::<serde_json::Value>`: parses a JSON text
/// into a generic tree, returning an error exactly when the text is not
/// valid JSON; the result depends on the text alone.
#[verifier::external_body]
pub(crate) fn parse_json(s: &str) -> (r: Option<serde_json::Value>)
    ensures
        r is Some <==> json_of_text(s@) is Some,
        r matches Some(v) ==> json_of_text(s@) == Some(json_model(v)),
{
    serde_json::from_str(s).ok()
}

/// Relies on `serde_json::Value::is_object`: true exactly for an object.
#[verifier::external_body]
pub(crate) fn value_is_object(v: &serde_json::Value) -> (r: bool)
    ensures
        r <==> json_model(*v) is Obj,
{
    v.is_object()
}

/// Relies on `serde_json::Value::is_null`: true exactly for null.
#[verifier::external_body]
pub(crate) fn value_is_null(v: &serde_json::Value) -> (r: bool)
    ensures
        r <==> json_model(*v) is Null,
{
    v.is_null()
}

/// Relies on `serde_json::Value::get` with a string index: on an object,
/// looks the field up by name; on anything else, returns `None`.
#[verifier::external_body]
pub(crate) fn object_field<'a>(v: &'a serde_json::Value, name: &str) -> (r: Option<
    &'a serde_json::Value,
>)
    ensures
        json_model(*v) matches JsonModel::Obj(fields) ==> {
            &&& r is Some <==> fields.contains_key(name@)
            &&& (r matches Some(f) ==> fields.contains_key(name@) && json_model(*f)
                == fields[name@])
        },
        !(json_model(*v) is Obj) ==> r is None,
{
    v.get(name)
}

/// Relies on `serde_json::Value::as_str`: the string content of a string
/// value, `None` for every other kind.
#[verifier::external_body]
pub(crate) fn value_as_str<'a>(v: &'a serde_json::Value) -> (r: Option<&'a str>)
    ensures
        r is Some <==> json_model(*v) is Str,
        r matches Some(s) ==> json_model(*v) == JsonModel::Str(s@),
{
    v.as_str()
}

/// Relies on `serde_json::Value::as_bool`: the content of a boolean value,
/// `None` for every other kind.
#[verifier::external_body]
pub(crate) fn value_as_bool(v: &serde_json::Value) -> (r: Option<bool>)
    ensures
        r is Some <==> json_model(*v) is Bool,
        r matches Some(b) ==> json_model(*v) == JsonModel::Bool(b),
{
    v.as_bool()
}

/// Relies on `serde_json::Value::as_i64`: a number that is an integer in
/// `i64` range, `None` for other numbers and for every other kind.
#[verifier::external_body]
pub(crate) fn value_as_i64(v: &serde_json::Value) -> (r: Option<i64>)
    ensures
        json_model(*v) matches JsonModel::Num(n) ==> r == n,
        !(json_model(*v) is Num) ==> r is None,
{
    v.as_i64()
}

/// Relies on `serde_json::Value::as_array`: the elements of an array value,
/// `None` for every other kind.
#[verifier::external_body]
pub(crate) fn value_as_array<'a>(v: &'a serde_json::Value) -> (r: Option<
    &'a Vec<serde_json::Value>,
>)
    ensures
        r is Some <==> json_model(*v) is Arr,
        r matches Some(a) ==> (json_model(*v) matches JsonModel::Arr(elems) && a@.len()
            == elems.len() && (forall|j: int|
            0 <= j < elems.len() ==> json_model(a@[j]) == elems[j])),
{
    v.as_array()
}

/// The value of a named field of `m`, when `m` is an object that has it.
pub open spec fn field_of(m: JsonModel, name: Seq<char>) -> Option<JsonModel> {
    match m {
        JsonModel::Obj(fields) => if fields.contains_key(name) {
            Some(fields[name])
        } else {
            None
        },
        _ => None,
    }
}

/// A typed response shape, decoded from a JSON tree by field name.
///
/// `decodable` says which trees decode at all; `decodes` relates a tree to
/// the values it decodes to, pinning the view of every field.
pub trait FromJson: Sized {
    spec fn decodable(m: JsonModel) -> bool;

    spec fn decodes(m: JsonModel, t: Self) -> bool;

    fn from_value(v: &serde_json::Value) -> (r: Option<Self>)
        ensures
            r is Some <==> Self::decodable(json_model(*v)),
            r matches Some(t) ==> Self::decodes(json_model(*v), t),
    ;
}

impl FromJson for String {
    open spec fn decodable(m: JsonModel) -> bool {
        m is Str
    }

    open spec fn decodes(m: JsonModel, t: String) -> bool {
        m matches JsonModel::Str(s) && t@ == s
    }

    fn from_value(v: &serde_json::Value) -> (r: Option<String>) {
        match value_as_str(v) {
            Some(s) => Some(s.to_owned()),
            None => None,
        }
    }
}

impl FromJson for bool {
    open spec fn decodable(m: JsonModel) -> bool {
        m is Bool
    }

    open spec fn decodes(m: JsonModel, t: bool) -> bool {
        m == JsonModel::Bool(t)
    }

    fn from_value(v: &serde_json::Value) -> (r: Option<bool>) {
        value_as_bool(v)
    }
}

impl FromJson for i64 {
    open spec fn decodable(m: JsonModel) -> bool {
        m matches JsonModel::Num(n) && n is Some
    }

    open spec fn decodes(m: JsonModel, t: i64) -> bool {
        m == JsonModel::Num(Some(t))
    }

    fn from_value(v: &serde_json::Value) -> (r: Option<i64>) {
        value_as_i64(v)
    }
}

impl<T: FromJson> FromJson for Option<T> {
    /// JSON null decodes to `None`; anything else must decode as a `T`.
    open spec fn decodable(m: JsonModel) -> bool {
        m is Null || T::decodable(m)
    }

    open spec fn decodes(m: JsonModel, t: Option<T>) -> bool {
        match t {
            None => m is Null,
            Some(x) => !(m is Null) && T::decodes(m, x),
        }
    }

    fn from_value(v: &serde_json::Value) -> (r: Option<Option<T>>) {
        if value_is_null(v) {
            Some(None)
        } else {
            match T::from_value(v) {
                Some(t) => Some(Some(t)),
                None => None,
            }
        }
    }
}

impl<T: FromJson> FromJson for Vec<T> {
    open spec fn decodable(m: JsonModel) -> bool {
        m matches JsonModel::Arr(elems) && forall|j: int|
            0 <= j < elems.len() ==> T::decodable(#[trigger] elems[j])
    }

    open spec fn decodes(m: JsonModel, t: Vec<T>) -> bool {
        m matches JsonModel::Arr(elems) && t@.len() == elems.len() && forall|j: int|
            0 <= j < elems.len() ==> T::decodes(elems[j], #[trigger] t@[j])
    }

    fn from_value(v: &serde_json::Value) -> (r: Option<Vec<T>>) {
        let arr = match value_as_array(v) {
            Some(a) => a,
            None => {
                return None;
            },
        };
        let ghost elems = json_model(*v)->Arr_0;
        let mut out: Vec<T> = Vec::new();
        let mut i: usize = 0;
        while i < arr.len()
            invariant
                json_model(*v) matches JsonModel::Arr(e) && e == elems,
                arr@.len() == elems.len(),
                forall|j: int| 0 <= j < elems.len() ==> json_model(arr@[j]) == elems[j],
                i <= arr@.len(),
                out@.len() == i as int,
                forall|j: int| 0 <= j < i as int ==> T::decodable(#[trigger] elems[j]),
                forall|j: int| 0 <= j < i as int ==> T::decodes(elems[j], #[trigger] out@[j]),
            decreases arr@.len() - i,
        {
            match T::from_value(&arr[i]) {
                Some(t) => out.push(t),
                None => {
                    proof {
                        assert(!T::decodable(elems[i as int]));
                    }
                    return None;
                },
            }
            i += 1;
        }
        Some(out)
    }
}

/// A required field decodes as a `T`: present under `name`, right shape.
/// A missing required field or a wrongly shaped one fails the record.
pub open spec fn req_ok<T: FromJson>(m: JsonModel, name: Seq<char>) -> bool {
    field_of(m, name) matches Some(f) && T::decodable(f)
}

/// The value a required field decoded to.
pub open spec fn req_is<T: FromJson>(m: JsonModel, name: Seq<char>, t: T) -> bool {
    field_of(m, name) matches Some(f) && T::decodes(f, t)
}

/// An optional field tolerates absence and null; when present and not null
/// it must have the right shape.
pub open spec fn opt_ok<T: FromJson>(m: JsonModel, name: Seq<char>) -> bool {
    match field_of(m, name) {
        Option::None => true,
        Option::Some(f) => f is Null || T::decodable(f),
    }
}

/// The explicit "absent" state: an optional field decodes to `None` exactly
/// when it is absent or null, and to `Some` of the field's value otherwise.
pub open spec fn opt_is<T: FromJson>(m: JsonModel, name: Seq<char>, o: Option<T>) -> bool {
    match field_of(m, name) {
        Option::None => o is None,
        Option::Some(f) => <Option<T> as FromJson>::decodes(f, o),
    }
}

/// Decode a required field of an object.
pub fn req_field<T: FromJson>(v: &serde_json::Value, name: &str) -> (r: Option<T>)
    ensures
        r is Some <==> req_ok::<T>(json_model(*v), name@),
        r matches Some(t) ==> req_is::<T>(json_model(*v), name@, t),
{
    match object_field(v, name) {
        Some(f) => T::from_value(f),
        None => None,
    }
}

/// Decode an optional field of an object; absent and null both give `None`.
pub fn opt_field<T: FromJson>(v: &serde_json::Value, name: &str) -> (r: Option<Option<T>>)
    ensures
        r is Some <==> opt_ok::<T>(json_model(*v), name@),
        r matches Some(o) ==> opt_is::<T>(json_model(*v), name@, o),
{
    match object_field(v, name) {
        Some(f) => <Option<T> as FromJson>::from_value(f),
        None => Some(None),
    }
}

/// String equality by content.
pub fn str_eq(a: &str, b: &str) -> (r: bool)
    ensures
        r <==> a@ == b@,
{
    let x: String = a.to_owned();
    let y: String = b.to_owned();
    x == y
}

} // verus!
