//! Model of the JSON documents that travel through the gateway.
//!
//! A decoded document is a flat object: named fields holding scalars, arrays
//! of scalars, objects of scalars, or arrays of such objects; anything shaped
//! otherwise is carried through as its raw text. Parsing itself is done by
//! serde_json behind one trusted boundary whose result is named by
//! `json_doc_of`; everything that reads a parsed document is verified.

use vstd::prelude::*;

verus! {

#[verifier::external_type_specification]
#[verifier::external_body]
pub struct ExValue(serde_json::Value);

/// One scalar JSON node. Shapes the gateway never reads (booleans, floats,
/// negative or oversized numbers) keep their raw text so they still travel
/// through unchanged.
pub enum JsonScalar {
    Null,
    UInt(u64),
    Str(String),
    Other(String),
}

/// A named scalar member of a JSON object.
pub struct ScalarField {
    pub name: String,
    pub value: JsonScalar,
}

/// One member value of a decoded document.
pub enum JsonValue {
    Scalar(JsonScalar),
    Arr(Vec<JsonScalar>),
    Obj(Vec<ScalarField>),
    ArrObj(Vec<Vec<ScalarField>>),
    Raw(String),
}

/// A named member of a decoded document.
pub struct JsonField {
    pub name: String,
    pub value: JsonValue,
}

/// Mathematical form of `JsonScalar`.
pub enum ScalarV {
    Null,
    UInt(u64),
    Str(Seq<char>),
    Other(Seq<char>),
}

/// Mathematical form of `ScalarField`.
pub struct ScalarFieldV {
    pub name: Seq<char>,
    pub value: ScalarV,
}

/// Mathematical form of `JsonValue`.
pub enum JsonValueV {
    Scalar(ScalarV),
    Arr(Seq<ScalarV>),
    Obj(Seq<ScalarFieldV>),
    ArrObj(Seq<Seq<ScalarFieldV>>),
    Raw(Seq<char>),
}

/// Mathematical form of `JsonField`.
pub struct JsonFieldV {
    pub name: Seq<char>,
    pub value: JsonValueV,
}

impl View for JsonScalar {
    type V = ScalarV;

    open spec fn view(&self) -> ScalarV {
        match self {
            JsonScalar::Null => ScalarV::Null,
            JsonScalar::UInt(u) => ScalarV::UInt(*u),
            JsonScalar::Str(s) => ScalarV::Str(s@),
            JsonScalar::Other(s) => ScalarV::Other(s@),
        }
    }
}

impl View for ScalarField {
    type V = ScalarFieldV;

    open spec fn view(&self) -> ScalarFieldV {
        ScalarFieldV { name: self.name@, value: self.value@ }
    }
}

/// View of an object's member list.
pub open spec fn obj_view(fields: Seq<ScalarField>) -> Seq<ScalarFieldV> {
    fields.map_values(|f: ScalarField| f@)
}

impl View for JsonValue {
    type V = JsonValueV;

    open spec fn view(&self) -> JsonValueV {
        match self {
            JsonValue::Scalar(s) => JsonValueV::Scalar(s@),
            JsonValue::Arr(items) => JsonValueV::Arr(items@.map_values(|s: JsonScalar| s@)),
            JsonValue::Obj(fields) => JsonValueV::Obj(obj_view(fields@)),
            JsonValue::ArrObj(objs) => JsonValueV::ArrObj(
                objs@.map_values(|o: Vec<ScalarField>| obj_view(o@)),
            ),
            JsonValue::Raw(s) => JsonValueV::Raw(s@),
        }
    }
}

impl View for JsonField {
    type V = JsonFieldV;

    open spec fn view(&self) -> JsonFieldV {
        JsonFieldV { name: self.name@, value: self.value@ }
    }
}

/// View of a whole decoded document.
pub open spec fn doc_view(d: Seq<JsonField>) -> Seq<JsonFieldV> {
    d.map_values(|f: JsonField| f@)
}

/// What parsing a piece of text as a JSON object document yields; nothing for
/// text that is not valid JSON or whose top level is not an object.
pub uninterp spec fn json_doc_of(s: Seq<char>) -> Option<Seq<JsonFieldV>>;

/// Conversion layer under `parse_json_obj`: one serde_json scalar node to
/// the library's form, variant by variant.
#[verifier::external_body]
fn scalar_of(v: &serde_json::Value) -> JsonScalar {
    match v {
        serde_json::Value::Null => JsonScalar::Null,
        serde_json::Value::Number(n) => match n.as_u64() {
            Some(u) => JsonScalar::UInt(u),
            None => JsonScalar::Other(v.to_string()),
        },
        serde_json::Value::String(s) => JsonScalar::Str(s.clone()),
        _ => JsonScalar::Other(v.to_string()),
    }
}

/// Conversion layer under `parse_json_obj`: a serde_json object whose
/// members are all scalars, to the library's form.
#[verifier::external_body]
fn obj_of(v: &serde_json::Value) -> Option<Vec<ScalarField>> {
    let map = v.as_object()?;
    if map.iter().any(|(_, x)| x.is_array() || x.is_object()) {
        return None;
    }
    Some(
        map.iter().map(
            |(k, x)| ScalarField { name: k.clone(), value: scalar_of(x) },
        ).collect(),
    )
}

/// Conversion layer under `parse_json_obj`: a serde_json array to the
/// library's form; an irregular one is kept as its raw text.
#[verifier::external_body]
fn arr_value_of(items: &Vec<serde_json::Value>, whole: &serde_json::Value) -> JsonValue {
    if items.iter().all(|x| !x.is_array() && !x.is_object()) {
        JsonValue::Arr(items.iter().map(scalar_of).collect())
    } else {
        match items.iter().map(obj_of).collect::<Option<Vec<Vec<ScalarField>>>>() {
            Some(objs) => JsonValue::ArrObj(objs),
            None => JsonValue::Raw(whole.to_string()),
        }
    }
}

/// Conversion layer under `parse_json_obj`: one serde_json member value to
/// the library's form; an irregular one is kept as its raw text.
#[verifier::external_body]
fn value_of(v: &serde_json::Value) -> JsonValue {
    match v {
        serde_json::Value::Array(items) => arr_value_of(items, v),
        serde_json::Value::Object(_) => match obj_of(v) {
            Some(fields) => JsonValue::Obj(fields),
            None => JsonValue::Raw(v.to_string()),
        },
        _ => JsonValue::Scalar(scalar_of(v)),
    }
}

/// Relies on serde_json::from_str: what a document parses to is a function of
/// the text alone, here named `json_doc_of`; a document whose top level is not
/// an object yields nothing.
#[verifier::external_body]
pub fn parse_json_obj(s: &str) -> (r: Option<Vec<JsonField>>)
    ensures
        r is Some <==> json_doc_of(s@) is Some,
        (r matches Some(d) ==> json_doc_of(s@) matches Some(dv) && doc_view(d@) == dv),
{
    let v: serde_json::Value = serde_json::from_str(s).ok()?;
    let map = v.as_object()?;
    Some(
        map.iter().map(
            |(k, x)| JsonField { name: k.clone(), value: value_of(x) },
        ).collect(),
    )
}

/// First member of the document with the given name.
pub open spec fn spec_doc_get(d: Seq<JsonFieldV>, name: Seq<char>) -> Option<JsonValueV>
    decreases d.len(),
{
    if d.len() == 0 {
        None
    } else if d[0].name == name {
        Some(d[0].value)
    } else {
        spec_doc_get(d.drop_first(), name)
    }
}

/// First member of the object with the given name.
pub open spec fn spec_obj_get(fields: Seq<ScalarFieldV>, name: Seq<char>) -> Option<ScalarV>
    decreases fields.len(),
{
    if fields.len() == 0 {
        None
    } else if fields[0].name == name {
        Some(fields[0].value)
    } else {
        spec_obj_get(fields.drop_first(), name)
    }
}

/// Look a member up in a decoded document.
pub fn doc_get<'a>(d: &'a Vec<JsonField>, name: &str) -> (r: Option<&'a JsonValue>)
    ensures
        match r {
            Some(v) => spec_doc_get(doc_view(d@), name@) == Some(v@),
            None => spec_doc_get(doc_view(d@), name@) is None,
        },
{
    let mut i: usize = 0;
    proof {
        assert(doc_view(d@).skip(0) =~= doc_view(d@));
    }
    while i < d.len()
        invariant
            0 <= i <= d@.len(),
            spec_doc_get(doc_view(d@), name@) == spec_doc_get(
                doc_view(d@).skip(i as int),
                name@,
            ),
        decreases d@.len() - i,
    {
        let f = &d[i];
        proof {
            assert(doc_view(d@).skip(i as int).drop_first() =~= doc_view(d@).skip(i + 1));
            assert(doc_view(d@).skip(i as int)[0] == d@[i as int]@);
        }
        if crate::text::str_eq(f.name.as_str(), name) {
            return Some(&f.value);
        }
        i += 1;
    }
    proof {
        assert(doc_view(d@).skip(i as int) =~= Seq::<JsonFieldV>::empty());
    }
    None
}

/// Look a member up in a decoded document and take it out.
pub fn doc_take(rem: &mut Vec<JsonField>, name: &str) -> (r: Option<JsonValue>)
    ensures
        match r {
            Some(v) => spec_doc_get(doc_view(old(rem)@), name@) == Some(v@),
            None => spec_doc_get(doc_view(old(rem)@), name@) is None,
        },
{
    let ghost orig = rem@;
    let mut i: usize = 0;
    proof {
        assert(doc_view(orig).skip(0) =~= doc_view(orig));
    }
    while i < rem.len()
        invariant
            0 <= i <= rem@.len(),
            rem@ == orig,
            old(rem)@ == orig,
            spec_doc_get(doc_view(orig), name@) == spec_doc_get(
                doc_view(orig).skip(i as int),
                name@,
            ),
        decreases rem@.len() - i,
    {
        proof {
            assert(doc_view(orig).skip(i as int).drop_first() =~= doc_view(orig).skip(i + 1));
            assert(doc_view(orig).skip(i as int)[0] == orig[i as int]@);
        }
        let hit = crate::text::str_eq(rem[i].name.as_str(), name);
        if hit {
            let f = rem.remove(i);
            proof {
                assert(f@ == doc_view(orig).skip(i as int)[0]);
            }
            return Some(f.value);
        }
        i += 1;
    }
    proof {
        assert(doc_view(orig).skip(i as int) =~= Seq::<JsonFieldV>::empty());
    }
    None
}

/// Look a member up in a flat object.
pub fn obj_get<'a>(fields: &'a Vec<ScalarField>, name: &str) -> (r: Option<&'a JsonScalar>)
    ensures
        match r {
            Some(v) => spec_obj_get(obj_view(fields@), name@) == Some(v@),
            None => spec_obj_get(obj_view(fields@), name@) is None,
        },
{
    let mut i: usize = 0;
    proof {
        assert(obj_view(fields@).skip(0) =~= obj_view(fields@));
    }
    while i < fields.len()
        invariant
            0 <= i <= fields@.len(),
            spec_obj_get(obj_view(fields@), name@) == spec_obj_get(
                obj_view(fields@).skip(i as int),
                name@,
            ),
        decreases fields@.len() - i,
    {
        let f = &fields[i];
        proof {
            assert(obj_view(fields@).skip(i as int).drop_first() =~= obj_view(fields@).skip(
                i + 1,
            ));
            assert(obj_view(fields@).skip(i as int)[0] == fields@[i as int]@);
        }
        if crate::text::str_eq(f.name.as_str(), name) {
            return Some(&f.value);
        }
        i += 1;
    }
    proof {
        assert(obj_view(fields@).skip(i as int) =~= Seq::<ScalarFieldV>::empty());
    }
    None
}


/// A key/value pair of strings, as held by balance and amount maps.
pub struct StrPair {
    pub key: String,
    pub value: String,
}

/// Mathematical form of `StrPair`.
pub struct StrPairV {
    pub key: Seq<char>,
    pub value: Seq<char>,
}

impl View for StrPair {
    type V = StrPairV;

    open spec fn view(&self) -> StrPairV {
        StrPairV { key: self.key@, value: self.value@ }
    }
}

/// View of a list of strings.
pub open spec fn strs_view(v: Seq<String>) -> Seq<Seq<char>> {
    v.map_values(|s: String| s@)
}

/// View of a list of optional strings.
pub open spec fn opt_strs_view(v: Seq<Option<String>>) -> Seq<Option<Seq<char>>> {
    v.map_values(
        |s: Option<String>| match s {
            Some(x) => Some(x@),
            None => None,
        },
    )
}

/// View of a list of string pairs.
pub open spec fn pairs_view(v: Seq<StrPair>) -> Seq<StrPairV> {
    v.map_values(|p: StrPair| p@)
}

/// The text of a string scalar; empty for any other scalar.
pub open spec fn scalar_str(s: ScalarV) -> Seq<char> {
    match s {
        ScalarV::Str(t) => t,
        _ => Seq::empty(),
    }
}

/// The strings of an all-string scalar list; nothing if any member is not a
/// string.
pub open spec fn spec_str_seq(items: Seq<ScalarV>) -> Option<Seq<Seq<char>>> {
    if forall|i: int| 0 <= i < items.len() ==> items[i] is Str {
        Some(Seq::new(items.len(), |i: int| scalar_str(items[i])))
    } else {
        None
    }
}

/// The optional strings of a scalar list whose members are strings or nulls;
/// nothing if any member is something else.
pub open spec fn spec_opt_str_seq(items: Seq<ScalarV>) -> Option<Seq<Option<Seq<char>>>> {
    if forall|i: int| 0 <= i < items.len() ==> items[i] is Str || items[i] is Null {
        Some(
            Seq::new(
                items.len(),
                |i: int| if items[i] is Str {
                    Some(scalar_str(items[i]))
                } else {
                    None
                },
            ),
        )
    } else {
        None
    }
}

/// The pairs of an object whose member values are all strings; nothing
/// otherwise.
pub open spec fn spec_str_pairs(fields: Seq<ScalarFieldV>) -> Option<Seq<StrPairV>> {
    if forall|i: int| 0 <= i < fields.len() ==> fields[i].value is Str {
        Some(
            Seq::new(
                fields.len(),
                |i: int| StrPairV { key: fields[i].name, value: scalar_str(fields[i].value) },
            ),
        )
    } else {
        None
    }
}

fn scalars_to_strs(items: &Vec<JsonScalar>) -> (r: Option<Vec<String>>)
    ensures
        match r {
            Some(v) => spec_str_seq(items@.map_values(|s: JsonScalar| s@)) == Some(
                strs_view(v@),
            ),
            None => spec_str_seq(items@.map_values(|s: JsonScalar| s@)) is None,
        },
{
    let ghost iv = items@.map_values(|s: JsonScalar| s@);
    let mut out: Vec<String> = Vec::new();
    let mut i: usize = 0;
    while i < items.len()
        invariant
            0 <= i <= items@.len(),
            iv == items@.map_values(|s: JsonScalar| s@),
            out@.len() == i,
            forall|k: int| 0 <= k < i ==> iv[k] is Str,
            forall|k: int| 0 <= k < i ==> out@[k]@ == scalar_str(iv[k]),
        decreases items@.len() - i,
    {
        match &items[i] {
            JsonScalar::Str(s) => {
                out.push(s.clone());
            },
            _ => {
                proof {
                    assert(!(iv[i as int] is Str));
                }
                return None;
            },
        }
        i += 1;
    }
    proof {
        let expected = Seq::new(iv.len(), |k: int| scalar_str(iv[k]));
        assert(strs_view(out@) =~= expected);
    }
    Some(out)
}

fn scalars_to_opt_strs(items: &Vec<JsonScalar>) -> (r: Option<Vec<Option<String>>>)
    ensures
        match r {
            Some(v) => spec_opt_str_seq(items@.map_values(|s: JsonScalar| s@)) == Some(
                opt_strs_view(v@),
            ),
            None => spec_opt_str_seq(items@.map_values(|s: JsonScalar| s@)) is None,
        },
{
    let ghost iv = items@.map_values(|s: JsonScalar| s@);
    let mut out: Vec<Option<String>> = Vec::new();
    let mut i: usize = 0;
    while i < items.len()
        invariant
            0 <= i <= items@.len(),
            iv == items@.map_values(|s: JsonScalar| s@),
            out@.len() == i,
            forall|k: int| 0 <= k < i ==> iv[k] is Str || iv[k] is Null,
            forall|k: int| 0 <= k < i ==> (match #[trigger] out@[k] {
                Some(x) => iv[k] is Str && x@ == scalar_str(iv[k]),
                None => iv[k] is Null,
            }),
        decreases items@.len() - i,
    {
        match &items[i] {
            JsonScalar::Str(s) => {
                out.push(Some(s.clone()));
            },
            JsonScalar::Null => {
                out.push(None);
            },
            _ => {
                proof {
                    assert(!(iv[i as int] is Str) && !(iv[i as int] is Null));
                }
                return None;
            },
        }
        i += 1;
    }
    proof {
        let expected = Seq::new(
            iv.len(),
            |k: int| if iv[k] is Str {
                Some(scalar_str(iv[k]))
            } else {
                None
            },
        );
        assert(opt_strs_view(out@) =~= expected);
    }
    Some(out)
}

fn obj_to_pairs(fields: &Vec<ScalarField>) -> (r: Option<Vec<StrPair>>)
    ensures
        match r {
            Some(v) => spec_str_pairs(obj_view(fields@)) == Some(pairs_view(v@)),
            None => spec_str_pairs(obj_view(fields@)) is None,
        },
{
    let ghost fv = obj_view(fields@);
    let mut out: Vec<StrPair> = Vec::new();
    let mut i: usize = 0;
    while i < fields.len()
        invariant
            0 <= i <= fields@.len(),
            fv == obj_view(fields@),
            out@.len() == i,
            forall|k: int| 0 <= k < i ==> fv[k].value is Str,
            forall|k: int| 0 <= k < i ==> out@[k]@.key == fv[k].name && out@[k]@.value
                == scalar_str(fv[k].value),
        decreases fields@.len() - i,
    {
        let f = &fields[i];
        match &f.value {
            JsonScalar::Str(s) => {
                out.push(StrPair { key: f.name.clone(), value: s.clone() });
            },
            _ => {
                proof {
                    assert(!(fv[i as int].value is Str));
                }
                return None;
            },
        }
        i += 1;
    }
    proof {
        let expected = Seq::new(
            fv.len(),
            |k: int| StrPairV { key: fv[k].name, value: scalar_str(fv[k].value) },
        );
        assert(pairs_view(out@) =~= expected);
    }
    Some(out)
}

/// String member of a document.
pub open spec fn spec_doc_get_str(d: Seq<JsonFieldV>, name: Seq<char>) -> Option<Seq<char>> {
    match spec_doc_get(d, name) {
        Some(JsonValueV::Scalar(ScalarV::Str(s))) => Some(s),
        _ => None,
    }
}

/// Unsigned integer member of a document.
pub open spec fn spec_doc_get_u64(d: Seq<JsonFieldV>, name: Seq<char>) -> Option<u64> {
    match spec_doc_get(d, name) {
        Some(JsonValueV::Scalar(ScalarV::UInt(u))) => Some(u),
        _ => None,
    }
}

/// Optional string member: an absent or null member reads as no value, a
/// string as that string, and anything else fails.
pub open spec fn spec_doc_get_opt_str(d: Seq<JsonFieldV>, name: Seq<char>) -> Option<
    Option<Seq<char>>,
> {
    match spec_doc_get(d, name) {
        None => Some(None),
        Some(JsonValueV::Scalar(ScalarV::Null)) => Some(None),
        Some(JsonValueV::Scalar(ScalarV::Str(s))) => Some(Some(s)),
        _ => None,
    }
}

/// String list member of a document.
pub open spec fn spec_doc_get_str_arr(d: Seq<JsonFieldV>, name: Seq<char>) -> Option<
    Seq<Seq<char>>,
> {
    match spec_doc_get(d, name) {
        Some(JsonValueV::Arr(items)) => spec_str_seq(items),
        _ => None,
    }
}

/// List member of strings or nulls.
pub open spec fn spec_doc_get_opt_str_arr(d: Seq<JsonFieldV>, name: Seq<char>) -> Option<
    Seq<Option<Seq<char>>>,
> {
    match spec_doc_get(d, name) {
        Some(JsonValueV::Arr(items)) => spec_opt_str_seq(items),
        _ => None,
    }
}

/// String-to-string object member of a document.
pub open spec fn spec_doc_get_str_map(d: Seq<JsonFieldV>, name: Seq<char>) -> Option<
    Seq<StrPairV>,
> {
    match spec_doc_get(d, name) {
        Some(JsonValueV::Obj(fields)) => spec_str_pairs(fields),
        _ => None,
    }
}

/// String member of a flat object.
pub open spec fn spec_obj_get_str(fields: Seq<ScalarFieldV>, name: Seq<char>) -> Option<
    Seq<char>,
> {
    match spec_obj_get(fields, name) {
        Some(ScalarV::Str(s)) => Some(s),
        _ => None,
    }
}

/// Read a string member of a document.
pub fn doc_get_str(d: &Vec<JsonField>, name: &str) -> (r: Option<String>)
    ensures
        match r {
            Some(s) => spec_doc_get_str(doc_view(d@), name@) == Some(s@),
            None => spec_doc_get_str(doc_view(d@), name@) is None,
        },
{
    match doc_get(d, name) {
        Some(JsonValue::Scalar(JsonScalar::Str(s))) => Some(s.clone()),
        _ => None,
    }
}

/// Read an unsigned integer member of a document.
pub fn doc_get_u64(d: &Vec<JsonField>, name: &str) -> (r: Option<u64>)
    ensures
        match r {
            Some(u) => spec_doc_get_u64(doc_view(d@), name@) == Some(u),
            None => spec_doc_get_u64(doc_view(d@), name@) is None,
        },
{
    match doc_get(d, name) {
        Some(JsonValue::Scalar(JsonScalar::UInt(u))) => Some(*u),
        _ => None,
    }
}

/// Read an optional string member of a document.
pub fn doc_get_opt_str(d: &Vec<JsonField>, name: &str) -> (r: Option<Option<String>>)
    ensures
        match r {
            Some(Some(s)) => spec_doc_get_opt_str(doc_view(d@), name@) == Some(Some(s@)),
            Some(None) => spec_doc_get_opt_str(doc_view(d@), name@) == Some(
                None::<Seq<char>>,
            ),
            None => spec_doc_get_opt_str(doc_view(d@), name@) is None,
        },
{
    match doc_get(d, name) {
        None => Some(None),
        Some(JsonValue::Scalar(JsonScalar::Null)) => Some(None),
        Some(JsonValue::Scalar(JsonScalar::Str(s))) => Some(Some(s.clone())),
        _ => None,
    }
}

/// Read a string list member of a document.
pub fn doc_get_str_arr(d: &Vec<JsonField>, name: &str) -> (r: Option<Vec<String>>)
    ensures
        match r {
            Some(v) => spec_doc_get_str_arr(doc_view(d@), name@) == Some(strs_view(v@)),
            None => spec_doc_get_str_arr(doc_view(d@), name@) is None,
        },
{
    match doc_get(d, name) {
        Some(JsonValue::Arr(items)) => scalars_to_strs(items),
        _ => None,
    }
}

/// Read a list member of strings or nulls.
pub fn doc_get_opt_str_arr(d: &Vec<JsonField>, name: &str) -> (r: Option<Vec<Option<String>>>)
    ensures
        match r {
            Some(v) => spec_doc_get_opt_str_arr(doc_view(d@), name@) == Some(
                opt_strs_view(v@),
            ),
            None => spec_doc_get_opt_str_arr(doc_view(d@), name@) is None,
        },
{
    match doc_get(d, name) {
        Some(JsonValue::Arr(items)) => scalars_to_opt_strs(items),
        _ => None,
    }
}

/// Read a string-to-string object member of a document.
pub fn doc_get_str_map(d: &Vec<JsonField>, name: &str) -> (r: Option<Vec<StrPair>>)
    ensures
        match r {
            Some(v) => spec_doc_get_str_map(doc_view(d@), name@) == Some(pairs_view(v@)),
            None => spec_doc_get_str_map(doc_view(d@), name@) is None,
        },
{
    match doc_get(d, name) {
        Some(JsonValue::Obj(fields)) => obj_to_pairs(fields),
        _ => None,
    }
}

/// Read a string member of a flat object.
pub fn obj_get_str(fields: &Vec<ScalarField>, name: &str) -> (r: Option<String>)
    ensures
        match r {
            Some(s) => spec_obj_get_str(obj_view(fields@), name@) == Some(s@),
            None => spec_obj_get_str(obj_view(fields@), name@) is None,
        },
{
    match obj_get(fields, name) {
        Some(JsonScalar::Str(s)) => Some(s.clone()),
        _ => None,
    }
}

/// First value held under a key in a pair list.
pub open spec fn spec_pairs_get(pairs: Seq<StrPairV>, key: Seq<char>) -> Option<Seq<char>>
    decreases pairs.len(),
{
    if pairs.len() == 0 {
        None
    } else if pairs[0].key == key {
        Some(pairs[0].value)
    } else {
        spec_pairs_get(pairs.drop_first(), key)
    }
}

/// Look a key up in a pair list.
pub fn pairs_get<'a>(pairs: &'a Vec<StrPair>, key: &str) -> (r: Option<&'a String>)
    ensures
        match r {
            Some(v) => spec_pairs_get(pairs_view(pairs@), key@) == Some(v@),
            None => spec_pairs_get(pairs_view(pairs@), key@) is None,
        },
{
    let mut i: usize = 0;
    proof {
        assert(pairs_view(pairs@).skip(0) =~= pairs_view(pairs@));
    }
    while i < pairs.len()
        invariant
            0 <= i <= pairs@.len(),
            spec_pairs_get(pairs_view(pairs@), key@) == spec_pairs_get(
                pairs_view(pairs@).skip(i as int),
                key@,
            ),
        decreases pairs@.len() - i,
    {
        let p = &pairs[i];
        proof {
            assert(pairs_view(pairs@).skip(i as int).drop_first() =~= pairs_view(
                pairs@,
            ).skip(i + 1));
            assert(pairs_view(pairs@).skip(i as int)[0] == pairs@[i as int]@);
        }
        if crate::text::str_eq(p.key.as_str(), key) {
            return Some(&p.value);
        }
        i += 1;
    }
    proof {
        assert(pairs_view(pairs@).skip(i as int) =~= Seq::<StrPairV>::empty());
    }
    None
}


/// View of one optional string.
pub open spec fn opt_str_view(s: Option<String>) -> Option<Seq<char>> {
    match s {
        Some(x) => Some(x@),
        None => None,
    }
}

/// Optional string list member: an absent or null member reads as no value,
/// an all-string array as that list, and anything else fails.
pub open spec fn spec_doc_get_str_arr_opt(d: Seq<JsonFieldV>, name: Seq<char>) -> Option<
    Option<Seq<Seq<char>>>,
> {
    match spec_doc_get(d, name) {
        None => Some(None),
        Some(JsonValueV::Scalar(ScalarV::Null)) => Some(None),
        Some(JsonValueV::Arr(items)) => match spec_str_seq(items) {
            Some(ss) => Some(Some(ss)),
            None => None,
        },
        _ => None,
    }
}

/// Optional string-to-string object member: absent or null reads as no
/// value, an all-string object as its pairs, and anything else fails.
pub open spec fn spec_doc_get_str_map_opt(d: Seq<JsonFieldV>, name: Seq<char>) -> Option<
    Option<Seq<StrPairV>>,
> {
    match spec_doc_get(d, name) {
        None => Some(None),
        Some(JsonValueV::Scalar(ScalarV::Null)) => Some(None),
        Some(JsonValueV::Obj(fields)) => match spec_str_pairs(fields) {
            Some(ps) => Some(Some(ps)),
            None => None,
        },
        _ => None,
    }
}

/// Read an optional string list member of a document.
pub fn doc_get_str_arr_opt(d: &Vec<JsonField>, name: &str) -> (r: Option<Option<Vec<String>>>)
    ensures
        match r {
            Some(Some(v)) => spec_doc_get_str_arr_opt(doc_view(d@), name@) == Some(
                Some(strs_view(v@)),
            ),
            Some(None) => spec_doc_get_str_arr_opt(doc_view(d@), name@) == Some(
                None::<Seq<Seq<char>>>,
            ),
            None => spec_doc_get_str_arr_opt(doc_view(d@), name@) is None,
        },
{
    match doc_get(d, name) {
        None => Some(None),
        Some(JsonValue::Scalar(JsonScalar::Null)) => Some(None),
        Some(JsonValue::Arr(items)) => match scalars_to_strs(items) {
            Some(v) => Some(Some(v)),
            None => None,
        },
        _ => None,
    }
}

/// Read an optional string-to-string object member of a document.
pub fn doc_get_str_map_opt(d: &Vec<JsonField>, name: &str) -> (r: Option<Option<Vec<StrPair>>>)
    ensures
        match r {
            Some(Some(v)) => spec_doc_get_str_map_opt(doc_view(d@), name@) == Some(
                Some(pairs_view(v@)),
            ),
            Some(None) => spec_doc_get_str_map_opt(doc_view(d@), name@) == Some(
                None::<Seq<StrPairV>>,
            ),
            None => spec_doc_get_str_map_opt(doc_view(d@), name@) is None,
        },
{
    match doc_get(d, name) {
        None => Some(None),
        Some(JsonValue::Scalar(JsonScalar::Null)) => Some(None),
        Some(JsonValue::Obj(fields)) => match obj_to_pairs(fields) {
            Some(v) => Some(Some(v)),
            None => None,
        },
        _ => None,
    }
}

/// Whether a string list holds the given text.
pub fn strs_contain(v: &Vec<String>, s: &str) -> (r: bool)
    ensures
        r == strs_view(v@).contains(s@),
{
    let mut i: usize = 0;
    while i < v.len()
        invariant
            0 <= i <= v@.len(),
            forall|k: int| 0 <= k < i ==> strs_view(v@)[k] != s@,
        decreases v@.len() - i,
    {
        proof {
            assert(strs_view(v@)[i as int] == v@[i as int]@);
        }
        if crate::text::str_eq(v[i].as_str(), s) {
            proof {
                assert(strs_view(v@).contains(s@));
            }
            return true;
        }
        i += 1;
    }
    proof {
        assert(!strs_view(v@).contains(s@)) by {
            if strs_view(v@).contains(s@) {
                let k = choose|k: int| 0 <= k < strs_view(v@).len() && strs_view(v@)[k] == s@;
                assert(false);
            }
        }
    }
    false
}

} // verus!
