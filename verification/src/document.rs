use vstd::prelude::*;

verus! {

/// A schema-less configuration document: the JSON-like tree of mappings,
/// sequences and scalars that flows through the activation pipeline.
/// Numeric scalars are kept as their literal text, so no precision is lost
/// on the way through.
#[derive(Debug, PartialEq)]
pub enum Doc {
    Null,
    Bool(bool),
    Num(String),
    Str(String),
    Arr(Vec<Doc>),
    Obj(Vec<(String, Doc)>),
}

impl Doc {
    /// The top level of the activation document must stay a mapping so that
    /// the dashboard policy field can be injected.
    pub open spec fn is_mapping(self) -> bool {
        self matches Doc::Obj(_)
    }
}

/// Some entry of `es` carries `key`.
pub open spec fn obj_has_key(es: Seq<(String, Doc)>, key: Seq<char>) -> bool {
    exists|i: int| 0 <= i < es.len() && es[i].0@ == key
}

/// Set `key` to `val` in an entry list: the first entry carrying that key is
/// updated in place, keeping its position; if none carries it, a new entry is
/// appended.
#[verifier::loop_isolation(false)]
pub fn obj_set(mut es: Vec<(String, Doc)>, key: String, val: Doc) -> (r: Vec<(String, Doc)>)
    ensures
        obj_has_key(es@, key@) ==> exists|i: int|
            #![trigger es@[i]]
            0 <= i < es@.len() && es@[i].0@ == key@ && (forall|j: int|
                0 <= j < i ==> es@[j].0@ != key@) && r@ == es@.update(i, (es@[i].0, val)),
        !obj_has_key(es@, key@) ==> r@ == es@.push((key, val)),
{
    let ghost es0 = es@;
    let n = es.len();
    let mut i: usize = 0;
    while i < n
        invariant
            es@ == es0,
            i <= n == es0.len(),
            forall|j: int| 0 <= j < i ==> es0[j].0@ != key@,
        decreases n - i,
    {
        if es[i].0 == key {
            let (k, _) = es.remove(i);
            es.insert(i, (k, val));
            proof {
                assert(es@ =~= es0.update(i as int, (es0[i as int].0, val)));
                assert(obj_has_key(es0, key@));
            }
            return es;
        }
        i = i + 1;
    }
    es.push((key, val));
    es
}

#[verifier::external_type_specification]
#[verifier::external_body]
pub struct ExValue(serde_json::Value);

/// serde_yaml accepts this text as one YAML document (with string keys
/// only, so that it fits the JSON-like tree).
pub uninterp spec fn yaml_parses(text: Seq<char>) -> bool;

/// serde_json accepts this text as one JSON document.
pub uninterp spec fn json_parses(text: Seq<char>) -> bool;

/// The document that YAML text parses to, when `yaml_parses` holds of it.
pub uninterp spec fn yaml_doc_of(text: Seq<char>) -> Doc;

/// The document that JSON text parses to, when `json_parses` holds of it.
pub uninterp spec fn json_doc_of(text: Seq<char>) -> Doc;

/// The library tree that a JSON-like value carries: what the conversion
/// below returns for it.
pub uninterp spec fn value_doc(v: serde_json::Value) -> Doc;

/// The JSON text of a JSON-like value, and whether writing it succeeds.
pub uninterp spec fn value_json(v: serde_json::Value) -> Seq<char>;

pub uninterp spec fn value_json_ok(v: serde_json::Value) -> bool;

/// The YAML text of a JSON-like value, and whether writing it succeeds.
pub uninterp spec fn value_yaml(v: serde_json::Value) -> Seq<char>;

pub uninterp spec fn value_yaml_ok(v: serde_json::Value) -> bool;

/// The JSON text of a document: the JSON text of the value it converts to.
pub uninterp spec fn json_text_of(d: Doc) -> Seq<char>;

pub uninterp spec fn json_serializes(d: Doc) -> bool;

/// The YAML text of a document: the text written as the proxy core's
/// configuration.
pub uninterp spec fn yaml_text_of(d: Doc) -> Seq<char>;

pub uninterp spec fn yaml_serializes(d: Doc) -> bool;

/// Relies on serde_yaml::from_str: parses YAML text into a JSON-like value
/// (text parsing is an outside capability); deterministic in its input, so
/// success is exactly `yaml_parses` and the parsed value is a function of
/// the text.
#[verifier::external_body]
fn yaml_to_value(text: &str) -> (r: Option<serde_json::Value>)
    ensures
        r is Some <==> yaml_parses(text@),
        r matches Some(v) ==> value_doc(v) == yaml_doc_of(text@),
{
    serde_yaml::from_str::<serde_json::Value>(text).ok()
}

/// Relies on serde_json::from_str: parses JSON text; deterministic in its
/// input, so success is exactly `json_parses` and the parsed value is a
/// function of the text.
#[verifier::external_body]
fn json_to_value(text: &str) -> (r: Option<serde_json::Value>)
    ensures
        r is Some <==> json_parses(text@),
        r matches Some(v) ==> value_doc(v) == json_doc_of(text@),
{
    serde_json::from_str::<serde_json::Value>(text).ok()
}

/// Relies on serde_json::to_string to write a value as JSON text;
/// deterministic in the value.
#[verifier::external_body]
fn value_to_json_text(v: &serde_json::Value) -> (r: Option<String>)
    ensures
        r is Some <==> value_json_ok(*v),
        r matches Some(s) ==> s@ == value_json(*v),
{
    serde_json::to_string(v).ok()
}

/// Relies on serde_yaml::to_string to write a value as YAML text;
/// deterministic in the value.
#[verifier::external_body]
fn value_to_yaml_text(v: &serde_json::Value) -> (r: Option<String>)
    ensures
        r is Some <==> value_yaml_ok(*v),
        r matches Some(s) ==> s@ == value_yaml(*v),
{
    serde_yaml::to_string(v).ok()
}

/// Relies on the shape of serde_json::Value: each variant is carried over
/// one-for-one into the library's own tree; a number becomes its literal
/// text through serde_json::Number's Display. Deterministic, so the result
/// is exactly `value_doc`.
#[verifier::external_body]
fn value_to_doc(v: serde_json::Value) -> (r: Doc)
    ensures
        r == value_doc(v),
{
    match v {
        serde_json::Value::Null => Doc::Null,
        serde_json::Value::Bool(b) => Doc::Bool(b),
        serde_json::Value::Number(n) => Doc::Num(n.to_string()),
        serde_json::Value::String(s) => Doc::Str(s),
        serde_json::Value::Array(a) => Doc::Arr(a.into_iter().map(value_to_doc).collect()),
        serde_json::Value::Object(o) => Doc::Obj(
            o.into_iter().map(|(k, child)| (k, value_to_doc(child))).collect(),
        ),
    }
}

/// Relies on the shape of serde_json::Value: each variant of the library's
/// tree is carried back one-for-one; a numeric literal goes through
/// serde_json::Number's FromStr, and one that no longer parses becomes null.
/// Deterministic, so the texts of the result are functions of the document,
/// which the document-level names state.
#[verifier::external_body]
fn doc_to_value(d: Doc) -> (r: serde_json::Value)
    ensures
        value_json_ok(r) == json_serializes(d),
        value_json(r) == json_text_of(d),
        value_yaml_ok(r) == yaml_serializes(d),
        value_yaml(r) == yaml_text_of(d),
{
    match d {
        Doc::Null => serde_json::Value::Null,
        Doc::Bool(b) => serde_json::Value::Bool(b),
        Doc::Num(s) => match s.parse::<serde_json::Number>() {
            Ok(n) => serde_json::Value::Number(n),
            Err(_) => serde_json::Value::Null,
        },
        Doc::Str(s) => serde_json::Value::String(s),
        Doc::Arr(v) => serde_json::Value::Array(v.into_iter().map(doc_to_value).collect()),
        Doc::Obj(es) => serde_json::Value::Object(
            es.into_iter().map(|(k, child)| (k, doc_to_value(child))).collect(),
        ),
    }
}

/// Parse one YAML document into the library's tree: succeeds exactly on the
/// text that the YAML parser accepts, and yields exactly the document that
/// the text parses to.
pub fn parse_yaml_doc(text: &str) -> (r: Option<Doc>)
    ensures
        r is Some <==> yaml_parses(text@),
        r matches Some(d) ==> d == yaml_doc_of(text@),
{
    match yaml_to_value(text) {
        Some(v) => Some(value_to_doc(v)),
        None => None,
    }
}

/// Parse one JSON document into the library's tree: succeeds exactly on the
/// text that the JSON parser accepts, and yields exactly the document that
/// the text parses to.
pub fn parse_json_doc(text: &str) -> (r: Option<Doc>)
    ensures
        r is Some <==> json_parses(text@),
        r matches Some(d) ==> d == json_doc_of(text@),
{
    match json_to_value(text) {
        Some(v) => Some(value_to_doc(v)),
        None => None,
    }
}

/// The document as JSON text, as handed to the script sandbox: exactly the
/// document's JSON text whenever writing it succeeds.
pub fn doc_to_json(d: Doc) -> (r: Option<String>)
    ensures
        r is Some <==> json_serializes(d),
        r matches Some(s) ==> s@ == json_text_of(d),
{
    value_to_json_text(&doc_to_value(d))
}

/// The document as YAML text, as written into the proxy core's configuration
/// file: exactly the document's YAML text whenever writing it succeeds.
pub fn doc_to_yaml(d: Doc) -> (r: Option<String>)
    ensures
        r is Some <==> yaml_serializes(d),
        r matches Some(s) ==> s@ == yaml_text_of(d),
{
    value_to_yaml_text(&doc_to_value(d))
}

} // verus!
