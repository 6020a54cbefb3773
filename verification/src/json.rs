//! Parsed JSON documents, seen as maps from paths to nodes, and the
//! `serde_json` calls that read them.
use vstd::prelude::*;

verus! {

/// A JSON number as `serde_json` keeps it.
pub enum JsonNumber {
    /// A non-negative integer that fits in `u64`.
    PosInt(u64),
    /// A negative integer that fits in `i64`.
    NegInt(i64),
    /// Any other number, given by the text that `serde_json` prints for it.
    Float(Seq<char>),
}

/// The node found at one path of a JSON document. The members of an object
/// and the elements of an array are nodes of their own, one step further
/// down the path.
pub enum JsonNode {
    Null,
    Bool(bool),
    Number(JsonNumber),
    Str(Seq<char>),
    Array,
    Object,
}

/// One step down a JSON document.
pub enum JsonStep {
    /// To the member with this key, below an object.
    Key(Seq<char>),
    /// To the element at this position (from zero), below an array.
    Index(nat),
}

/// A JSON document: for every path from the root, the node found there.
/// The empty path names the root; a path continues below an object by the
/// key of each member and below an array by the position of each element,
/// so that the map holds the whole document, every member and element
/// included, and nothing more.
pub type JsonTree = Map<Seq<JsonStep>, JsonNode>;

#[verifier::external_type_specification]
#[verifier::external_body]
pub struct ExValue(serde_json::Value);

/// What a `serde_json::Value` holds, as a [`JsonTree`].
pub uninterp spec fn json_contents(v: serde_json::Value) -> JsonTree;

/// What `serde_json::from_str` makes of a text: the document it reads, or,
/// where the text is not one JSON value, the `Display` text of its error
/// (what went wrong, and at which line and column).
pub uninterp spec fn json_parse(text: Seq<char>) -> Result<JsonTree, Seq<char>>;

/// The node at the root of a document, if the map has one.
pub open spec fn root_node(m: JsonTree) -> Option<JsonNode> {
    if m.dom().contains(Seq::empty()) {
        Some(m[Seq::empty()])
    } else {
        None
    }
}

/// The document holding only `null`.
pub open spec fn null_tree() -> JsonTree {
    Map::empty().insert(Seq::empty(), JsonNode::Null)
}

/// Whether the root is an object with the key `k`.
pub open spec fn has_key(m: JsonTree, k: Seq<char>) -> bool {
    root_node(m) == Some(JsonNode::Object) && m.dom().contains(seq![JsonStep::Key(k)])
}

/// The part of a document below the key `k` of its root.
pub open spec fn child(m: JsonTree, k: Seq<char>) -> JsonTree {
    Map::new(
        |p: Seq<JsonStep>| m.dom().contains(seq![JsonStep::Key(k)] + p),
        |p: Seq<JsonStep>| m[seq![JsonStep::Key(k)] + p],
    )
}

/// What `value[k]` gives: the member `k` of an object root, else `null`.
pub open spec fn at(m: JsonTree, k: Seq<char>) -> JsonTree {
    if has_key(m, k) {
        child(m, k)
    } else {
        null_tree()
    }
}

/// What `value[k1][k2]` gives.
pub open spec fn at2(m: JsonTree, k1: Seq<char>, k2: Seq<char>) -> JsonTree {
    at(at(m, k1), k2)
}

/// The string at the root, if the root is a string.
pub open spec fn str_of(m: JsonTree) -> Option<Seq<char>> {
    match root_node(m) {
        Some(JsonNode::Str(s)) => Some(s),
        _ => None,
    }
}

/// The root as `u64`, if it is a non-negative integer that fits.
pub open spec fn u64_of(m: JsonTree) -> Option<u64> {
    match root_node(m) {
        Some(JsonNode::Number(JsonNumber::PosInt(u))) => Some(u),
        _ => None,
    }
}

/// The text of the root number, if the root is a number.
pub open spec fn number_text_of(m: JsonTree) -> Option<Seq<char>> {
    match root_node(m) {
        Some(JsonNode::Number(n)) => Some(number_text(n)),
        _ => None,
    }
}

/// The decimal digit `d` (below ten) as a character.
pub open spec fn digit_char(d: nat) -> char {
    seq!['0', '1', '2', '3', '4', '5', '6', '7', '8', '9'][d as int]
}

/// The decimal text of a natural number, without leading zeros.
pub open spec fn decimal(n: nat) -> Seq<char>
    decreases n,
{
    if n < 10 {
        seq![digit_char(n)]
    } else {
        decimal(n / 10).push(digit_char(n % 10))
    }
}

/// The text that `serde_json` prints for a number.
pub open spec fn number_text(n: JsonNumber) -> Seq<char> {
    match n {
        JsonNumber::PosInt(u) => decimal(u as nat),
        JsonNumber::NegInt(i) => if i < 0 {
            seq!['-'] + decimal((-i) as nat)
        } else {
            decimal(i as nat)
        },
        JsonNumber::Float(t) => t,
    }
}

/// `serde_json::from_str::<Value>`: reads one JSON value from `text`, or
/// gives the `Display` text of the `serde_json::Error` it fails with.
#[verifier::external_body]
pub(crate) fn parse_json(text: &str) -> (r: Result<serde_json::Value, String>)
    ensures
        r is Ok <==> json_parse(text@) is Ok,
        r matches Ok(v) ==> json_contents(v) == json_parse(text@)->Ok_0,
        r matches Err(msg) ==> json_parse(text@) is Err && json_parse(text@)->Err_0 == msg@,
{
    match serde_json::from_str::<serde_json::Value>(text) {
        Ok(v) => Ok(v),
        Err(e) => Err(e.to_string()),
    }
}

/// `Value::get` with a key: the member `k` of an object, else `None`.
#[verifier::external_body]
pub(crate) fn value_get<'a>(v: &'a serde_json::Value, k: &str) -> (r: Option<&'a serde_json::Value>)
    ensures
        r is Some <==> has_key(json_contents(*v), k@),
        r matches Some(c) ==> json_contents(*c) == child(json_contents(*v), k@),
{
    v.get(k)
}

/// `value[k]`: the member `k` of an object, else `null`.
#[verifier::external_body]
pub(crate) fn value_index<'a>(v: &'a serde_json::Value, k: &str) -> (r: &'a serde_json::Value)
    ensures
        json_contents(*r) == at(json_contents(*v), k@),
{
    &v[k]
}

/// `Value::as_str`: the string, if the value is a string.
#[verifier::external_body]
pub(crate) fn value_as_str(v: &serde_json::Value) -> (r: Option<&str>)
    ensures
        r matches Some(s) ==> str_of(json_contents(*v)) == Some(s@),
        r is None ==> str_of(json_contents(*v)) is None,
{
    v.as_str()
}

/// `Value::as_u64`: the number, if it is a non-negative integer that fits.
#[verifier::external_body]
pub(crate) fn value_as_u64(v: &serde_json::Value) -> (r: Option<u64>)
    ensures
        r == u64_of(json_contents(*v)),
{
    v.as_u64()
}

/// `Value::as_number` followed by the `Display` of `serde_json::Number`:
/// the printed number, if the value is a number.
#[verifier::external_body]
pub(crate) fn value_number_text(v: &serde_json::Value) -> (r: Option<String>)
    ensures
        r matches Some(t) ==> number_text_of(json_contents(*v)) == Some(t@),
        r is None ==> number_text_of(json_contents(*v)) is None,
{
    v.as_number().map(ToString::to_string)
}

} // verus!
