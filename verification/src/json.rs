//! What the operator reads and writes of JSON.

use vstd::prelude::*;

use crate::collections;
use crate::collections::StringMap;
use crate::digest;
use crate::text;

verus! {

/// A JSON value to be written.
#[derive(Debug, PartialEq)]
pub enum Json {
    Null,
    Bool(bool),
    Number(u64),
    Text(String),
    Array(Vec<Json>),
    Object(Vec<(String, Json)>),
}

/// A member of a JSON object, as far as it is read: what it is, and its value
/// where that is a boolean or a string.
#[derive(Debug, PartialEq)]
pub enum JsonScalar {
    Null,
    Bool(bool),
    Number,
    Text(String),
    Array,
    Object,
}

pub enum JsonScalarView {
    Null,
    Bool(bool),
    Number,
    Text(Seq<char>),
    Array,
    Object,
}

impl View for JsonScalar {
    type V = JsonScalarView;

    open spec fn view(&self) -> JsonScalarView {
        match *self {
            JsonScalar::Null => JsonScalarView::Null,
            JsonScalar::Bool(b) => JsonScalarView::Bool(b),
            JsonScalar::Number => JsonScalarView::Number,
            JsonScalar::Text(s) => JsonScalarView::Text(s@),
            JsonScalar::Array => JsonScalarView::Array,
            JsonScalar::Object => JsonScalarView::Object,
        }
    }
}

/// A JSON value, as far as it is read: the members of an object, or what else it is.
#[derive(Debug, PartialEq)]
pub enum JsonDocument {
    Object(Vec<(String, JsonScalar)>),
    Other(JsonScalar),
}

#[verifier::ext_equal]
pub enum JsonDocumentView {
    Object(Seq<(Seq<char>, JsonScalarView)>),
    Other(JsonScalarView),
}

impl View for JsonDocument {
    type V = JsonDocumentView;

    open spec fn view(&self) -> JsonDocumentView {
        match *self {
            JsonDocument::Object(m) => JsonDocumentView::Object(member_views(m@)),
            JsonDocument::Other(v) => JsonDocumentView::Other(v@),
        }
    }
}

/// The views of a list of members.
pub open spec fn member_views(s: Seq<(String, JsonScalar)>) -> Seq<(Seq<char>, JsonScalarView)> {
    Seq::new(s.len(), |i: int| (s[i].0@, s[i].1@))
}

/// The JSON value that a text stands for, or why the text is no JSON.
pub uninterp spec fn parsed_document(text: Seq<char>) -> Result<JsonDocumentView, Seq<char>>;

/// Calls `serde_json::from_str` for a `serde_json::Value`. Claims that its outcome
/// depends on the text alone: the error, in words, or the value, of which an object
/// keeps its members. Which texts are JSON is not said.
#[verifier::external_body]
fn parse_document(text: &str) -> (r: Result<JsonDocument, String>)
    ensures
        collections::res(r) == parsed_document(text@),
{
    let scalar = |v: serde_json::Value| match v {
        serde_json::Value::Null => JsonScalar::Null,
        serde_json::Value::Bool(b) => JsonScalar::Bool(b),
        serde_json::Value::Number(_) => JsonScalar::Number,
        serde_json::Value::String(s) => JsonScalar::Text(s),
        serde_json::Value::Array(_) => JsonScalar::Array,
        serde_json::Value::Object(_) => JsonScalar::Object,
    };
    match serde_json::from_str(text) {
        Ok(serde_json::Value::Object(m)) => Ok(
            JsonDocument::Object(m.into_iter().map(|(k, v)| (k, scalar(v))).collect()),
        ),
        Ok(v) => Ok(JsonDocument::Other(scalar(v))),
        Err(e) => Err(e.to_string()),
    }
}

/// The members of a JSON value: of an object its own, of any other value none.
pub open spec fn members_of(d: JsonDocumentView) -> Seq<(Seq<char>, JsonScalarView)> {
    match d {
        JsonDocumentView::Object(m) => m,
        JsonDocumentView::Other(_) => Seq::empty(),
    }
}

/// The members of the JSON value that a text stands for, or why the text is no JSON.
pub open spec fn parsed_object(text: Seq<char>) -> Result<
    Seq<(Seq<char>, JsonScalarView)>,
    Seq<char>,
> {
    match parsed_document(text) {
        Ok(d) => Ok(members_of(d)),
        Err(e) => Err(e),
    }
}

/// The value of the first member named `key`.
pub open spec fn member(s: Seq<(Seq<char>, JsonScalarView)>, key: Seq<char>) -> Option<
    JsonScalarView,
>
    decreases s.len(),
{
    if s.len() == 0 {
        None
    } else if s[0].0 == key {
        Some(s[0].1)
    } else {
        member(s.drop_first(), key)
    }
}

/// The members of a JSON value: of an object its own, of any other value none.
#[derive(Debug, PartialEq)]
pub struct JsonObject {
    pub members: Vec<(String, JsonScalar)>,
}

impl View for JsonObject {
    type V = Seq<(Seq<char>, JsonScalarView)>;

    open spec fn view(&self) -> Seq<(Seq<char>, JsonScalarView)> {
        member_views(self.members@)
    }
}

impl JsonObject {
    /// The value of the member named `key`.
    pub fn get(&self, key: &str) -> (r: Option<&JsonScalar>)
        ensures
            r is Some <==> member(self@, key@) is Some,
            r matches Some(v) ==> member(self@, key@) == Some(v@),
    {
        let mut i: usize = 0;
        assert(self@.skip(0) =~= self@);
        while i < self.members.len()
            invariant
                i <= self.members.len(),
                member(self@, key@) == member(self@.skip(i as int), key@),
            decreases self.members.len() - i,
        {
            assert(self@.skip(i as int)[0] == self@[i as int]);
            if text::same(self.members[i].0.as_str(), key) {
                return Some(&self.members[i].1);
            }
            assert(self@.skip(i as int).drop_first() =~= self@.skip(i + 1));
            i = i + 1;
        }
        None
    }
}

/// The members of a JSON value: a value that is no object has none.
pub fn into_members(d: JsonDocument) -> (o: JsonObject)
    ensures
        o@ == members_of(d@),
{
    let o = match d {
        JsonDocument::Object(members) => JsonObject { members },
        JsonDocument::Other(_) => JsonObject { members: Vec::new() },
    };
    assert(o@ =~= members_of(d@));
    o
}

/// The members of the JSON value that `text` stands for, or why it stands for none.
pub fn parse_object(text: &str) -> (r: Result<JsonObject, String>)
    ensures
        r is Ok <==> parsed_object(text@) is Ok,
        r matches Ok(o) ==> o@ == parsed_object(text@)->Ok_0,
        r matches Err(e) ==> e@ == parsed_object(text@)->Err_0,
{
    match parse_document(text) {
        Ok(d) => Ok(into_members(d)),
        Err(e) => Err(e),
    }
}

/// A character as JSON writes it in a string.
pub open spec fn escaped(c: char) -> Seq<char> {
    if c == '"' || c == '\\' {
        seq!['\\', c]
    } else if c == '\u{8}' {
        seq!['\\', 'b']
    } else if c == '\t' {
        seq!['\\', 't']
    } else if c == '\n' {
        seq!['\\', 'n']
    } else if c == '\u{c}' {
        seq!['\\', 'f']
    } else if c == '\r' {
        seq!['\\', 'r']
    } else if ' ' > c {
        seq!['\\', 'u', '0', '0'] + seq![
            digest::hex_digit(c as int / 16),
            digest::hex_digit(c as int % 16),
        ]
    } else {
        seq![c]
    }
}

/// The characters of a string as JSON writes them.
pub open spec fn escaped_text(s: Seq<char>) -> Seq<char>
    decreases s.len(),
{
    if s.len() == 0 {
        Seq::empty()
    } else {
        escaped_text(s.drop_last()) + escaped(s.last())
    }
}

/// A string as JSON writes it, in quotation marks.
pub open spec fn quoted_text(s: Seq<char>) -> Seq<char> {
    seq!['"'] + escaped_text(s) + seq!['"']
}

/// Whether no control character, so no line break either, is in `s`.
pub open spec fn one_line(s: Seq<char>) -> bool {
    forall|i: int| 0 <= i < s.len() ==> #[trigger] s[i] >= ' '
}

/// Two texts on one line make one line.
pub proof fn one_line_concat(a: Seq<char>, b: Seq<char>)
    requires
        one_line(a),
        one_line(b),
    ensures
        one_line(a + b),
{
    assert forall|i: int| 0 <= i < (a + b).len() implies #[trigger] (a + b)[i] >= ' ' by {
        if i < a.len() {
            assert(a[i] >= ' ');
        } else {
            assert(b[i - a.len()] >= ' ');
        }
    }
}

/// A character, as JSON writes it, is on one line.
proof fn escaped_char_is_one_line(c: char)
    ensures
        one_line(escaped(c)),
{
    if escaped(c).len() == 6 {
        let (h, l) = (c as int / 16, c as int % 16);
        assert(digest::hex_digit(h) >= '0' && digest::hex_digit(l) >= '0');
        let e = escaped(c);
        assert(e[4] == digest::hex_digit(h) && e[5] == digest::hex_digit(l));
        assert(e[0] == '\\' && e[1] == 'u' && e[2] == '0' && e[3] == '0');
    }
}

/// The characters of a string, as JSON writes them, are on one line.
proof fn escaped_is_one_line(s: Seq<char>)
    ensures
        one_line(escaped_text(s)),
    decreases s.len(),
{
    if s.len() > 0 {
        escaped_is_one_line(s.drop_last());
        escaped_char_is_one_line(s.last());
        one_line_concat(escaped_text(s.drop_last()), escaped(s.last()));
    }
}

/// Whatever a string holds, JSON writes it on one line.
pub proof fn quoted_is_one_line(s: Seq<char>)
    ensures
        one_line(quoted_text(s)),
{
    escaped_is_one_line(s);
    one_line_concat(seq!['"'], escaped_text(s));
    one_line_concat(seq!['"'] + escaped_text(s), seq!['"']);
}

/// Calls `serde_json::to_string` for a string, which cannot fail. Claims that it
/// writes the string in quotation marks, with quotation marks, backslashes and
/// control characters escaped, and every other character as it is.
#[verifier::external_body]
pub(crate) fn quote(s: &str) -> (out: String)
    ensures
        out@ == quoted_text(s@),
{
    serde_json::to_string(s).expect("a string always serializes")
}

/// The members of the JSON object of strings that a text stands for, in ascending
/// key order; or why the text is no such object.
pub uninterp spec fn parsed_string_map(text: Seq<char>) -> Result<
    Seq<(Seq<char>, Seq<char>)>,
    Seq<char>,
>;

/// The views of a list of pairs of strings.
pub open spec fn pair_views(s: Seq<(String, String)>) -> Seq<(Seq<char>, Seq<char>)> {
    Seq::new(s.len(), |i: int| (s[i].0@, s[i].1@))
}

/// The view of the outcome of a parse.
pub open spec fn pairs_outcome(r: Result<Vec<(String, String)>, String>) -> Result<
    Seq<(Seq<char>, Seq<char>)>,
    Seq<char>,
> {
    match r {
        Ok(v) => Ok(pair_views(v@)),
        Err(e) => Err(e@),
    }
}

/// Calls `serde_json::from_str` for a `BTreeMap` of strings. Claims that its outcome
/// depends on the text alone: the error, in words, or the entries of the map, which
/// come in ascending key order, each key once. Which texts are such an object is
/// not said.
#[verifier::external_body]
pub(crate) fn parse_string_map(text: &str) -> (r: Result<Vec<(String, String)>, String>)
    ensures
        pairs_outcome(r) == parsed_string_map(text@),
        r matches Ok(v) ==> collections::ascending(collections::keys_of(v@)),
{
    match serde_json::from_str::<std::collections::BTreeMap<String, String>>(text) {
        Ok(m) => Ok(m.into_iter().collect()),
        Err(e) => Err(e.to_string()),
    }
}

/// The members of a JSON object of strings.
pub open spec fn members_text(s: Seq<(Seq<char>, Seq<char>)>) -> Seq<char>
    decreases s.len(),
{
    if s.len() == 0 {
        Seq::empty()
    } else {
        let member = quoted_text(s.last().0) + seq![':'] + quoted_text(s.last().1);
        if s.len() == 1 {
            member
        } else {
            members_text(s.drop_last()) + seq![','] + member
        }
    }
}

/// The entries of a map, in ascending key order.
pub open spec fn entries_in_order(m: Map<Seq<char>, Seq<char>>) -> Seq<(Seq<char>, Seq<char>)> {
    let keys = collections::in_order(m.dom());
    Seq::new(keys.len(), |i: int| (keys[i], m[keys[i]]))
}

/// A map of strings as a JSON object, its keys in ascending order.
pub open spec fn string_map_text(m: Map<Seq<char>, Seq<char>>) -> Seq<char> {
    seq!['{'] + members_text(entries_in_order(m)) + seq!['}']
}

/// Calls `serde_json::to_string` for a `BTreeMap` of strings, which cannot fail.
/// Claims that it writes the entries, which the map has in ascending key order, as
/// the members of an object, without white space.
#[verifier::external_body]
fn write_entries(entries: &Vec<(String, String)>) -> (out: String)
    requires
        collections::ascending(collections::keys_of(entries@)),
    ensures
        out@ == seq!['{'] + members_text(pair_views(entries@)) + seq!['}'],
{
    let map: std::collections::BTreeMap<&str, &str> = entries.iter().map(|(k, v)| (k.as_str(), v.as_str())).collect();
    serde_json::to_string(&map).expect("a map of strings always serializes")
}

/// Writes a map of strings as a JSON object.
pub fn write_string_map(m: &StringMap) -> (out: String)
    ensures
        out@ == string_map_text(m@),
{
    let entries = m.entries();
    proof {
        let s = entries@;
        let keys = collections::keys_of(s);
        assert(keys.to_set() =~= m@.dom()) by {
            assert forall|k: Seq<char>| keys.to_set().contains(k) <==> m@.dom().contains(k) by {
                if keys.to_set().contains(k) {
                    let i = choose|i: int| 0 <= i < keys.len() && keys[i] == k;
                    assert(s[i].0@ == k);
                }
                if m@.dom().contains(k) {
                    let i = choose|i: int| 0 <= i < s.len() && #[trigger] s[i].0@ == k;
                    assert(keys[i] == k);
                }
            }
        }
        collections::ascending_is_in_order(keys);
        assert forall|i: int| 0 <= i < s.len() implies pair_views(s)[i] == entries_in_order(
            m@,
        )[i] by {
            collections::entry_value(s, i);
        }
        assert(pair_views(s) =~= entries_in_order(m@));
    }
    write_entries(entries)
}

} // verus!
