//! JSON values, as far as the harness protocol reads and writes them.

use vstd::prelude::*;

use crate::codec;
use crate::table;
use crate::text;

verus! {

/// The model of a JSON value. What number a number is does not matter here.
pub enum JsonTree {
    Null,
    Bool(bool),
    Number,
    Text(Seq<char>),
    List(Seq<JsonTree>),
    Object(Seq<(Seq<char>, JsonTree)>),
}

/// A JSON value.
#[derive(Debug)]
pub enum Json {
    Null,
    Bool(bool),
    Number,
    Text(String),
    List(Vec<Json>),
    Object(Vec<(String, Json)>),
}

/// `serde_json::Value`, a parsed JSON document.
#[verifier::external_type_specification]
#[verifier::external_body]
pub struct ExValue(serde_json::Value);

/// What a parsed JSON document holds.
pub uninterp spec fn json_content(v: serde_json::Value) -> JsonTree;

/// What a text parses to as JSON, if it does.
pub uninterp spec fn json_parsed(s: Seq<char>) -> Option<JsonTree>;

/// `serde_json::from_str` to a `serde_json::Value`: whether and to what the text parses is a function
/// of the text.
#[verifier::external_body]
fn parse_value(s: &str) -> (r: Option<serde_json::Value>)
    ensures
        r is Some == json_parsed(s@) is Some,
        r matches Some(v) ==> json_content(v) == json_parsed(s@)->0,
{
    serde_json::from_str::<serde_json::Value>(s).ok()
}

/// The outermost layer of a parsed document.
enum Layer {
    Null,
    Bool(bool),
    Number,
    Text(String),
    List(Vec<serde_json::Value>),
    Object(Vec<(String, serde_json::Value)>),
}

/// The variants of `serde_json::Value`: the outermost layer of a document, each part moved out as it
/// is, the members of an object in the order in which `serde_json::Map` walks them.
#[verifier::external_body]
fn open_value(v: serde_json::Value) -> (r: Layer)
    ensures
        match json_content(v) {
            JsonTree::Null => r is Null,
            JsonTree::Bool(b) => r == Layer::Bool(b),
            JsonTree::Number => r is Number,
            JsonTree::Text(t) => r matches Layer::Text(s) && s@ == t,
            JsonTree::List(l) => r matches Layer::List(a) && a@.len() == l.len() && forall|i: int|
                0 <= i < l.len() ==> json_content(#[trigger] a@[i]) == l[i],
            JsonTree::Object(o) => r matches Layer::Object(m) && m@.len() == o.len() && forall|
                i: int,
            |
                0 <= i < o.len() ==> (#[trigger] m@[i]).0@ == o[i].0 && json_content(m@[i].1)
                    == o[i].1,
        },
{
    match v {
        serde_json::Value::Null => Layer::Null,
        serde_json::Value::Bool(b) => Layer::Bool(b),
        serde_json::Value::Number(_) => Layer::Number,
        serde_json::Value::String(s) => Layer::Text(s),
        serde_json::Value::Array(a) => Layer::List(a),
        serde_json::Value::Object(m) => Layer::Object(m.into_iter().collect()),
    }
}

/// The model of a value.
pub open spec fn tree(j: Json) -> JsonTree
    decreases j,
{
    match j {
        Json::Null => JsonTree::Null,
        Json::Bool(b) => JsonTree::Bool(b),
        Json::Number => JsonTree::Number,
        Json::Text(s) => JsonTree::Text(s@),
        Json::List(v) => JsonTree::List(
            Seq::new(
                v@.len(),
                |i: int|
                    if 0 <= i < v@.len() {
                        tree(v@[i])
                    } else {
                        JsonTree::Null
                    },
            ),
        ),
        Json::Object(v) => JsonTree::Object(
            Seq::new(
                v@.len(),
                |i: int|
                    if 0 <= i < v@.len() {
                        (v@[i].0@, tree(v@[i].1))
                    } else {
                        (Seq::empty(), JsonTree::Null)
                    },
            ),
        ),
    }
}

impl View for Json {
    type V = JsonTree;

    open spec fn view(&self) -> JsonTree {
        tree(*self)
    }
}

/// The library's form of a parsed document.
fn from_value(v: serde_json::Value) -> (r: Json)
    ensures
        r@ == json_content(v),
    decreases json_content(v),
{
    let ghost t = json_content(v);
    match open_value(v) {
        Layer::Null => Json::Null,
        Layer::Bool(b) => Json::Bool(b),
        Layer::Number => Json::Number,
        Layer::Text(s) => Json::Text(s),
        Layer::List(a) => {
            let mut rest = a;
            let mut out: Vec<Json> = Vec::new();
            let ghost all = a@;
            while rest.len() > 0
                invariant
                    t == json_content(v),
                    t matches JsonTree::List(l) && l.len() == all.len() && forall|i: int|
                        0 <= i < l.len() ==> json_content(#[trigger] all[i]) == l[i],
                    out@.len() + rest@.len() == all.len(),
                    rest@ == all.skip(out@.len() as int),
                    forall|i: int| 0 <= i < out@.len() ==> (#[trigger] out@[i])@ == t->List_0[i],
                decreases rest@.len(),
            {
                let ghost k = out@.len() as int;
                assert(rest@[0] == all[k]);
                let first = rest.remove(0);
                assert(json_content(first) == t->List_0[k]);
                assert(decreases_to!(t => t->List_0[k]));
                out.push(from_value(first));
                assert(rest@ =~= all.skip(k + 1));
            }
            let r = Json::List(out);
            assert(tree(r)->List_0 =~= t->List_0);
            r
        },
        Layer::Object(m) => {
            let mut rest = m;
            let mut out: Vec<(String, Json)> = Vec::new();
            let ghost all = m@;
            while rest.len() > 0
                invariant
                    t == json_content(v),
                    t matches JsonTree::Object(o) && o.len() == all.len() && forall|i: int|
                        0 <= i < o.len() ==> (#[trigger] all[i]).0@ == o[i].0 && json_content(
                            all[i].1,
                        ) == o[i].1,
                    out@.len() + rest@.len() == all.len(),
                    rest@ == all.skip(out@.len() as int),
                    forall|i: int|
                        0 <= i < out@.len() ==> (#[trigger] out@[i]).0@ == t->Object_0[i].0
                            && out@[i].1@ == t->Object_0[i].1,
                decreases rest@.len(),
            {
                let ghost k = out@.len() as int;
                assert(rest@[0] == all[k]);
                let (key, value) = rest.remove(0);
                assert(json_content(value) == t->Object_0[k].1);
                assert(decreases_to!(t => t->Object_0[k].1));
                out.push((key, from_value(value)));
                assert(rest@ =~= all.skip(k + 1));
            }
            let r = Json::Object(out);
            assert(tree(r)->Object_0 =~= t->Object_0);
            r
        },
    }
}

/// Parses a JSON document. `None` where the text is not one.
pub fn parse(s: &str) -> (r: Option<Json>)
    ensures
        table::opt_row(r) == json_parsed(s@),
{
    match parse_value(s) {
        Some(v) => Some(from_value(v)),
        None => None,
    }
}

/// The members with the given key.
pub open spec fn has_key(key: Seq<char>) -> spec_fn((Seq<char>, JsonTree)) -> bool {
    |p: (Seq<char>, JsonTree)| p.0 == key
}

/// The member of an object with the given key.
pub open spec fn field(t: JsonTree, key: Seq<char>) -> Option<JsonTree> {
    match t {
        JsonTree::Object(o) => match table::first_of(o, has_key(key)) {
            Some(p) => Some(p.1),
            None => None,
        },
        _ => None,
    }
}

/// The text of a value that is one.
pub open spec fn as_text(t: JsonTree) -> Option<Seq<char>> {
    match t {
        JsonTree::Text(s) => Some(s),
        _ => None,
    }
}

/// The text of an optional value that is one.
pub open spec fn opt_as_text(t: Option<JsonTree>) -> Option<Seq<char>> {
    match t {
        Some(v) => as_text(v),
        None => None,
    }
}

impl Json {
    /// The member of an object with the given key; `None` of anything else.
    pub fn get(&self, key: &str) -> (r: Option<&Json>)
        ensures
            match r {
                Some(j) => field(self@, key@) == Some(j@),
                None => field(self@, key@) is None,
            },
    {
        match self {
            Json::Object(v) => {
                let ghost o = tree(*self)->Object_0;
                let ghost p = has_key(key@);
                let mut i: usize = 0;
                while i < v.len()
                    invariant
                        i <= v.len(),
                        *self == Json::Object(*v),
                        o == tree(*self)->Object_0,
                        tree(*self) is Object,
                        p == has_key(key@),
                        forall|j: int| 0 <= j < i ==> !p(#[trigger] o[j]),
                    decreases v.len() - i,
                {
                    assert(o[i as int] == (v@[i as int].0@, tree(v@[i as int].1)));
                    if text::str_eq(v[i].0.as_str(), key) {
                        proof {
                            table::lemma_first_of(o, p, i as int);
                        }
                        return Some(&v[i].1);
                    }
                    i = i + 1;
                }
                proof {
                    table::lemma_filter_empty(o, p);
                }
                None
            },
            _ => None,
        }
    }

    /// The text of a value that is one.
    pub fn as_str(&self) -> (r: Option<&str>)
        ensures
            text::opt_str(r) == as_text(self@),
    {
        match self {
            Json::Text(s) => Some(s.as_str()),
            _ => None,
        }
    }

    /// The truth value of a value that is one.
    pub fn as_bool(&self) -> (r: Option<bool>)
        ensures
            r == match self@ {
                JsonTree::Bool(b) => Some(b),
                _ => None,
            },
    {
        match self {
            Json::Bool(b) => Some(*b),
            _ => None,
        }
    }
}

/// How a character stands in a JSON string.
pub open spec fn escaped(c: char) -> Seq<char> {
    if c == '"' || c == '\\' {
        seq!['\\', c]
    } else if c == '\u{8}' {
        seq!['\\', 'b']
    } else if c == '\t' {
        seq!['\\', 't']
    } else if c == '\n' {
        seq!['\\', 'n']
    } else if c == '\u{c}' {
        seq!['\\', 'f']
    } else if c == '\r' {
        seq!['\\', 'r']
    } else if (c as int) < 32 {
        seq!['\\', 'u', '0', '0', codec::hex_digit(c as int / 16), codec::hex_digit(c as int % 16)]
    } else {
        seq![c]
    }
}

/// The characters of `s` as they stand in a JSON string.
pub open spec fn escaped_text(s: Seq<char>) -> Seq<char>
    decreases s.len(),
{
    if s.len() == 0 {
        Seq::empty()
    } else {
        escaped_text(s.drop_last()) + escaped(s.last())
    }
}

/// `s` as a JSON string.
pub open spec fn quoted(s: Seq<char>) -> Seq<char> {
    seq!['"'] + escaped_text(s) + seq!['"']
}

/// `serde_json::to_string` of a string: the string in quotation marks, with quotation marks,
/// backslashes and control characters escaped. Writing a string to memory does not fail.
#[verifier::external_body]
pub(crate) fn quote(s: &str) -> (r: String)
    ensures
        r@ == quoted(s@),
{
    serde_json::to_string(s).unwrap()
}

/// What bytes that parse as JSON are in the most compact form.
pub uninterp spec fn json_compact(b: Seq<u8>) -> Option<Seq<char>>;

/// `serde_json::from_slice` to a `serde_json::Value`, which its `Display` writes out: whether the
/// bytes parse, and what is written then, is a function of the bytes. The compact form stands on one
/// line.
#[verifier::external_body]
pub(crate) fn compact(b: &[u8]) -> (r: Option<String>)
    ensures
        text::opt_text(r) == json_compact(b@),
        r matches Some(t) ==> !t@.contains('\n'),
{
    serde_json::from_slice::<serde_json::Value>(b).ok().map(|v| v.to_string())
}

/// A quoted string holds no line end, whatever the string holds.
pub proof fn law_quoted_is_one_line(s: Seq<char>)
    ensures
        !quoted(s).contains('\n'),
{
    lemma_escaped_text(s);
    let q = quoted(s);
    assert forall|i: int| 0 <= i < q.len() implies q[i] != '\n' by {
        if 0 < i < q.len() - 1 {
            assert(q[i] == escaped_text(s)[i - 1]);
        }
    }
}

proof fn lemma_escaped(c: char)
    ensures
        forall|i: int| 0 <= i < escaped(c).len() ==> #[trigger] escaped(c)[i] != '\n',
{
    let n = c as int;
    if n < 32 {
        assert(codec::hex_digit(n / 16) != '\n');
        assert(codec::hex_digit(n % 16) != '\n');
    }
}

proof fn lemma_escaped_text(s: Seq<char>)
    ensures
        forall|i: int| 0 <= i < escaped_text(s).len() ==> #[trigger] escaped_text(s)[i] != '\n',
    decreases s.len(),
{
    if s.len() > 0 {
        lemma_escaped_text(s.drop_last());
        let e = escaped(s.last());
        lemma_escaped(s.last());
        let head = escaped_text(s.drop_last());
        assert forall|i: int| 0 <= i < escaped_text(s).len() implies #[trigger] escaped_text(s)[i]
            != '\n' by {
            if i < head.len() {
                assert(escaped_text(s)[i] == head[i]);
            } else {
                assert(escaped_text(s)[i] == e[i - head.len()]);
            }
        }
    }
}

/// A member of an object is found by its key, the first where there are several; there is none where no
/// member has the key, and in what is no object.
pub proof fn law_member_is_found(members: Seq<(Seq<char>, JsonTree)>, key: Seq<char>, i: int)
    requires
        0 <= i < members.len(),
        forall|j: int| 0 <= j < i ==> (#[trigger] members[j]).0 != key,
    ensures
        members[i].0 == key ==> field(JsonTree::Object(members), key) == Some(members[i].1),
        i == members.len() - 1 && members[i].0 != key ==> field(JsonTree::Object(members), key) is None,
{
    let p = has_key(key);
    if members[i].0 == key {
        table::lemma_first_of(members, p, i);
    } else if i == members.len() - 1 {
        table::lemma_filter_empty(members, p);
    }
}

} // verus!
