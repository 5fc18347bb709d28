//! JSON values as the tool views read them.

use vstd::prelude::*;

use crate::pieces::{join, joined};
use crate::text::{opt_text, same_text, texts};

verus! {

// ---------------------------------------------------------------------------
// The model
// ---------------------------------------------------------------------------

/// A JSON number: the text it is written as, its value where it is an
/// unsigned integer, and the shortest text of its floating-point value.
pub struct JsonNumber {
    pub text: String,
    pub unsigned: Option<u64>,
    pub float_text: Option<String>,
}

/// A JSON value. An object holds its members in the order of its keys.
pub enum Json {
    Null,
    Bool(bool),
    Number(JsonNumber),
    Text(String),
    Array(Vec<Json>),
    Object(Vec<(String, Json)>),
}

/// What a JSON value holds.
#[verifier::ext_equal]
pub enum JsonTree {
    Null,
    Bool(bool),
    Number { text: Seq<char>, unsigned: Option<u64>, float_text: Option<Seq<char>> },
    Text(Seq<char>),
    Array(Seq<JsonTree>),
    Object(Seq<(Seq<char>, JsonTree)>),
}

impl JsonNumber {
    /// What the number holds.
    pub open spec fn tree(self) -> JsonTree {
        JsonTree::Number {
            text: self.text@,
            unsigned: self.unsigned,
            float_text: opt_text(self.float_text),
        }
    }
}

impl Json {
    /// What the value holds.
    pub open spec fn tree(self) -> JsonTree
        decreases self,
    {
        match self {
            Json::Null => JsonTree::Null,
            Json::Bool(b) => JsonTree::Bool(b),
            Json::Number(n) => n.tree(),
            Json::Text(s) => JsonTree::Text(s@),
            Json::Array(v) => JsonTree::Array(
                Seq::new(
                    v@.len(),
                    |i: int|
                        if 0 <= i < v@.len() {
                            v@[i].tree()
                        } else {
                            JsonTree::Null
                        },
                ),
            ),
            Json::Object(v) => JsonTree::Object(
                Seq::new(
                    v@.len(),
                    |i: int|
                        if 0 <= i < v@.len() {
                            (v@[i].0@, v@[i].1.tree())
                        } else {
                            (Seq::empty(), JsonTree::Null)
                        },
                ),
            ),
        }
    }
}

// ---------------------------------------------------------------------------
// Looking inside
// ---------------------------------------------------------------------------

/// The value of the first member with the key `key`.
pub open spec fn member_of(members: Seq<(Seq<char>, JsonTree)>, key: Seq<char>) -> Option<JsonTree>
    decreases members.len(),
{
    if members.len() == 0 {
        None
    } else if members[0].0 == key {
        Some(members[0].1)
    } else {
        member_of(members.drop_first(), key)
    }
}

impl JsonTree {
    /// The member of an object with the given key.
    pub open spec fn get(self, key: Seq<char>) -> Option<JsonTree> {
        match self {
            JsonTree::Object(m) => member_of(m, key),
            _ => None,
        }
    }

    /// The member with the given key, where it is a text.
    pub open spec fn text_at(self, key: Seq<char>) -> Option<Seq<char>> {
        match self.get(key) {
            Some(JsonTree::Text(s)) => Some(s),
            _ => None,
        }
    }

    /// The member with the given key, where it is an unsigned integer.
    pub open spec fn unsigned_at(self, key: Seq<char>) -> Option<u64> {
        match self.get(key) {
            Some(JsonTree::Number { unsigned, .. }) => unsigned,
            _ => None,
        }
    }

    /// The text of the member with the given key, where it is a number with a
    /// floating-point value.
    pub open spec fn float_text_at(self, key: Seq<char>) -> Option<Seq<char>> {
        match self.get(key) {
            Some(JsonTree::Number { float_text, .. }) => float_text,
            _ => None,
        }
    }

    /// The member with the given key, where it is a truth value.
    pub open spec fn bool_at(self, key: Seq<char>) -> Option<bool> {
        match self.get(key) {
            Some(JsonTree::Bool(b)) => Some(b),
            _ => None,
        }
    }

    /// The member with the given key, where it is an array.
    pub open spec fn items_at(self, key: Seq<char>) -> Option<Seq<JsonTree>> {
        match self.get(key) {
            Some(JsonTree::Array(v)) => Some(v),
            _ => None,
        }
    }

    /// The text that stands for the value in a list of keys and values.
    pub open spec fn shown(self) -> Seq<char>
        decreases self,
    {
        match self {
            JsonTree::Null => "null"@,
            JsonTree::Bool(b) => if b {
                "true"@
            } else {
                "false"@
            },
            JsonTree::Number { text, .. } => text,
            JsonTree::Text(s) => s,
            JsonTree::Array(v) => "["@ + join(shown_items(v), ", "@) + "]"@,
            JsonTree::Object(m) => "{"@ + join(shown_members(m), ", "@) + "}"@,
        }
    }
}

/// The texts that stand for the values of a list.
pub open spec fn shown_items(v: Seq<JsonTree>) -> Seq<Seq<char>>
    decreases v,
{
    Seq::new(
        v.len(),
        |i: int|
            if 0 <= i < v.len() {
                v[i].shown()
            } else {
                Seq::empty()
            },
    )
}

/// The texts `key: value` of the members of an object.
pub open spec fn shown_members(m: Seq<(Seq<char>, JsonTree)>) -> Seq<Seq<char>>
    decreases m,
{
    Seq::new(
        m.len(),
        |i: int|
            if 0 <= i < m.len() {
                m[i].0 + ": "@ + m[i].1.shown()
            } else {
                Seq::empty()
            },
    )
}

impl Json {
    /// The member of an object with the given key.
    pub fn get(&self, key: &str) -> (r: Option<&Json>)
        ensures
            match r {
                Some(j) => self.tree().get(key@) == Some(j.tree()),
                None => self.tree().get(key@) is None,
            },
    {
        match self {
            Json::Object(members) => {
                let ghost all = self.tree()->Object_0;
                let mut i: usize = 0;
                assert(all.skip(0) =~= all);
                while i < members.len()
                    invariant
                        *self == Json::Object(*members),
                        all == self.tree()->Object_0,
                        i <= members@.len(),
                        member_of(all, key@) == member_of(all.skip(i as int), key@),
                    decreases members.len() - i,
                {
                    assert(all[i as int] == (members@[i as int].0@, members@[i as int].1.tree()));
                    assert(all.skip(i as int)[0] == all[i as int]);
                    assert(all.skip(i as int).drop_first() =~= all.skip(i + 1));
                    if same_text(members[i].0.as_str(), key) {
                        return Some(&members[i].1);
                    }
                    i += 1;
                }
                None
            },
            _ => None,
        }
    }

    /// The member with the given key, where it is a text.
    pub fn text_at(&self, key: &str) -> (r: Option<&String>)
        ensures
            match r {
                Some(s) => self.tree().text_at(key@) == Some(s@),
                None => self.tree().text_at(key@) is None,
            },
    {
        match self.get(key) {
            Some(Json::Text(s)) => Some(s),
            _ => None,
        }
    }

    /// The member with the given key, where it is an unsigned integer.
    pub fn unsigned_at(&self, key: &str) -> (r: Option<u64>)
        ensures
            r == self.tree().unsigned_at(key@),
    {
        match self.get(key) {
            Some(Json::Number(n)) => n.unsigned,
            _ => None,
        }
    }

    /// The text of the member with the given key, where it is a number with a
    /// floating-point value.
    pub fn float_text_at(&self, key: &str) -> (r: Option<String>)
        ensures
            opt_text(r) == self.tree().float_text_at(key@),
    {
        match self.get(key) {
            Some(Json::Number(n)) => crate::text::copy_opt(&n.float_text),
            _ => None,
        }
    }

    /// The member with the given key, where it is a truth value.
    pub fn bool_at(&self, key: &str) -> (r: Option<bool>)
        ensures
            r == self.tree().bool_at(key@),
    {
        match self.get(key) {
            Some(Json::Bool(b)) => Some(*b),
            _ => None,
        }
    }

    /// The member with the given key, where it is an array.
    pub fn items_at(&self, key: &str) -> (r: Option<&Vec<Json>>)
        ensures
            match r {
                Some(v) => self.tree().items_at(key@) == Some(trees(v@)),
                None => self.tree().items_at(key@) is None,
            },
    {
        match self.get(key) {
            Some(Json::Array(v)) => {
                proof {
                    let got = self.tree().get(key@)->Some_0;
                    assert(got->Array_0 =~= trees(v@));
                }
                Some(v)
            },
            _ => None,
        }
    }
}

/// What the values of a list hold.
pub open spec fn trees(v: Seq<Json>) -> Seq<JsonTree> {
    Seq::new(v.len(), |i: int| v[i].tree())
}

/// Convert a JSON value to a display string.
pub fn json_value_to_string(value: &Json) -> (r: String)
    ensures
        r@ == value.tree().shown(),
    decreases value,
{
    match value {
        Json::Null => "null".to_owned(),
        Json::Bool(b) => if *b {
            "true".to_owned()
        } else {
            "false".to_owned()
        },
        Json::Number(n) => n.text.clone(),
        Json::Text(s) => s.clone(),
        Json::Array(v) => {
            let ghost tree = value.tree()->Array_0;
            let mut items: Vec<String> = Vec::new();
            let mut i: usize = 0;
            while i < v.len()
                invariant
                    *value == Json::Array(*v),
                    tree == value.tree()->Array_0,
                    i <= v@.len(),
                    items@.len() == i,
                    forall|k: int| 0 <= k < i ==> (#[trigger] items@[k])@ == tree[k].shown(),
                decreases v.len() - i,
            {
                assert(decreases_to!(*value => v@[i as int]));
                items.push(json_value_to_string(&v[i]));
                i += 1;
            }
            let mut r = "[".to_owned();
            r.append(joined(&items, ", ").as_str());
            r.append("]");
            assert(texts(items@) =~= shown_items(tree));
            r
        },
        Json::Object(v) => {
            let ghost tree = value.tree()->Object_0;
            let mut pairs: Vec<String> = Vec::new();
            let mut i: usize = 0;
            while i < v.len()
                invariant
                    *value == Json::Object(*v),
                    tree == value.tree()->Object_0,
                    i <= v@.len(),
                    pairs@.len() == i,
                    forall|k: int|
                        0 <= k < i ==> (#[trigger] pairs@[k])@ == tree[k].0 + ": "@
                            + tree[k].1.shown(),
                decreases v.len() - i,
            {
                assert(decreases_to!(*value => v@[i as int].1));
                let mut pair = v[i].0.clone();
                pair.append(": ");
                pair.append(json_value_to_string(&v[i].1).as_str());
                pairs.push(pair);
                i += 1;
            }
            let mut r = "{".to_owned();
            r.append(joined(&pairs, ", ").as_str());
            r.append("}");
            assert(texts(pairs@) =~= shown_members(tree));
            r
        },
    }
}

// ---------------------------------------------------------------------------
// Reading a text
// ---------------------------------------------------------------------------

/// `serde_json::Value`: a parsed JSON document.
#[verifier::external_type_specification]
#[verifier::external_body]
pub struct ExValue(serde_json::Value);

/// What a `serde_json::Value` holds.
pub uninterp spec fn value_tree(v: serde_json::Value) -> JsonTree;

/// What `serde_json::from_str` makes of a text when it is asked for a
/// `serde_json::Value`; `None` stands for its error.
pub uninterp spec fn parsed_json(s: Seq<char>) -> Option<JsonTree>;

/// One level of a parsed document: the variant of a `serde_json::Value`, with
/// the nested values left as they are.
pub enum JsonNode {
    Null,
    Bool(bool),
    Number(JsonNumber),
    Text(String),
    Array(Vec<serde_json::Value>),
    Object(Vec<(String, serde_json::Value)>),
}

impl JsonNode {
    /// What the value holds that was opened.
    pub open spec fn tree(self) -> JsonTree {
        match self {
            JsonNode::Null => JsonTree::Null,
            JsonNode::Bool(b) => JsonTree::Bool(b),
            JsonNode::Number(n) => n.tree(),
            JsonNode::Text(s) => JsonTree::Text(s@),
            JsonNode::Array(v) => JsonTree::Array(Seq::new(v@.len(), |i: int| value_tree(v@[i]))),
            JsonNode::Object(v) => JsonTree::Object(
                Seq::new(v@.len(), |i: int| (v@[i].0@, value_tree(v@[i].1))),
            ),
        }
    }
}

/// Calls `serde_json::from_str` for a `serde_json::Value`. The contract names
/// what the call makes of the text; that the text is no JSON document is
/// reported as `None`.
#[verifier::external_body]
fn parse_value(text: &str) -> (r: Option<serde_json::Value>)
    ensures
        match r {
            Some(v) => parsed_json(text@) == Some(value_tree(v)),
            None => parsed_json(text@) is None,
        },
{
    serde_json::from_str::<serde_json::Value>(text).ok()
}

/// Takes a `serde_json::Value` apart by its variants. A number is handed out
/// as its `Display` text, its `as_u64` and the `Display` text of its `as_f64`;
/// the members of an object come in the order in which its map yields them.
/// The contract says that the parts hold what the value held.
#[verifier::external_body]
fn open_value(v: serde_json::Value) -> (r: JsonNode)
    ensures
        r.tree() == value_tree(v),
{
    match v {
        serde_json::Value::Null => JsonNode::Null,
        serde_json::Value::Bool(b) => JsonNode::Bool(b),
        serde_json::Value::Number(n) => JsonNode::Number(
            JsonNumber {
                text: n.to_string(),
                unsigned: n.as_u64(),
                float_text: n.as_f64().map(|x| x.to_string()),
            },
        ),
        serde_json::Value::String(s) => JsonNode::Text(s),
        serde_json::Value::Array(a) => JsonNode::Array(a),
        serde_json::Value::Object(m) => JsonNode::Object(m.into_iter().collect()),
    }
}

/// The library's value for a parsed document.
fn json_of(v: serde_json::Value) -> (r: Json)
    ensures
        r.tree() == value_tree(v),
    decreases value_tree(v),
{
    let ghost whole = value_tree(v);
    match open_value(v) {
        JsonNode::Null => Json::Null,
        JsonNode::Bool(b) => Json::Bool(b),
        JsonNode::Number(n) => Json::Number(n),
        JsonNode::Text(s) => Json::Text(s),
        JsonNode::Array(items) => {
            let ghost all = items@;
            let mut out: Vec<Json> = Vec::new();
            for x in it: items
                invariant
                    whole == value_tree(v),
                    whole == JsonNode::Array(items).tree(),
                    all == items@,
                    it.seq() == all,
                    out@.len() == it.index(),
                    forall|i: int| 0 <= i < out@.len() ==> (#[trigger] out@[i]).tree() == value_tree(all[i]),
            {
                assert(x == all[out@.len() as int]);
                assert(whole->Array_0[out@.len() as int] == value_tree(x));
                out.push(json_of(x));
            }
            let r = Json::Array(out);
            assert(r.tree()->Array_0 =~= whole->Array_0);
            r
        },
        JsonNode::Object(items) => {
            let ghost all = items@;
            let mut out: Vec<(String, Json)> = Vec::new();
            for x in it: items
                invariant
                    whole == value_tree(v),
                    whole == JsonNode::Object(items).tree(),
                    all == items@,
                    it.seq() == all,
                    out@.len() == it.index(),
                    forall|i: int|
                        0 <= i < out@.len() ==> (#[trigger] out@[i]).0@ == all[i].0@
                            && out@[i].1.tree() == value_tree(all[i].1),
            {
                assert(x == all[out@.len() as int]);
                assert(whole->Object_0[out@.len() as int].1 == value_tree(x.1));
                out.push((x.0, json_of(x.1)));
            }
            let r = Json::Object(out);
            assert(r.tree()->Object_0 =~= whole->Object_0);
            r
        },
    }
}

/// Reads a JSON document.
pub fn read_json(text: &str) -> (r: Option<Json>)
    ensures
        match r {
            Some(j) => parsed_json(text@) == Some(j.tree()),
            None => parsed_json(text@) is None,
        },
{
    match parse_value(text) {
        Some(v) => Some(json_of(v)),
        None => None,
    }
}

} // verus!
