//! JSON values as trees: the mathematical model, an owned tree for the data a
//! license carries with deep equality on it, and the few accessors through
//! which parsed `serde_json` values are read.

use serde_json::Value;
use vstd::prelude::*;

verus! {

/// A JSON value as a mathematical tree.
///
/// A number is held as the decimal text in which `serde_json` writes it out,
/// an object as its members in the order in which `serde_json` walks them.
pub enum JsonTree {
    /// `null`.
    Null,
    /// `true` or `false`.
    Bool(bool),
    /// A number, as its decimal text.
    Number(Seq<char>),
    /// A string, as its characters.
    Text(Seq<char>),
    /// An array, as its items in order.
    Array(Seq<JsonTree>),
    /// An object, as its members in order: key and value.
    Object(Seq<(Seq<char>, JsonTree)>),
}

/// The member of an object that goes by `key`: the first one in order.
/// `None` where there is none, or where `tree` is no object.
pub open spec fn member(tree: JsonTree, key: Seq<char>) -> Option<JsonTree> {
    match tree {
        JsonTree::Object(members) => lookup(members, key),
        _ => None,
    }
}

/// The value of the first pair in `members` whose key is `key`.
pub open spec fn lookup(members: Seq<(Seq<char>, JsonTree)>, key: Seq<char>) -> Option<JsonTree>
    decreases members.len(),
{
    if members.len() == 0 {
        None
    } else if members[0].0 == key {
        Some(members[0].1)
    } else {
        lookup(members.drop_first(), key)
    }
}

/// The characters of a JSON string; `None` for every other kind of value.
pub open spec fn text(tree: JsonTree) -> Option<Seq<char>> {
    match tree {
        JsonTree::Text(chars) => Some(chars),
        _ => None,
    }
}

/// An owned JSON value, held in plain data.
#[derive(Debug)]
pub enum Json {
    /// `null`.
    Null,
    /// `true` or `false`.
    Bool(bool),
    /// A number, as its decimal text.
    Number(String),
    /// A string.
    Text(String),
    /// An array, as its items in order.
    Array(Vec<Json>),
    /// An object, as its members in order: key and value.
    Object(Vec<(String, Json)>),
}

/// The trees of a sequence of owned values, item by item.
pub open spec fn trees(items: Seq<Json>) -> Seq<JsonTree>
    decreases items,
{
    Seq::new(
        items.len(),
        |i: int|
            if 0 <= i < items.len() {
                items[i].view()
            } else {
                JsonTree::Null
            },
    )
}

/// The members of an owned object as pairs of key and tree, in order.
pub open spec fn member_trees(members: Seq<(String, Json)>) -> Seq<(Seq<char>, JsonTree)>
    decreases members,
{
    Seq::new(
        members.len(),
        |i: int|
            if 0 <= i < members.len() {
                (members[i].0@, members[i].1.view())
            } else {
                (Seq::empty(), JsonTree::Null)
            },
    )
}

impl View for Json {
    type V = JsonTree;

    open spec fn view(&self) -> JsonTree
        decreases self,
    {
        match self {
            Json::Null => JsonTree::Null,
            Json::Bool(b) => JsonTree::Bool(*b),
            Json::Number(digits) => JsonTree::Number(digits@),
            Json::Text(chars) => JsonTree::Text(chars@),
            Json::Array(items) => JsonTree::Array(trees(items@)),
            Json::Object(members) => JsonTree::Object(member_trees(members@)),
        }
    }
}

impl Json {
    /// Deep equality: the two values are the same tree.
    pub fn same_as(&self, other: &Json) -> (same: bool)
        ensures
            same == (self@ == other@),
        decreases self, 1int,
    {
        match self {
            Json::Null => match other {
                Json::Null => true,
                _ => false,
            },
            Json::Bool(a) => match other {
                Json::Bool(b) => *a == *b,
                _ => false,
            },
            Json::Number(a) => match other {
                Json::Number(b) => *a == *b,
                _ => false,
            },
            Json::Text(a) => match other {
                Json::Text(b) => *a == *b,
                _ => false,
            },
            Json::Array(a) => match other {
                Json::Array(b) => same_items(a, b),
                _ => false,
            },
            Json::Object(a) => match other {
                Json::Object(b) => same_members(a, b),
                _ => false,
            },
        }
    }
}

impl PartialEq for Json {
    fn eq(&self, other: &Json) -> (same: bool) {
        self.same_as(other)
    }
}

impl vstd::std_specs::cmp::PartialEqSpecImpl for Json {
    open spec fn obeys_eq_spec() -> bool {
        true
    }

    open spec fn eq_spec(&self, other: &Json) -> bool {
        self@ == other@
    }
}

impl Clone for Json {
    /// A deep copy: the same tree in fresh storage.
    fn clone(&self) -> (copy: Json)
        ensures
            copy@ == self@,
        decreases self, 1int,
    {
        match self {
            Json::Null => Json::Null,
            Json::Bool(b) => Json::Bool(*b),
            Json::Number(digits) => Json::Number(digits.clone()),
            Json::Text(chars) => Json::Text(chars.clone()),
            Json::Array(items) => Json::Array(copy_items(items)),
            Json::Object(members) => Json::Object(copy_members(members)),
        }
    }
}

/// A deep copy of an array's items.
fn copy_items(items: &Vec<Json>) -> (copy: Vec<Json>)
    ensures
        trees(copy@) == trees(items@),
    decreases items, 0int,
{
    let mut copy: Vec<Json> = Vec::new();
    let mut i: usize = 0;
    while i < items.len()
        invariant
            i <= items.len(),
            copy.len() == i,
            forall|k: int| 0 <= k < i ==> copy@[k]@ == items@[k]@,
        decreases items.len() - i,
    {
        copy.push(items[i].clone());
        i += 1;
    }
    assert(trees(copy@) =~= trees(items@));
    copy
}

/// A deep copy of an object's members.
fn copy_members(members: &Vec<(String, Json)>) -> (copy: Vec<(String, Json)>)
    ensures
        member_trees(copy@) == member_trees(members@),
    decreases members, 0int,
{
    let mut copy: Vec<(String, Json)> = Vec::new();
    let mut i: usize = 0;
    while i < members.len()
        invariant
            i <= members.len(),
            copy.len() == i,
            forall|k: int|
                0 <= k < i ==> copy@[k].0@ == members@[k].0@ && copy@[k].1@ == members@[k].1@,
        decreases members.len() - i,
    {
        copy.push((members[i].0.clone(), members[i].1.clone()));
        i += 1;
    }
    assert(member_trees(copy@) =~= member_trees(members@));
    copy
}

/// Whether two arrays hold the same trees in the same order.
fn same_items(a: &Vec<Json>, b: &Vec<Json>) -> (same: bool)
    ensures
        same == (trees(a@) == trees(b@)),
    decreases a, 0int,
{
    if a.len() != b.len() {
        assert(trees(a@).len() != trees(b@).len());
        return false;
    }
    let mut i: usize = 0;
    while i < a.len()
        invariant
            i <= a.len(),
            a.len() == b.len(),
            forall|k: int| 0 <= k < i ==> trees(a@)[k] == trees(b@)[k],
        decreases a.len() - i,
    {
        if !a[i].same_as(&b[i]) {
            assert(trees(a@)[i as int] != trees(b@)[i as int]);
            return false;
        }
        i += 1;
    }
    assert(trees(a@) =~= trees(b@));
    true
}

/// Whether two objects hold the same members in the same order.
fn same_members(a: &Vec<(String, Json)>, b: &Vec<(String, Json)>) -> (same: bool)
    ensures
        same == (member_trees(a@) == member_trees(b@)),
    decreases a, 0int,
{
    if a.len() != b.len() {
        assert(member_trees(a@).len() != member_trees(b@).len());
        return false;
    }
    let mut i: usize = 0;
    while i < a.len()
        invariant
            i <= a.len(),
            a.len() == b.len(),
            forall|k: int| 0 <= k < i ==> member_trees(a@)[k] == member_trees(b@)[k],
        decreases a.len() - i,
    {
        if !(a[i].0 == b[i].0) || !a[i].1.same_as(&b[i].1) {
            assert(member_trees(a@)[i as int] != member_trees(b@)[i as int]);
            return false;
        }
        i += 1;
    }
    assert(member_trees(a@) =~= member_trees(b@));
    true
}

/// A parsed JSON value of `serde_json`, carried as it is.
#[verifier::external_type_specification]
#[verifier::external_body]
pub struct ExValue(serde_json::Value);

/// The tree that a parsed value holds.
pub uninterp spec fn json_of(value: serde_json::Value) -> JsonTree;

/// What `serde_json::from_slice` makes of a byte string: the tree of the
/// value it parses to, `None` where it reports an error.
pub uninterp spec fn json_from_bytes(bytes: Seq<u8>) -> Option<JsonTree>;

/// The trees that a sequence of parsed values holds, item by item.
pub open spec fn trees_of(items: Seq<Value>) -> Seq<JsonTree> {
    Seq::new(items.len(), |i: int| json_of(items[i]))
}

/// The members that a sequence of parsed entries holds, as pairs of key and
/// tree.
pub open spec fn members_of<'a>(entries: Seq<(&'a String, &'a Value)>) -> Seq<
    (Seq<char>, JsonTree),
> {
    Seq::new(entries.len(), |i: int| (entries[i].0@, json_of(*entries[i].1)))
}

/// `Value::get` with a string index: the member of an object that goes by
/// `key`, `None` where the object has none or the value is no object.
#[verifier::external_body]
pub(crate) fn json_member<'a>(value: &'a Value, key: &str) -> (found: Option<&'a Value>)
    ensures
        match found {
            Some(m) => member(json_of(*value), key@) == Some(json_of(*m)),
            None => member(json_of(*value), key@) is None,
        },
{
    value.get(key)
}

/// `Value::as_str`: the characters of a JSON string, `None` for a value of
/// any other kind.
#[verifier::external_body]
pub(crate) fn json_text<'a>(value: &'a Value) -> (chars: Option<&'a str>)
    ensures
        match chars {
            Some(s) => json_of(*value) == JsonTree::Text(s@),
            None => !(json_of(*value) is Text),
        },
{
    value.as_str()
}

/// `Value::as_bool`: the truth value of a JSON boolean, `None` for a value of
/// any other kind.
#[verifier::external_body]
pub(crate) fn json_bool(value: &Value) -> (truth: Option<bool>)
    ensures
        match truth {
            Some(b) => json_of(*value) == JsonTree::Bool(b),
            None => !(json_of(*value) is Bool),
        },
{
    value.as_bool()
}

/// `Value::as_number`, with the number written out by its `Display`: the
/// decimal text of a JSON number, `None` for a value of any other kind.
#[verifier::external_body]
pub(crate) fn json_number(value: &Value) -> (digits: Option<String>)
    ensures
        match digits {
            Some(d) => json_of(*value) == JsonTree::Number(d@),
            None => !(json_of(*value) is Number),
        },
{
    value.as_number().map(|number| number.to_string())
}

/// `Value::as_array`: the items of a JSON array, `None` for a value of any
/// other kind.
#[verifier::external_body]
pub(crate) fn json_items<'a>(value: &'a Value) -> (items: Option<&'a Vec<Value>>)
    ensures
        match items {
            Some(v) => json_of(*value) == JsonTree::Array(trees_of(v@)),
            None => !(json_of(*value) is Array),
        },
{
    value.as_array()
}

/// `Value::as_object`, with the entries handed out by `Map::iter`: the
/// members of a JSON object in the order of the walk, `None` for a value of
/// any other kind.
#[verifier::external_body]
pub(crate) fn json_members<'a>(value: &'a Value) -> (members: Option<Vec<(&'a String, &'a Value)>>)
    ensures
        match members {
            Some(v) => json_of(*value) == JsonTree::Object(members_of(v@)),
            None => !(json_of(*value) is Object),
        },
{
    value.as_object().map(|map| map.iter().collect())
}

/// Copies a parsed value into an owned tree.
pub fn json_tree(value: &Value) -> (tree: Json)
    ensures
        tree@ == json_of(*value),
    decreases json_of(*value), 1int,
{
    if let Some(truth) = json_bool(value) {
        Json::Bool(truth)
    } else if let Some(digits) = json_number(value) {
        Json::Number(digits)
    } else if let Some(chars) = json_text(value) {
        Json::Text(chars.to_owned())
    } else if let Some(items) = json_items(value) {
        Json::Array(item_trees(items))
    } else if let Some(members) = json_members(value) {
        Json::Object(entry_trees(&members))
    } else {
        // a value of none of the five other kinds is `null`
        Json::Null
    }
}

/// Copies the items of a parsed array into owned trees.
fn item_trees(items: &Vec<Value>) -> (copy: Vec<Json>)
    ensures
        trees(copy@) == trees_of(items@),
    decreases JsonTree::Array(trees_of(items@)), 0int,
{
    let mut copy: Vec<Json> = Vec::new();
    let mut i: usize = 0;
    while i < items.len()
        invariant
            i <= items.len(),
            copy.len() == i,
            forall|k: int| 0 <= k < i ==> copy@[k]@ == json_of(items@[k]),
        decreases items.len() - i,
    {
        proof {
            // the item's tree lies inside the array's tree
            let whole = JsonTree::Array(trees_of(items@));
            assert(decreases_to!(whole => whole->Array_0));
            assert(decreases_to!(trees_of(items@) => trees_of(items@)[i as int]));
        }
        copy.push(json_tree(&items[i]));
        i += 1;
    }
    assert(trees(copy@) =~= trees_of(items@));
    copy
}

/// Copies the members of a parsed object into owned pairs.
fn entry_trees(members: &Vec<(&String, &Value)>) -> (copy: Vec<(String, Json)>)
    ensures
        member_trees(copy@) == members_of(members@),
    decreases JsonTree::Object(members_of(members@)), 0int,
{
    let mut copy: Vec<(String, Json)> = Vec::new();
    let mut i: usize = 0;
    while i < members.len()
        invariant
            i <= members.len(),
            copy.len() == i,
            forall|k: int|
                0 <= k < i ==> copy@[k].0@ == members@[k].0@ && copy@[k].1@ == json_of(
                    *members@[k].1,
                ),
        decreases members.len() - i,
    {
        proof {
            // the member's tree lies inside the object's tree
            let whole = JsonTree::Object(members_of(members@));
            let pair = members_of(members@)[i as int];
            assert(decreases_to!(whole => whole->Object_0));
            assert(decreases_to!(members_of(members@) => pair));
            assert(decreases_to!(pair => pair.1));
        }
        let key: &String = members[i].0;
        copy.push((key.clone(), json_tree(members[i].1)));
        i += 1;
    }
    assert(member_trees(copy@) =~= members_of(members@));
    copy
}

/// `serde_json::from_slice` to a `Value`: the parsed value, `None` where the
/// bytes are no single JSON text.
#[verifier::external_body]
pub(crate) fn parse_json(bytes: &[u8]) -> (parsed: Option<Value>)
    ensures
        match parsed {
            Some(v) => json_from_bytes(bytes@) == Some(json_of(v)),
            None => json_from_bytes(bytes@) is None,
        },
{
    serde_json::from_slice::<Value>(bytes).ok()
}

} // verus!
