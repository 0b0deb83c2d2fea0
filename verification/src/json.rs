//! JSON values as plain trees, and the parser that yields them.
use crate::model::Duplicate;
use crate::text::same;
use vstd::prelude::*;

verus! {

/// A JSON value. A number is kept as its text.
#[derive(Debug, PartialEq)]
pub enum Json {
    Null,
    Bool(bool),
    Number(String),
    Text(String),
    Array(Vec<Json>),
    Object(Vec<(String, Json)>),
}

/// What a JSON value holds: the entries of an object stand in the order in which they are
/// walked.
pub enum JsonView {
    Null,
    Bool(bool),
    Number(Seq<char>),
    Text(Seq<char>),
    Array(Seq<JsonView>),
    Object(Seq<(Seq<char>, JsonView)>),
}

/// The tree of a JSON value.
pub open spec fn tree(j: Json) -> JsonView
    decreases j,
{
    match j {
        Json::Null => JsonView::Null,
        Json::Bool(b) => JsonView::Bool(b),
        Json::Number(n) => JsonView::Number(n@),
        Json::Text(t) => JsonView::Text(t@),
        Json::Array(items) => JsonView::Array(
            Seq::new(
                items@.len(),
                |i: int|
                    if 0 <= i < items@.len() {
                        tree(items@[i])
                    } else {
                        JsonView::Null
                    },
            ),
        ),
        Json::Object(entries) => JsonView::Object(
            Seq::new(
                entries@.len(),
                |i: int|
                    if 0 <= i < entries@.len() {
                        (entries@[i].0@, tree(entries@[i].1))
                    } else {
                        (seq![], JsonView::Null)
                    },
            ),
        ),
    }
}

impl DeepView for Json {
    type V = JsonView;

    open spec fn deep_view(&self) -> JsonView {
        tree(*self)
    }
}

/// A JSON value of `serde_json`.
#[verifier::external_type_specification]
#[verifier::external_body]
pub struct ExValue(serde_json::Value);

/// The tree that a value of `serde_json` holds.
pub uninterp spec fn value_tree(v: serde_json::Value) -> JsonView;

/// What `serde_json` reads from a text; `None` where it rejects the text.
pub uninterp spec fn parsed_json(text: Seq<char>) -> Option<JsonView>;

/// One level of a value: its children are still values of `serde_json`.
enum Node {
    Null,
    Bool(bool),
    Number(String),
    Text(String),
    Array(Vec<serde_json::Value>),
    Object(Vec<(String, serde_json::Value)>),
}

/// The tree of a value whose outermost level has been taken apart.
spec fn node_tree(n: Node) -> JsonView {
    match n {
        Node::Null => JsonView::Null,
        Node::Bool(b) => JsonView::Bool(b),
        Node::Number(t) => JsonView::Number(t@),
        Node::Text(t) => JsonView::Text(t@),
        Node::Array(items) => JsonView::Array(
            Seq::new(items@.len(), |i: int| value_tree(items@[i])),
        ),
        Node::Object(entries) => JsonView::Object(
            Seq::new(entries@.len(), |i: int| (entries@[i].0@, value_tree(entries@[i].1))),
        ),
    }
}

/// Takes the outermost level of a `serde_json::Value` apart, variant by variant. The claim:
/// the parts make up the tree that the value holds, an object's entries in the order of
/// `serde_json::Map::into_iter`.
#[verifier::external_body]
fn open_value(v: serde_json::Value) -> (n: Node)
    ensures
        node_tree(n) == value_tree(v),
{
    match v {
        serde_json::Value::Null => Node::Null,
        serde_json::Value::Bool(b) => Node::Bool(b),
        serde_json::Value::Number(n) => Node::Number(n.to_string()),
        serde_json::Value::String(t) => Node::Text(t),
        serde_json::Value::Array(items) => Node::Array(items),
        serde_json::Value::Object(map) => Node::Object(map.into_iter().collect()),
    }
}

/// Calls `serde_json::from_str` for a value. The claim: what it reads, or that it rejects
/// the text, depends on the text alone.
#[verifier::external_body]
fn read_value(text: &str) -> (r: Option<serde_json::Value>)
    ensures
        r is Some <==> parsed_json(text@) is Some,
        r matches Some(v) ==> parsed_json(text@) == Some(value_tree(v)),
{
    serde_json::from_str::<serde_json::Value>(text).ok()
}

/// Returns the tree that a value holds.
fn tree_of(v: serde_json::Value) -> (r: Json)
    ensures
        r.deep_view() == value_tree(v),
    decreases value_tree(v),
{
    let ghost whole = value_tree(v);
    match open_value(v) {
        Node::Null => Json::Null,
        Node::Bool(b) => Json::Bool(b),
        Node::Number(t) => Json::Number(t),
        Node::Text(t) => Json::Text(t),
        Node::Array(items) => {
            let mut rest = items;
            let ghost all = items@;
            let mut out: Vec<Json> = Vec::new();
            while rest.len() > 0
                invariant
                    whole == value_tree(v),
                    whole == JsonView::Array(Seq::new(all.len(), |i: int| value_tree(all[i]))),
                    out.len() + rest.len() == all.len(),
                    rest@ == all.skip(out.len() as int),
                    forall|i: int|
                        0 <= i < out.len() ==> #[trigger] out@[i].deep_view() == value_tree(all[i]),
                decreases rest.len(),
            {
                let first = rest.remove(0);
                let ghost k = out.len() as int;
                assert(first == all[k]);
                assert(whole->Array_0[k] == value_tree(first));
                assert(decreases_to!(whole => whole->Array_0[k]));
                let child = tree_of(first);
                out.push(child);
                assert(rest@ =~= all.skip(out.len() as int));
            }
            let r = Json::Array(out);
            assert forall|i: int| 0 <= i < all.len() implies r.deep_view()->Array_0[i]
                == whole->Array_0[i] by {
                assert(out@[i].deep_view() == value_tree(all[i]));
            }
            assert(r.deep_view()->Array_0 =~= whole->Array_0);
            r
        },
        Node::Object(entries) => {
            let mut rest = entries;
            let ghost all = entries@;
            let mut out: Vec<(String, Json)> = Vec::new();
            while rest.len() > 0
                invariant
                    whole == value_tree(v),
                    whole == JsonView::Object(
                        Seq::new(all.len(), |i: int| (all[i].0@, value_tree(all[i].1))),
                    ),
                    out.len() + rest.len() == all.len(),
                    rest@ == all.skip(out.len() as int),
                    forall|i: int|
                        0 <= i < out.len() ==> (#[trigger] out@[i]).0@ == all[i].0@
                            && out@[i].1.deep_view() == value_tree(all[i].1),
                decreases rest.len(),
            {
                let first = rest.remove(0);
                let ghost k = out.len() as int;
                assert(first == all[k]);
                assert(whole->Object_0[k] == (first.0@, value_tree(first.1)));
                assert(decreases_to!(whole => whole->Object_0[k].1));
                let (key, value) = first;
                let child = tree_of(value);
                out.push((key, child));
                assert(rest@ =~= all.skip(out.len() as int));
            }
            let r = Json::Object(out);
            assert(r.deep_view()->Object_0 =~= whole->Object_0);
            r
        },
    }
}

/// Reads a JSON value.
pub fn parse(text: &str) -> (r: Option<Json>)
    ensures
        r.deep_view() == parsed_json(text@),
{
    match read_value(text) {
        Some(v) => Some(tree_of(v)),
        None => None,
    }
}

/// The value of the first entry under `key`.
pub open spec fn entry(entries: Seq<(Seq<char>, JsonView)>, key: Seq<char>) -> Option<JsonView>
    decreases entries.len(),
{
    if entries.len() == 0 {
        None
    } else if entries[0].0 == key {
        Some(entries[0].1)
    } else {
        entry(entries.skip(1), key)
    }
}

/// An entry holds less than all entries.
pub proof fn entry_is_smaller(entries: Seq<(Seq<char>, JsonView)>, key: Seq<char>)
    ensures
        entry(entries, key) matches Some(value) ==> exists|i: int|
            0 <= i < entries.len() && #[trigger] entries[i].1 == value,
    decreases entries.len(),
{
    if entries.len() > 0 && entries[0].0 != key {
        let rest = entries.skip(1);
        entry_is_smaller(rest, key);
        if entry(rest, key) is Some {
            let i = choose|i: int|
                0 <= i < rest.len() && #[trigger] rest[i].1 == entry(rest, key)->0;
            assert(entries[i + 1].1 == rest[i].1);
        }
    } else if entries.len() > 0 {
        assert(entries[0].1 == entry(entries, key)->0);
    }
}

/// What an object has under a key is what stands in its first entry of that key; it has nothing
/// there exactly where no entry has the key, and no other value has anything under a key.
pub proof fn fields_are_first_entries(
    entries: Seq<(Seq<char>, JsonView)>,
    key: Seq<char>,
    other: JsonView,
)
    ensures
        match JsonView::Object(entries).field(key) {
            Some(value) => exists|i: int|
                0 <= i < entries.len() && #[trigger] entries[i] == (key, value) && forall|j: int|
                    0 <= j < i ==> (#[trigger] entries[j]).0 != key,
            None => forall|j: int| 0 <= j < entries.len() ==> (#[trigger] entries[j]).0 != key,
        },
        !(other is Object) ==> other.field(key) is None,
    decreases entries.len(),
{
    if entries.len() > 0 {
        if entries[0].0 == key {
            assert(entries[0] == (key, entries[0].1));
        } else {
            let rest = entries.skip(1);
            fields_are_first_entries(rest, key, other);
            assert forall|j: int| 0 <= j < rest.len() implies rest[j] == entries[j + 1] by {}
            match JsonView::Object(rest).field(key) {
                Some(value) => {
                    let i = choose|i: int|
                        0 <= i < rest.len() && #[trigger] rest[i] == (key, value) && forall|j: int|
                            0 <= j < i ==> (#[trigger] rest[j]).0 != key;
                    assert(entries[i + 1] == (key, value));
                    assert forall|j: int| 0 <= j < i + 1 implies (#[trigger] entries[j]).0
                        != key by {
                        if j > 0 {
                            assert(entries[j] == rest[j - 1]);
                        }
                    }
                },
                None => {
                    assert forall|j: int| 0 <= j < entries.len() implies (#[trigger] entries[j]).0
                        != key by {
                        if j > 0 {
                            assert(entries[j] == rest[j - 1]);
                        }
                    }
                },
            }
        }
    }
}

/// The member of an object holds less than the object.
pub proof fn field_is_smaller(value: JsonView, key: Seq<char>)
    ensures
        value.field(key) matches Some(member) ==> decreases_to!(value => member),
{
    match value {
        JsonView::Object(entries) => {
            entry_is_smaller(entries, key);
            if entry(entries, key) is Some {
                let i = choose|i: int|
                    0 <= i < entries.len() && #[trigger] entries[i].1 == entry(entries, key)->0;
                assert(decreases_to!(value => value->Object_0[i].1));
            }
        },
        _ => {},
    }
}

impl JsonView {
    /// The member of an object under `key`; no other value has one.
    pub open spec fn field(self, key: Seq<char>) -> Option<JsonView> {
        match self {
            JsonView::Object(entries) => entry(entries, key),
            _ => None,
        }
    }

    /// The text of a string.
    pub open spec fn text(self) -> Option<Seq<char>> {
        match self {
            JsonView::Text(t) => Some(t),
            _ => None,
        }
    }

    /// The items of an array.
    pub open spec fn items(self) -> Option<Seq<JsonView>> {
        match self {
            JsonView::Array(items) => Some(items),
            _ => None,
        }
    }

    /// The value of a boolean.
    pub open spec fn truth(self) -> Option<bool> {
        match self {
            JsonView::Bool(b) => Some(b),
            _ => None,
        }
    }

    /// The text of the string under `key`.
    pub open spec fn field_text(self, key: Seq<char>) -> Option<Seq<char>> {
        match self.field(key) {
            Some(v) => v.text(),
            None => None,
        }
    }
}

impl Json {
    /// Returns the member of an object under `key`.
    pub fn get(&self, key: &str) -> (r: Option<&Json>)
        ensures
            r is Some <==> self.deep_view().field(key@) is Some,
            r matches Some(v) ==> self.deep_view().field(key@) == Some(v.deep_view()),
            r matches Some(v) ==> decreases_to!(self => v),
    {
        match self {
            Json::Object(entries) => {
                let ghost all = self.deep_view()->Object_0;
                assert(all.skip(0) == all);
                for i in 0..entries.len()
                    invariant
                        *self == Json::Object(*entries),
                        all == self.deep_view()->Object_0,
                        all.len() == entries.len(),
                        entry(all, key@) == entry(all.skip(i as int), key@),
                {
                    assert(all.skip(i as int)[0] == all[i as int]);
                    if same(entries[i].0.as_str(), key) {
                        assert(decreases_to!(self => entries@[i as int].1));
                        return Some(&entries[i].1);
                    }
                    assert(all.skip(i as int).skip(1) == all.skip(i + 1));
                }
                None
            },
            _ => None,
        }
    }

    /// Returns the text of a string.
    pub fn as_str(&self) -> (r: Option<&str>)
        ensures
            r is Some <==> self.deep_view().text() is Some,
            r matches Some(t) ==> self.deep_view().text() == Some(t@),
    {
        match self {
            Json::Text(t) => Some(t.as_str()),
            _ => None,
        }
    }

    /// Returns the items of an array.
    pub fn as_array(&self) -> (r: Option<&Vec<Json>>)
        ensures
            r is Some <==> self.deep_view().items() is Some,
            r matches Some(v) ==> self.deep_view().items() == Some(v.deep_view()),
    {
        match self {
            Json::Array(items) => {
                assert(self.deep_view()->Array_0 =~= items.deep_view());
                Some(items)
            },
            _ => None,
        }
    }

    /// Returns the value of a boolean.
    pub fn as_bool(&self) -> (r: Option<bool>)
        ensures
            r == self.deep_view().truth(),
    {
        match self {
            Json::Bool(b) => Some(*b),
            _ => None,
        }
    }

    /// Returns the text of the string under `key`.
    pub fn get_str(&self, key: &str) -> (r: Option<&str>)
        ensures
            r is Some <==> self.deep_view().field_text(key@) is Some,
            r matches Some(t) ==> self.deep_view().field_text(key@) == Some(t@),
    {
        match self.get(key) {
            Some(v) => v.as_str(),
            None => None,
        }
    }
}

impl Json {
    /// Returns a value with the same tree.
    fn copy(&self) -> (r: Json)
        ensures
            r.deep_view() == self.deep_view(),
        decreases self,
    {
        match self {
            Json::Null => Json::Null,
            Json::Bool(b) => Json::Bool(*b),
            Json::Number(n) => Json::Number(n.clone()),
            Json::Text(t) => Json::Text(t.clone()),
            Json::Array(items) => {
                let mut out: Vec<Json> = Vec::new();
                for i in 0..items.len()
                    invariant
                        *self == Json::Array(*items),
                        out.len() == i,
                        forall|j: int|
                            0 <= j < i ==> (#[trigger] out@[j]).deep_view()
                                == items@[j].deep_view(),
                {
                    assert(decreases_to!(self => self->Array_0@[i as int]));
                    out.push(items[i].copy());
                }
                let r = Json::Array(out);
                assert(r.deep_view()->Array_0 =~= self.deep_view()->Array_0);
                r
            },
            Json::Object(entries) => {
                let mut out: Vec<(String, Json)> = Vec::new();
                for i in 0..entries.len()
                    invariant
                        *self == Json::Object(*entries),
                        out.len() == i,
                        forall|j: int|
                            0 <= j < i ==> (#[trigger] out@[j]).0@ == entries@[j].0@
                                && out@[j].1.deep_view() == entries@[j].1.deep_view(),
                {
                    assert(decreases_to!(self => self->Object_0@[i as int].1));
                    out.push((entries[i].0.clone(), entries[i].1.copy()));
                }
                let r = Json::Object(out);
                assert(r.deep_view()->Object_0 =~= self.deep_view()->Object_0);
                r
            },
        }
    }
}

impl Clone for Json {
    fn clone(&self) -> (r: Self)
        ensures
            r.deep_view() == self.deep_view(),
    {
        self.copy()
    }
}

impl Duplicate for Json {
    fn duplicate(&self) -> (r: Self) {
        self.clone()
    }
}

} // verus!
