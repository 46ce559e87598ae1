//! JSON documents as plain values.

use vstd::prelude::*;

use crate::text;

verus! {

/// A JSON value held as plain data. A number keeps its notation.
pub enum JsonTree {
    Null,
    Bool(bool),
    Number(String),
    Text(String),
    List(Vec<JsonTree>),
    Object(Vec<(String, JsonTree)>),
}

/// What a JSON value says.
pub enum Json {
    Null,
    Bool(bool),
    Number(Seq<char>),
    Text(Seq<char>),
    List(Seq<Json>),
    Object(Seq<(Seq<char>, Json)>),
}

impl JsonTree {
    pub open spec fn view(self) -> Json
        decreases self,
    {
        match self {
            JsonTree::Null => Json::Null,
            JsonTree::Bool(value) => Json::Bool(value),
            JsonTree::Number(notation) => Json::Number(notation@),
            JsonTree::Text(value) => Json::Text(value@),
            JsonTree::List(items) => Json::List(
                Seq::new(
                    items@.len(),
                    |i: int|
                        if 0 <= i < items@.len() {
                            items@[i].view()
                        } else {
                            Json::Null
                        },
                ),
            ),
            JsonTree::Object(members) => Json::Object(
                Seq::new(
                    members@.len(),
                    |i: int|
                        if 0 <= i < members@.len() {
                            (members@[i].0@, members@[i].1.view())
                        } else {
                            (Seq::empty(), Json::Null)
                        },
                ),
            ),
        }
    }
}

/// The value of the first member under `key`.
pub open spec fn member_of(members: Seq<(Seq<char>, Json)>, key: Seq<char>) -> Option<Json>
    decreases members.len(),
{
    if members.len() == 0 {
        None
    } else if members[0].0 == key {
        Some(members[0].1)
    } else {
        member_of(members.drop_first(), key)
    }
}

impl Json {
    /// The member of an object under `key`.
    pub open spec fn member(self, key: Seq<char>) -> Option<Json> {
        match self {
            Json::Object(members) => member_of(members, key),
            _ => None,
        }
    }

    pub open spec fn text(self) -> Option<Seq<char>> {
        match self {
            Json::Text(value) => Some(value),
            _ => None,
        }
    }

    pub open spec fn boolean(self) -> Option<bool> {
        match self {
            Json::Bool(value) => Some(value),
            _ => None,
        }
    }

    pub open spec fn member_text(self, key: Seq<char>) -> Option<Seq<char>> {
        match self.member(key) {
            Some(value) => value.text(),
            None => None,
        }
    }

    pub open spec fn member_boolean(self, key: Seq<char>) -> Option<bool> {
        match self.member(key) {
            Some(value) => value.boolean(),
            None => None,
        }
    }
}

impl JsonTree {
    /// The member of an object under `key`.
    pub fn member(&self, key: &str) -> (res: Option<&JsonTree>)
        ensures
            match res {
                Some(value) => self@.member(key@) == Some(value@),
                None => self@.member(key@) is None,
            },
    {
        match self {
            JsonTree::Object(members) => {
                let ghost all = self@->Object_0;
                let mut i: usize = 0;
                assert(all.skip(0) =~= all);
                while i < members.len()
                    invariant
                        i <= members.len(),
                        *self == JsonTree::Object(*members),
                        all == self@->Object_0,
                        all.len() == members@.len(),
                        member_of(all, key@) == member_of(all.skip(i as int), key@),
                    decreases members.len() - i,
                {
                    assert(all[i as int] == (members@[i as int].0@, members@[i as int].1@));
                    assert(all.skip(i as int)[0] == all[i as int]);
                    if text::same(members[i].0.as_str(), key) {
                        return Some(&members[i].1);
                    }
                    assert(all.skip(i as int).drop_first() =~= all.skip(i + 1));
                    i += 1;
                }
                None
            },
            _ => None,
        }
    }

    pub fn text(&self) -> (res: Option<&str>)
        ensures
            match res {
                Some(value) => self@.text() == Some(value@),
                None => self@.text() is None,
            },
    {
        match self {
            JsonTree::Text(value) => Some(value.as_str()),
            _ => None,
        }
    }

    pub fn boolean(&self) -> (res: Option<bool>)
        ensures
            res == self@.boolean(),
    {
        match self {
            JsonTree::Bool(value) => Some(*value),
            _ => None,
        }
    }

    pub fn items(&self) -> (res: Option<&Vec<JsonTree>>)
        ensures
            match res {
                Some(items) => *self == JsonTree::List(*items),
                None => !(self is List),
            },
    {
        match self {
            JsonTree::List(items) => Some(items),
            _ => None,
        }
    }

    pub fn member_text(&self, key: &str) -> (res: Option<&str>)
        ensures
            match res {
                Some(value) => self@.member_text(key@) == Some(value@),
                None => self@.member_text(key@) is None,
            },
    {
        match self.member(key) {
            Some(value) => value.text(),
            None => None,
        }
    }

    pub fn member_boolean(&self, key: &str) -> (res: Option<bool>)
        ensures
            res == self@.member_boolean(key@),
    {
        match self.member(key) {
            Some(value) => value.boolean(),
            None => None,
        }
    }
}

impl JsonTree {
    /// A copy of the value.
    pub fn duplicate(&self) -> (res: JsonTree)
        ensures
            res@ == self@,
        decreases self,
    {
        match self {
            JsonTree::Null => JsonTree::Null,
            JsonTree::Bool(value) => JsonTree::Bool(*value),
            JsonTree::Number(notation) => JsonTree::Number(notation.clone()),
            JsonTree::Text(value) => JsonTree::Text(value.clone()),
            JsonTree::List(items) => {
                let mut out: Vec<JsonTree> = Vec::new();
                let mut i: usize = 0;
                while i < items.len()
                    invariant
                        i <= items.len(),
                        *self == JsonTree::List(*items),
                        out@.len() == i,
                        forall|j: int| 0 <= j < i ==> (#[trigger] out@[j])@ == items@[j]@,
                    decreases items.len() - i,
                {
                    assert(decreases_to!(self => self->List_0));
                    assert(decreases_to!(self->List_0 => self->List_0@));
                    assert(decreases_to!(self->List_0@ => self->List_0@[i as int]));
                    out.push(items[i].duplicate());
                    i += 1;
                }
                let res = JsonTree::List(out);
                assert(res@->List_0 =~= self@->List_0);
                res
            },
            JsonTree::Object(members) => {
                let mut out: Vec<(String, JsonTree)> = Vec::new();
                let mut i: usize = 0;
                while i < members.len()
                    invariant
                        i <= members.len(),
                        *self == JsonTree::Object(*members),
                        out@.len() == i,
                        forall|j: int|
                            0 <= j < i ==> (#[trigger] out@[j]).0@ == members@[j].0@ && out@[j].1@
                                == members@[j].1@,
                    decreases members.len() - i,
                {
                    assert(decreases_to!(self => self->Object_0));
                    assert(decreases_to!(self->Object_0 => self->Object_0@));
                    assert(decreases_to!(self->Object_0@ => self->Object_0@[i as int]));
                    assert(decreases_to!(self->Object_0@[i as int] => self->Object_0@[i as int].1));
                    out.push((members[i].0.clone(), members[i].1.duplicate()));
                    i += 1;
                }
                let res = JsonTree::Object(out);
                assert(res@->Object_0 =~= self@->Object_0);
                res
            },
        }
    }
}

/// A copy of a list of values.
pub fn duplicate_list(list: &Vec<JsonTree>) -> (res: Vec<JsonTree>)
    ensures
        list_view(res@) == list_view(list@),
{
    let mut out: Vec<JsonTree> = Vec::new();
    let mut i: usize = 0;
    while i < list.len()
        invariant
            i <= list.len(),
            out@.len() == i,
            forall|j: int| 0 <= j < i ==> (#[trigger] out@[j])@ == list@[j]@,
        decreases list.len() - i,
    {
        out.push(list[i].duplicate());
        i += 1;
    }
    assert(list_view(out@) =~= list_view(list@));
    out
}

/// What the values of a list say.
pub open spec fn list_view(list: Seq<JsonTree>) -> Seq<Json> {
    list.map_values(|tree: JsonTree| tree@)
}

#[verifier::external_type_specification]
#[verifier::external_body]
pub struct ExValue(serde_json::Value);

/// What a `serde_json::Value` holds.
pub uninterp spec fn json_of(value: serde_json::Value) -> Json;

/// What `serde_json::from_str` reads from a text as a `serde_json::Value`; `None` where it fails.
pub uninterp spec fn parsed_json(source: Seq<char>) -> Option<Json>;

/// `serde_json::from_str::<serde_json::Value>`: the value depends on the text alone.
#[verifier::external_body]
fn read_value(source: &str) -> (res: Option<serde_json::Value>)
    ensures
        match res {
            Some(value) => parsed_json(source@) == Some(json_of(value)),
            None => parsed_json(source@) is None,
        },
{
    serde_json::from_str(source).ok()
}

/// Moves the contents of a `serde_json::Value` into a `JsonTree`, variant by variant.
#[verifier::external_body]
fn tree_of(value: serde_json::Value) -> (res: JsonTree)
    ensures
        res@ == json_of(value),
{
    match value {
        serde_json::Value::Null => JsonTree::Null,
        serde_json::Value::Bool(value) => JsonTree::Bool(value),
        serde_json::Value::Number(value) => JsonTree::Number(value.to_string()),
        serde_json::Value::String(value) => JsonTree::Text(value),
        serde_json::Value::Array(items) => JsonTree::List(items.into_iter().map(tree_of).collect()),
        serde_json::Value::Object(members) => {
            JsonTree::Object(members.into_iter().map(|(key, value)| (key, tree_of(value))).collect())
        },
    }
}

/// What a `serde_json::Value` built from a document holds: the members of an object in the order of
/// `serde_json::Map`, the last of those with one name; a number as `serde_json::Number` reads its
/// notation, and null where it cannot.
pub uninterp spec fn value_json(document: Json) -> Json;

/// How `serde_json::Value` writes a document.
pub uninterp spec fn written_json(document: Json) -> Seq<char>;

/// Moves the contents of a `JsonTree` into a `serde_json::Value`, variant by variant. Only
/// `serde_json::Number` can say what a notation stands for.
#[verifier::external_body]
fn value_of(tree: &JsonTree) -> (res: serde_json::Value)
    ensures
        json_of(res) == value_json(tree@),
{
    match tree {
        JsonTree::Null => serde_json::Value::Null,
        JsonTree::Bool(value) => serde_json::Value::Bool(*value),
        JsonTree::Number(notation) => notation.parse().map_or(serde_json::Value::Null, serde_json::Value::Number),
        JsonTree::Text(value) => serde_json::Value::String(value.clone()),
        JsonTree::List(items) => serde_json::Value::Array(items.iter().map(value_of).collect()),
        JsonTree::Object(members) => {
            serde_json::Value::Object(members.iter().map(|(key, value)| (key.clone(), value_of(value))).collect())
        },
    }
}

/// `to_string` of a `serde_json::Value`: the text depends on what the value holds alone.
#[verifier::external_body]
fn write_value(value: &serde_json::Value) -> (res: String)
    ensures
        res@ == written_json(json_of(*value)),
{
    value.to_string()
}

/// The text of a document.
pub open spec fn text_of(document: Json) -> Seq<char> {
    written_json(value_json(document))
}

/// Writes a JSON document.
pub fn write(tree: &JsonTree) -> (res: String)
    ensures
        res@ == text_of(tree@),
{
    let value = value_of(tree);
    write_value(&value)
}

/// A member that is a text.
pub open spec fn said_text(key: Seq<char>, value: Seq<char>) -> (Seq<char>, Json) {
    (key, Json::Text(value))
}

pub fn text_member(key: &str, value: &str) -> (res: (String, JsonTree))
    ensures
        res.0@ == key@,
        res.1@ == Json::Text(value@),
{
    (key.to_owned(), JsonTree::Text(value.to_owned()))
}

/// What the members of an object say.
pub open spec fn members_view(members: Seq<(String, JsonTree)>) -> Seq<(Seq<char>, Json)> {
    members.map_values(|member: (String, JsonTree)| (member.0@, member.1@))
}

/// An object with these members.
pub fn object(members: Vec<(String, JsonTree)>) -> (res: JsonTree)
    ensures
        res@ == Json::Object(members_view(members@)),
{
    let res = JsonTree::Object(members);
    assert(res@->Object_0 =~= members_view(members@));
    res
}

/// A list of these values.
pub fn list(items: Vec<JsonTree>) -> (res: JsonTree)
    ensures
        res@ == Json::List(list_view(items@)),
{
    let res = JsonTree::List(items);
    assert(res@->List_0 =~= list_view(items@));
    res
}

/// Reads a JSON document.
pub fn parse(source: &str) -> (res: Option<JsonTree>)
    ensures
        match res {
            Some(tree) => parsed_json(source@) == Some(tree@),
            None => parsed_json(source@) is None,
        },
{
    match read_value(source) {
        Some(value) => Some(tree_of(value)),
        None => None,
    }
}

} // verus!
