//! JSON documents, as the upstream service sends them and as this library
//! hands them on.
//!
//! A document is held as a tree. A number is held by its numeral, so that it
//! is handed on as it came. An object is held by its members in order; where
//! two members share a key, the later one is the one that is found.

use vstd::prelude::*;

verus! {

/// A JSON document.
#[derive(Debug, PartialEq, Eq)]
pub enum Json {
    Null,
    Bool(bool),
    /// A number, by its numeral.
    Number(String),
    Text(String),
    Array(Vec<Json>),
    /// An object, by its members in order.
    Object(Vec<(String, Json)>),
}

/// The model of a [`Json`] document.
pub ghost enum JsonView {
    Null,
    Bool(bool),
    Number(Seq<char>),
    Text(Seq<char>),
    Array(Seq<JsonView>),
    Object(Seq<MemberView>),
}

/// The model of a member of an object: a key and the value under it.
pub ghost struct MemberView {
    pub key: Seq<char>,
    pub value: JsonView,
}

impl View for Json {
    type V = JsonView;

    open spec fn view(&self) -> JsonView
        decreases self,
    {
        match self {
            Json::Null => JsonView::Null,
            Json::Bool(b) => JsonView::Bool(*b),
            Json::Number(numeral) => JsonView::Number(numeral@),
            Json::Text(text) => JsonView::Text(text@),
            Json::Array(items) => JsonView::Array(
                Seq::new(
                    items@.len(),
                    |i: int|
                        if 0 <= i < items@.len() {
                            items@[i].view()
                        } else {
                            JsonView::Null
                        },
                ),
            ),
            Json::Object(members) => JsonView::Object(
                Seq::new(
                    members@.len(),
                    |i: int|
                        if 0 <= i < members@.len() {
                            MemberView { key: members@[i].0@, value: members@[i].1.view() }
                        } else {
                            MemberView { key: Seq::empty(), value: JsonView::Null }
                        },
                ),
            ),
        }
    }
}

/// The value of the last member of `members` whose key is `key`.
pub open spec fn member(members: Seq<MemberView>, key: Seq<char>) -> Option<JsonView>
    decreases members.len(),
{
    if members.len() == 0 {
        None
    } else if members.last().key == key {
        Some(members.last().value)
    } else {
        member(members.drop_last(), key)
    }
}

impl JsonView {
    /// The member `key` of this document, if the document is an object that
    /// has such a member.
    pub open spec fn get(self, key: Seq<char>) -> Option<JsonView> {
        match self {
            JsonView::Object(members) => member(members, key),
            _ => None,
        }
    }

    /// The member `key` of this document; `Null` where `get` finds nothing.
    pub open spec fn at(self, key: Seq<char>) -> JsonView {
        match self.get(key) {
            Some(value) => value,
            None => JsonView::Null,
        }
    }

    /// The text of this document, if the document is a string.
    pub open spec fn as_text(self) -> Option<Seq<char>> {
        match self {
            JsonView::Text(text) => Some(text),
            _ => None,
        }
    }
}

/// The model of a document that may be absent.
pub open spec fn view_of(found: Option<&Json>) -> Option<JsonView> {
    match found {
        Some(document) => Some(document@),
        None => None,
    }
}

impl Json {
    /// A copy of this document.
    #[verifier::loop_isolation(false)]
    pub fn deep_copy(&self) -> (copy: Json)
        ensures
            copy@ == self@,
        decreases self,
    {
        match self {
            Json::Null => Json::Null,
            Json::Bool(b) => Json::Bool(*b),
            Json::Number(numeral) => Json::Number(numeral.clone()),
            Json::Text(text) => Json::Text(text.clone()),
            Json::Array(items) => {
                let mut copies: Vec<Json> = Vec::new();
                let mut i: usize = 0;
                while i < items.len()
                    invariant
                        i <= items@.len(),
                        copies@.len() == i,
                        forall|j: int| 0 <= j < i ==> copies@[j]@ == items@[j]@,
                    decreases items@.len() - i,
                {
                    copies.push(items[i].deep_copy());
                    i = i + 1;
                }
                let copy = Json::Array(copies);
                assert(copy@->Array_0 =~= self@->Array_0);
                copy
            },
            Json::Object(members) => {
                let mut copies: Vec<(String, Json)> = Vec::new();
                let mut i: usize = 0;
                while i < members.len()
                    invariant
                        i <= members@.len(),
                        copies@.len() == i,
                        forall|j: int|
                            0 <= j < i ==> copies@[j].0@ == members@[j].0@ && copies@[j].1@
                                == members@[j].1@,
                    decreases members@.len() - i,
                {
                    copies.push((members[i].0.clone(), members[i].1.deep_copy()));
                    i = i + 1;
                }
                let copy = Json::Object(copies);
                assert(copy@->Object_0 =~= self@->Object_0);
                copy
            },
        }
    }

    /// The member `key` of this document, if the document is an object that
    /// has such a member.
    pub fn get(&self, key: &str) -> (found: Option<&Json>)
        ensures
            view_of(found) == self@.get(key@),
    {
        match self {
            Json::Object(members) => {
                let wanted = key.to_owned();
                let ghost model = self@->Object_0;
                let mut i: usize = members.len();
                assert(model.subrange(0, i as int) =~= model);
                while i > 0
                    invariant
                        i <= members@.len(),
                        wanted@ == key@,
                        self@ == JsonView::Object(model),
                        model.len() == members@.len(),
                        forall|j: int|
                            0 <= j < members@.len() ==> model[j] == (MemberView {
                                key: members@[j].0@,
                                value: members@[j].1@,
                            }),
                        member(model, key@) == member(model.subrange(0, i as int), key@),
                    decreases i,
                {
                    assert(model.subrange(0, i as int).drop_last() =~= model.subrange(0, i - 1));
                    assert(model.subrange(0, i as int).last() == model[i - 1]);
                    if members[i - 1].0 == wanted {
                        return Some(&members[i - 1].1);
                    }
                    i = i - 1;
                }
                None
            },
            _ => None,
        }
    }

    /// A copy of the member `key` of this document; `Null` where `get` finds
    /// nothing.
    pub fn at(&self, key: &str) -> (value: Json)
        ensures
            value@ == self@.at(key@),
    {
        match self.get(key) {
            Some(found) => found.deep_copy(),
            None => Json::Null,
        }
    }

    /// The text of this document, if the document is a string.
    pub fn as_str(&self) -> (text: Option<&str>)
        ensures
            match text {
                Some(t) => self@.as_text() == Some(t@),
                None => self@.as_text() is None,
            },
    {
        match self {
            Json::Text(text) => Some(text.as_str()),
            _ => None,
        }
    }
}

impl Clone for Json {
    fn clone(&self) -> (copy: Json)
        ensures
            copy@ == self@,
    {
        self.deep_copy()
    }
}

} // verus!
