//! A structural model of JSON documents.
//!
//! Every payload that travels through the protocol engine is a [`JsonValue`].
//! The engine never looks at text: whoever owns the byte stream turns text
//! into values and values into text.

use vstd::prelude::*;

verus! {

/// A JSON number.
///
/// Integers are kept exactly.  Any other number is kept as the bit pattern of
/// its IEEE-754 binary64 form, which the engine carries around without ever
/// interpreting it.
#[derive(Clone, Copy, Debug, PartialEq, Eq, Structural)]
pub enum JsonNumber {
    Integer(i128),
    Float(u64),
}

/// A JSON document.
///
/// An object is an ordered list of members.  When a key occurs more than
/// once, the last occurrence is the one that counts.
#[derive(Debug, PartialEq, Eq)]
pub enum JsonValue {
    Null,
    Bool(bool),
    Number(JsonNumber),
    String(String),
    Array(Vec<JsonValue>),
    Object(Vec<(String, JsonValue)>),
}

/// The mathematical value of a [`JsonValue`].
pub enum JsonView {
    Null,
    Bool(bool),
    Number(JsonNumber),
    String(Seq<char>),
    Array(Seq<JsonView>),
    Object(Seq<(Seq<char>, JsonView)>),
}

impl View for JsonValue {
    type V = JsonView;

    open spec fn view(&self) -> JsonView
        decreases self,
    {
        match self {
            JsonValue::Null => JsonView::Null,
            JsonValue::Bool(b) => JsonView::Bool(*b),
            JsonValue::Number(n) => JsonView::Number(*n),
            JsonValue::String(s) => JsonView::String(s@),
            JsonValue::Array(items) => JsonView::Array(
                Seq::new(
                    items.len() as nat,
                    |i: int|
                        if 0 <= i < items.len() {
                            items[i]@
                        } else {
                            JsonView::Null
                        },
                ),
            ),
            JsonValue::Object(members) => JsonView::Object(
                Seq::new(
                    members.len() as nat,
                    |i: int|
                        if 0 <= i < members.len() {
                            (members[i].0@, members[i].1@)
                        } else {
                            (Seq::empty(), JsonView::Null)
                        },
                ),
            ),
        }
    }
}


/// The members of an object, in the mathematical model.
pub type Members = Seq<(Seq<char>, JsonView)>;

/// The members of an object, as a sequence of key and value.
pub open spec fn members_view(members: Vec<(String, JsonValue)>) -> Seq<(Seq<char>, JsonView)> {
    Seq::new(members.len() as nat, |i: int| (members[i].0@, members[i].1@))
}

/// The elements of an array.
pub open spec fn items_view(items: Vec<JsonValue>) -> Seq<JsonView> {
    Seq::new(items.len() as nat, |i: int| items[i]@)
}

/// The value bound to `key` among `members`: that of its last occurrence.
pub open spec fn spec_lookup(members: Seq<(Seq<char>, JsonView)>, key: Seq<char>) -> Option<
    JsonView,
>
    decreases members.len(),
{
    if members.len() == 0 {
        None
    } else if members.last().0 == key {
        Some(members.last().1)
    } else {
        spec_lookup(members.drop_last(), key)
    }
}

impl JsonView {
    /// The member `key` of an object; nothing for any other kind of value.
    pub open spec fn member(self, key: Seq<char>) -> Option<JsonView> {
        match self {
            JsonView::Object(members) => spec_lookup(members, key),
            _ => None,
        }
    }

    /// The text of a string value.
    pub open spec fn text(self) -> Option<Seq<char>> {
        match self {
            JsonView::String(s) => Some(s),
            _ => None,
        }
    }

    /// The value of an integer number.
    pub open spec fn integer(self) -> Option<int> {
        match self {
            JsonView::Number(JsonNumber::Integer(i)) => Some(i as int),
            _ => None,
        }
    }
}

/// An object value is viewed member by member.
pub proof fn lemma_object_view(members: Vec<(String, JsonValue)>)
    ensures
        JsonValue::Object(members)@ == JsonView::Object(members_view(members)),
{
    reveal_with_fuel(<JsonValue as View>::view, 2);
    assert(JsonValue::Object(members)@->Object_0 =~= members_view(members));
}

/// An array value is viewed element by element.
pub proof fn lemma_array_view(items: Vec<JsonValue>)
    ensures
        JsonValue::Array(items)@ == JsonView::Array(items_view(items)),
{
    reveal_with_fuel(<JsonValue as View>::view, 2);
    assert(JsonValue::Array(items)@->Array_0 =~= items_view(items));
}

/// Finds the value bound to `key` among the members of an object.
pub fn lookup<'a>(members: &'a Vec<(String, JsonValue)>, key: &str) -> (r: Option<&'a JsonValue>)
    ensures
        match r {
            Some(v) => spec_lookup(members_view(*members), key@) == Some(v@),
            None => spec_lookup(members_view(*members), key@) is None,
        },
{
    let wanted: String = key.to_owned();
    let mut n: usize = members.len();
    let ghost all = members_view(*members);
    proof {
        assert(all.take(n as int) =~= all);
    }
    while n > 0
        invariant
            n <= members.len(),
            wanted@ == key@,
            all == members_view(*members),
            spec_lookup(all, key@) == spec_lookup(all.take(n as int), key@),
        decreases n,
    {
        n = n - 1;
        proof {
            let part = all.take(n + 1);
            assert(part.last() == all[n as int]);
            assert(part.drop_last() =~= all.take(n as int));
        }
        if members[n].0 == wanted {
            return Some(&members[n].1);
        }
    }
    None
}

impl JsonValue {
    /// The member `key` of an object; nothing for any other kind of value.
    pub fn get<'a>(&'a self, key: &str) -> (r: Option<&'a JsonValue>)
        ensures
            match r {
                Some(v) => self@.member(key@) == Some(v@),
                None => self@.member(key@) is None,
            },
    {
        match self {
            JsonValue::Object(members) => {
                proof {
                    lemma_object_view(*members);
                }
                lookup(members, key)
            },
            _ => None,
        }
    }

    /// The text of a string value.
    pub fn as_str<'a>(&'a self) -> (r: Option<&'a str>)
        ensures
            match r {
                Some(s) => self@.text() == Some(s@),
                None => self@.text() is None,
            },
    {
        match self {
            JsonValue::String(s) => Some(s.as_str()),
            _ => None,
        }
    }

    /// The value of an integer number.
    pub fn as_integer(&self) -> (r: Option<i128>)
        ensures
            match r {
                Some(i) => self@.integer() == Some(i as int),
                None => self@.integer() is None,
            },
    {
        match self {
            JsonValue::Number(JsonNumber::Integer(i)) => Some(*i),
            _ => None,
        }
    }

    /// The object made of `members`.
    pub fn object(members: Vec<(String, JsonValue)>) -> (r: JsonValue)
        ensures
            r@ == JsonView::Object(members_view(members)),
    {
        proof {
            lemma_object_view(members);
        }
        JsonValue::Object(members)
    }

    /// The array made of `items`.
    pub fn array(items: Vec<JsonValue>) -> (r: JsonValue)
        ensures
            r@ == JsonView::Array(items_view(items)),
    {
        proof {
            lemma_array_view(items);
        }
        JsonValue::Array(items)
    }

    /// A string value holding `text`.
    pub fn text(text: &str) -> (r: JsonValue)
        ensures
            r@ == JsonView::String(text@),
    {
        JsonValue::String(text.to_owned())
    }

    /// An integer value.
    pub fn integer(value: i128) -> (r: JsonValue)
        ensures
            r@ == JsonView::Number(JsonNumber::Integer(value)),
    {
        JsonValue::Number(JsonNumber::Integer(value))
    }
}

/// `members`, with `key` bound to `value` where there is a value.
pub open spec fn with_opt(
    members: Seq<(Seq<char>, JsonView)>,
    key: Seq<char>,
    value: Option<JsonView>,
) -> Seq<(Seq<char>, JsonView)> {
    match value {
        Some(v) => members.push((key, v)),
        None => members,
    }
}

/// A member that is added last hides the earlier members of the same key
/// and no others.
pub broadcast proof fn lemma_lookup_push(
    members: Seq<(Seq<char>, JsonView)>,
    k: Seq<char>,
    v: JsonView,
    key: Seq<char>,
)
    ensures
        #[trigger] spec_lookup(members.push((k, v)), key) == if k == key {
            Some(v)
        } else {
            spec_lookup(members, key)
        },
{
    assert(members.push((k, v)).drop_last() =~= members);
}

/// Nothing is bound among no members.
pub proof fn lemma_lookup_empty(key: Seq<char>)
    ensures
        spec_lookup(Seq::empty(), key) is None,
{
}

/// Adds the member `key` with `value` at the end of `members`.
pub fn put(members: &mut Vec<(String, JsonValue)>, key: &str, value: JsonValue)
    ensures
        members_view(*final(members)) == members_view(*old(members)).push((key@, value@)),
{
    let ghost before = members_view(*members);
    members.push((key.to_owned(), value));
    assert(members_view(*members) =~= before.push((key@, value@)));
}

/// Adds the member `key` at the end of `members` if there is a value for it.
pub fn put_opt(members: &mut Vec<(String, JsonValue)>, key: &str, value: Option<JsonValue>)
    ensures
        members_view(*final(members)) == with_opt(
            members_view(*old(members)),
            key@,
            match value {
                Some(v) => Some(v@),
                None => None,
            },
        ),
{
    match value {
        Some(v) => put(members, key, v),
        None => {},
    }
}

/// A fresh list of members, with nothing in it.
pub fn no_members() -> (members: Vec<(String, JsonValue)>)
    ensures
        members_view(members) == Seq::<(Seq<char>, JsonView)>::empty(),
{
    let members: Vec<(String, JsonValue)> = Vec::new();
    assert(members_view(members) =~= Seq::<(Seq<char>, JsonView)>::empty());
    members
}

impl Clone for JsonValue {
    fn clone(&self) -> (r: JsonValue)
        ensures
            r@ == self@,
        decreases self,
    {
        match self {
            JsonValue::Null => JsonValue::Null,
            JsonValue::Bool(b) => JsonValue::Bool(*b),
            JsonValue::Number(n) => JsonValue::Number(*n),
            JsonValue::String(s) => JsonValue::String(s.clone()),
            JsonValue::Array(items) => {
                let mut copy: Vec<JsonValue> = Vec::new();
                let mut i: usize = 0;
                while i < items.len()
                    invariant
                        i <= items.len(),
                        copy.len() == i,
                        forall|j: int| 0 <= j < i ==> copy[j]@ == items[j]@,
                        forall|j: int| 0 <= j < items.len() ==> decreases_to!(self => items[j]),
                    decreases items.len() - i,
                {
                    let item = items[i].clone();
                    copy.push(item);
                    i = i + 1;
                }
                proof {
                    lemma_array_view(*items);
                    lemma_array_view(copy);
                    assert(items_view(copy) =~= items_view(*items));
                }
                JsonValue::Array(copy)
            },
            JsonValue::Object(members) => {
                let mut copy: Vec<(String, JsonValue)> = Vec::new();
                let mut i: usize = 0;
                while i < members.len()
                    invariant
                        i <= members.len(),
                        copy.len() == i,
                        forall|j: int|
                            0 <= j < i ==> copy[j].0@ == members[j].0@ && copy[j].1@
                                == members[j].1@,
                        forall|j: int| 0 <= j < members.len() ==> decreases_to!(self => members[j].1),
                    decreases members.len() - i,
                {
                    let key = members[i].0.clone();
                    let value = members[i].1.clone();
                    copy.push((key, value));
                    i = i + 1;
                }
                proof {
                    lemma_object_view(*members);
                    lemma_object_view(copy);
                    assert(members_view(copy) =~= members_view(*members));
                }
                JsonValue::Object(copy)
            },
        }
    }
}

} // verus!
