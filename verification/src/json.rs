//! JSON documents.

use vstd::prelude::*;

use crate::confidence::{is_nearest_double, lemma_without_sign, magnitude_determines_bits, Confidence};

verus! {

/// A JSON number.
#[derive(Debug, Clone, Copy, PartialEq, Eq, Structural)]
pub enum JsonNumber {
    /// An integer that is not negative.
    PosInt(u64),
    /// A negative integer.
    NegInt(i64),
    /// A double-precision number, by its bits.
    Float(u64),
}

/// A JSON document. The members of an object stand in the order in which they are written.
#[derive(Debug)]
pub enum Json {
    Null,
    Bool(bool),
    Number(JsonNumber),
    Str(String),
    Array(Vec<Json>),
    Object(Vec<(String, Json)>),
}

/// What a JSON document says.
#[verifier::ext_equal]
pub enum JsonTree {
    Null,
    Bool(bool),
    Number(JsonNumber),
    Str(Seq<char>),
    Array(Seq<JsonTree>),
    Object(Seq<(Seq<char>, JsonTree)>),
}

/// The first member called `key`.
pub open spec fn member(members: Seq<(Seq<char>, JsonTree)>, key: Seq<char>) -> Option<JsonTree>
    decreases members.len(),
{
    if members.len() == 0 {
        None
    } else if members[0].0 == key {
        Some(members[0].1)
    } else {
        member(members.drop_first(), key)
    }
}

/// The bits of the double nearest to a number.
pub open spec fn number_bits(number: JsonNumber) -> u64 {
    match number {
        JsonNumber::PosInt(n) => choose|bits: u64| is_nearest_double(bits, n as int),
        JsonNumber::NegInt(n) => choose|bits: u64| is_nearest_double(bits, n as int),
        JsonNumber::Float(bits) => bits,
    }
}

impl JsonTree {
    /// The member called `key`, where this is an object that has one.
    pub open spec fn get(self, key: Seq<char>) -> Option<JsonTree> {
        match self {
            JsonTree::Object(members) => member(members, key),
            _ => None,
        }
    }

    /// The text of a string.
    pub open spec fn as_str(self) -> Option<Seq<char>> {
        match self {
            JsonTree::Str(text) => Some(text),
            _ => None,
        }
    }

    /// The value of a boolean.
    pub open spec fn as_bool(self) -> Option<bool> {
        match self {
            JsonTree::Bool(value) => Some(value),
            _ => None,
        }
    }

    /// A number, as the bits of the nearest double.
    pub open spec fn as_double(self) -> Option<u64> {
        match self {
            JsonTree::Number(number) => Some(number_bits(number)),
            _ => None,
        }
    }

    /// The text of the string that the member called `key` holds.
    pub open spec fn get_str(self, key: Seq<char>) -> Option<Seq<char>> {
        match self.get(key) {
            Some(value) => value.as_str(),
            None => None,
        }
    }

    /// The value of the boolean that the member called `key` holds.
    pub open spec fn get_bool(self, key: Seq<char>) -> Option<bool> {
        match self.get(key) {
            Some(value) => value.as_bool(),
            None => None,
        }
    }

    /// The number that the member called `key` holds, as the bits of the nearest double.
    pub open spec fn get_double(self, key: Seq<char>) -> Option<u64> {
        match self.get(key) {
            Some(value) => value.as_double(),
            None => None,
        }
    }

    /// No object of the document has two members of one name.
    pub open spec fn well_formed(self) -> bool
        decreases self,
    {
        match self {
            JsonTree::Array(items) => forall|i: int| 0 <= i < items.len() ==> (#[trigger] items[i]).well_formed(),
            JsonTree::Object(members) => {
                &&& forall|i: int| 0 <= i < members.len() ==> (#[trigger] members[i]).1.well_formed()
                &&& forall|i: int, j: int|
                    0 <= i < j < members.len() ==> (#[trigger] members[i]).0 != (#[trigger] members[j]).0
            },
            _ => true,
        }
    }
}

/// What the members of an object say.
pub open spec fn members_tree(members: Seq<(String, Json)>) -> Seq<(Seq<char>, JsonTree)> {
    members.map_values(|m: (String, Json)| (m.0@, m.1.tree()))
}

/// What the items of an array say.
pub open spec fn items_tree(items: Seq<Json>) -> Seq<JsonTree> {
    items.map_values(|item: Json| item.tree())
}

/// There is at most one double nearest to a number.
pub proof fn nearest_double_is_unique(a: u64, b: u64, n: int)
    requires
        is_nearest_double(a, n),
        is_nearest_double(b, n),
    ensures
        a == b,
{
    if n >= 0 {
        magnitude_determines_bits(a, b);
    } else {
        let x = (a - 0x8000_0000_0000_0000) as u64;
        let y = (b - 0x8000_0000_0000_0000) as u64;
        lemma_without_sign(a);
        lemma_without_sign(b);
        assert(a % 0x8000_0000_0000_0000 == x);
        assert(b % 0x8000_0000_0000_0000 == y);
        magnitude_determines_bits(x, y);
    }
}

impl Json {
    /// What the document says.
    pub open spec fn tree(self) -> JsonTree
        decreases self,
    {
        match self {
            Json::Null => JsonTree::Null,
            Json::Bool(value) => JsonTree::Bool(value),
            Json::Number(number) => JsonTree::Number(number),
            Json::Str(text) => JsonTree::Str(text@),
            Json::Array(items) => JsonTree::Array(
                Seq::new(
                    items@.len(),
                    |i: int|
                        if 0 <= i < items@.len() {
                            items@[i].tree()
                        } else {
                            JsonTree::Null
                        },
                ),
            ),
            Json::Object(members) => JsonTree::Object(
                Seq::new(
                    members@.len(),
                    |i: int|
                        if 0 <= i < members@.len() {
                            (members@[i].0@, members@[i].1.tree())
                        } else {
                            (Seq::empty(), JsonTree::Null)
                        },
                ),
            ),
        }
    }

    /// A string.
    pub fn text(text: &str) -> (json: Json)
        ensures
            json.tree() == JsonTree::Str(text@),
    {
        Json::Str(text.to_string())
    }

    /// An array of the items.
    pub fn array(items: Vec<Json>) -> (json: Json)
        ensures
            json.tree() == JsonTree::Array(items_tree(items@)),
    {
        let json = Json::Array(items);
        assert(json.tree()->Array_0 =~= items_tree(items@));
        json
    }

    /// An object of the members.
    pub fn object(members: Vec<(String, Json)>) -> (json: Json)
        ensures
            json.tree() == JsonTree::Object(members_tree(members@)),
    {
        let json = Json::Object(members);
        assert(json.tree()->Object_0 =~= members_tree(members@));
        json
    }

    /// The member called `key`, where this is an object that has one.
    pub fn get(&self, key: &str) -> (found: Option<&Json>)
        ensures
            match found {
                Some(value) => self.tree().get(key@) == Some(value.tree()),
                None => self.tree().get(key@) is None,
            },
    {
        match self {
            Json::Object(members) => {
                let ghost all = self.tree()->Object_0;
                assert(all.skip(0) =~= all);
                let wanted = key.to_string();
                let mut i: usize = 0;
                while i < members.len()
                    invariant
                        i <= members@.len(),
                        wanted@ == key@,
                        self.tree() == JsonTree::Object(all),
                        all.len() == members@.len(),
                        forall|j: int| 0 <= j < members@.len() ==> #[trigger] all[j] == (members@[j].0@, members@[j].1.tree()),
                        member(all, key@) == member(all.skip(i as int), key@),
                    decreases members@.len() - i,
                {
                    assert(all.skip(i as int)[0] == all[i as int]);
                    assert(all.skip(i as int).drop_first() =~= all.skip(i as int + 1));
                    if members[i].0 == wanted {
                        return Some(&members[i].1);
                    }
                    i += 1;
                }
                None
            },
            _ => None,
        }
    }

    /// The text of a string.
    pub fn as_str(&self) -> (text: Option<&str>)
        ensures
            match text {
                Some(text) => self.tree().as_str() == Some(text@),
                None => self.tree().as_str() is None,
            },
    {
        match self {
            Json::Str(text) => Some(text.as_str()),
            _ => None,
        }
    }

    /// The value of a boolean.
    pub fn as_bool(&self) -> (value: Option<bool>)
        ensures
            value == self.tree().as_bool(),
    {
        match self {
            Json::Bool(value) => Some(*value),
            _ => None,
        }
    }

    /// A number, as the nearest double.
    pub fn as_double(&self) -> (score: Option<Confidence>)
        ensures
            match score {
                Some(score) => self.tree().as_double() == Some(score.bits),
                None => self.tree().as_double() is None,
            },
    {
        match self {
            Json::Number(JsonNumber::PosInt(n)) => {
                let score = Confidence::from_unsigned(*n);
                proof {
                    nearest_double_is_unique(score.bits, number_bits(JsonNumber::PosInt(*n)), *n as int);
                }
                Some(score)
            },
            Json::Number(JsonNumber::NegInt(n)) => {
                let score = Confidence::from_signed(*n);
                proof {
                    nearest_double_is_unique(score.bits, number_bits(JsonNumber::NegInt(*n)), *n as int);
                }
                Some(score)
            },
            Json::Number(JsonNumber::Float(bits)) => Some(Confidence { bits: *bits }),
            _ => None,
        }
    }

    /// The text of the string that the member called `key` holds.
    pub fn get_str(&self, key: &str) -> (text: Option<&str>)
        ensures
            match text {
                Some(text) => self.tree().get_str(key@) == Some(text@),
                None => self.tree().get_str(key@) is None,
            },
    {
        match self.get(key) {
            Some(value) => value.as_str(),
            None => None,
        }
    }

    /// The value of the boolean that the member called `key` holds.
    pub fn get_bool(&self, key: &str) -> (value: Option<bool>)
        ensures
            value == self.tree().get_bool(key@),
    {
        match self.get(key) {
            Some(value) => value.as_bool(),
            None => None,
        }
    }

    /// The number that the member called `key` holds, as the nearest double.
    pub fn get_double(&self, key: &str) -> (score: Option<Confidence>)
        ensures
            match score {
                Some(score) => self.tree().get_double(key@) == Some(score.bits),
                None => self.tree().get_double(key@) is None,
            },
    {
        match self.get(key) {
            Some(value) => value.as_double(),
            None => None,
        }
    }

    /// The same document once more.
    fn copied(&self) -> (copy: Json)
        ensures
            copy.tree() == self.tree(),
        decreases self,
    {
        match self {
            Json::Null => Json::Null,
            Json::Bool(value) => Json::Bool(*value),
            Json::Number(number) => Json::Number(*number),
            Json::Str(text) => Json::Str(text.clone()),
            Json::Array(items) => {
                let mut copies: Vec<Json> = Vec::new();
                let mut i: usize = 0;
                while i < items.len()
                    invariant
                        i <= items@.len(),
                        copies@.len() == i,
                        decreases_to!(self => items),
                        forall|j: int| 0 <= j < i ==> (#[trigger] copies@[j]).tree() == items@[j].tree(),
                    decreases items@.len() - i,
                {
                    let item: &Json = &items[i];
                    assert(decreases_to!(items => items@));
                    assert(decreases_to!(items@ => items@[i as int]));
                    copies.push(item.copied());
                    i += 1;
                }
                let copy = Json::Array(copies);
                assert(copy.tree()->Array_0 =~= self.tree()->Array_0);
                copy
            },
            Json::Object(members) => {
                let mut copies: Vec<(String, Json)> = Vec::new();
                let mut i: usize = 0;
                while i < members.len()
                    invariant
                        i <= members@.len(),
                        copies@.len() == i,
                        decreases_to!(self => members),
                        forall|j: int|
                            0 <= j < i ==> (#[trigger] copies@[j]).0@ == members@[j].0@ && copies@[j].1.tree()
                                == members@[j].1.tree(),
                    decreases members@.len() - i,
                {
                    let pair: &(String, Json) = &members[i];
                    assert(decreases_to!(members => members@));
                    assert(decreases_to!(members@ => members@[i as int]));
                    assert(decreases_to!(members@[i as int] => members@[i as int].1));
                    copies.push((pair.0.clone(), pair.1.copied()));
                    i += 1;
                }
                let copy = Json::Object(copies);
                assert(copy.tree()->Object_0 =~= self.tree()->Object_0);
                copy
            },
        }
    }
}

/// Adds a member at the end.
pub(crate) fn put(members: &mut Vec<(String, Json)>, key: &str, value: Json)
    ensures
        members_tree(final(members)@) == members_tree(old(members)@).push((key@, value.tree())),
{
    let ghost before = members@;
    members.push((key.to_string(), value));
    assert(members_tree(members@) =~= members_tree(before).push((key@, value.tree())));
}

/// Adds a member that holds a string.
pub(crate) fn put_text(members: &mut Vec<(String, Json)>, key: &str, text: &str)
    ensures
        members_tree(final(members)@) == members_tree(old(members)@).push((key@, JsonTree::Str(text@))),
{
    put(members, key, Json::text(text));
}

/// Adds an item at the end.
pub(crate) fn put_item(items: &mut Vec<Json>, item: Json)
    ensures
        items_tree(final(items)@) == items_tree(old(items)@).push(item.tree()),
{
    let ghost before = items@;
    items.push(item);
    assert(items_tree(items@) =~= items_tree(before).push(item.tree()));
}

/// No members yet.
pub(crate) fn no_members() -> (members: Vec<(String, Json)>)
    ensures
        members_tree(members@) == Seq::<(Seq<char>, JsonTree)>::empty(),
{
    let members: Vec<(String, Json)> = Vec::new();
    assert(members_tree(members@) =~= Seq::<(Seq<char>, JsonTree)>::empty());
    members
}

/// No items yet.
pub(crate) fn no_items() -> (items: Vec<Json>)
    ensures
        items_tree(items@) == Seq::<JsonTree>::empty(),
{
    let items: Vec<Json> = Vec::new();
    assert(items_tree(items@) =~= Seq::<JsonTree>::empty());
    items
}

impl Clone for Json {
    fn clone(&self) -> (copy: Self)
        ensures
            copy.tree() == self.tree(),
    {
        self.copied()
    }
}

} // verus!
