//! The document tree in which the registry describes a device.
//!
//! A document is what the manifest is made of before it is written out as
//! text: objects keep their members in the order in which they were added.
use vstd::prelude::*;
use crate::text::{owned, str_eq};

pub mod writer;

verus! {

/// The mathematical model of a document.
pub enum Json {
    /// The absent value.
    Null,
    /// A truth value.
    Bool(bool),
    /// A non-negative whole number.
    Unsigned(u64),
    /// A whole number with a sign.
    Signed(i64),
    /// A single-precision number, by its bit pattern.
    Single(u32),
    /// A double-precision number, by its bit pattern.
    Double(u64),
    /// A text.
    Text(Seq<char>),
    /// A list of documents.
    Array(Seq<Json>),
    /// Named members, in the order in which they were added.
    Object(Seq<(Seq<char>, Json)>),
}

/// A document as the program holds it.
#[derive(Debug)]
pub enum JsonValue {
    /// The absent value.
    Null,
    /// A truth value.
    Bool(bool),
    /// A non-negative whole number.
    Unsigned(u64),
    /// A whole number with a sign.
    Signed(i64),
    /// A single-precision number, by its bit pattern.
    Single(u32),
    /// A double-precision number, by its bit pattern.
    Double(u64),
    /// A text.
    Text(String),
    /// A list of documents.
    Array(Vec<JsonValue>),
    /// Named members, in the order in which they were added.
    Object(Vec<(String, JsonValue)>),
}

impl JsonValue {
    /// The document that this value stands for.
    pub open spec fn model(self) -> Json
        decreases self,
    {
        match self {
            JsonValue::Null => Json::Null,
            JsonValue::Bool(b) => Json::Bool(b),
            JsonValue::Unsigned(n) => Json::Unsigned(n),
            JsonValue::Signed(n) => Json::Signed(n),
            JsonValue::Single(bits) => Json::Single(bits),
            JsonValue::Double(bits) => Json::Double(bits),
            JsonValue::Text(s) => Json::Text(s@),
            JsonValue::Array(items) => Json::Array(
                Seq::new(
                    items@.len(),
                    |i: int| if 0 <= i < items@.len() { items@[i].model() } else { Json::Null },
                ),
            ),
            JsonValue::Object(members) => Json::Object(
                Seq::new(
                    members@.len(),
                    |i: int|
                        if 0 <= i < members@.len() {
                            (members@[i].0@, members@[i].1.model())
                        } else {
                            (Seq::empty(), Json::Null)
                        },
                ),
            ),
        }
    }
}

impl View for JsonValue {
    type V = Json;

    open spec fn view(&self) -> Json {
        self.model()
    }
}

/// The models of a list of documents, element by element.
pub open spec fn spec_items(items: Seq<JsonValue>) -> Seq<Json> {
    Seq::new(items.len(), |i: int| if 0 <= i < items.len() { items[i]@ } else { Json::Null })
}

/// The models of a list of named members, member by member.
pub open spec fn spec_members(members: Seq<(String, JsonValue)>) -> Seq<(Seq<char>, Json)> {
    Seq::new(
        members.len(),
        |i: int|
            if 0 <= i < members.len() {
                (members[i].0@, members[i].1@)
            } else {
                (Seq::empty(), Json::Null)
            },
    )
}

/// An array's model is the list of its items' models.
pub proof fn lemma_array_view(items: Vec<JsonValue>)
    ensures
        JsonValue::Array(items)@ == Json::Array(spec_items(items@)),
{
    assert(JsonValue::Array(items)@->Array_0 =~= spec_items(items@));
}

/// An object's model is the list of its members' models.
pub proof fn lemma_object_view(members: Vec<(String, JsonValue)>)
    ensures
        JsonValue::Object(members)@ == Json::Object(spec_members(members@)),
{
    assert(JsonValue::Object(members)@->Object_0 =~= spec_members(members@));
}

/// The value of the first member of this name, if there is one.
pub open spec fn spec_first_named(members: Seq<(Seq<char>, Json)>, name: Seq<char>) -> Option<Json>
    decreases members.len(),
{
    if members.len() == 0 {
        None
    } else if members[0].0 == name {
        Some(members[0].1)
    } else {
        spec_first_named(members.drop_first(), name)
    }
}

/// In two lists in a row, a name is found in the first list, or else in the
/// second.
pub proof fn lemma_first_named_add(
    first: Seq<(Seq<char>, Json)>,
    second: Seq<(Seq<char>, Json)>,
    name: Seq<char>,
)
    ensures
        spec_first_named(first + second, name) == if spec_first_named(first, name) is Some {
            spec_first_named(first, name)
        } else {
            spec_first_named(second, name)
        },
    decreases first.len(),
{
    if first.len() > 0 {
        assert((first + second).drop_first() =~= first.drop_first() + second);
        lemma_first_named_add(first.drop_first(), second, name);
    }
}

impl Json {
    /// The value of the first member of this name, if this is an object
    /// that has one.
    pub open spec fn member(self, name: Seq<char>) -> Option<Json> {
        match self {
            Json::Object(members) => spec_first_named(members, name),
            _ => None,
        }
    }

    /// The whole number that this document holds, if it holds one.
    pub open spec fn integer(self) -> Option<int> {
        match self {
            Json::Unsigned(n) => Some(n as int),
            Json::Signed(n) => Some(n as int),
            _ => None,
        }
    }

    /// The truth value that this document holds, if it holds one.
    pub open spec fn boolean(self) -> Option<bool> {
        match self {
            Json::Bool(b) => Some(b),
            _ => None,
        }
    }

    /// The bits of the single-precision number that this document holds, if
    /// it holds one.
    pub open spec fn single(self) -> Option<u32> {
        match self {
            Json::Single(bits) => Some(bits),
            _ => None,
        }
    }

    /// The bits of the double-precision number that this document holds, if
    /// it holds one.
    pub open spec fn double(self) -> Option<u64> {
        match self {
            Json::Double(bits) => Some(bits),
            _ => None,
        }
    }

    /// The text that this document holds, if it holds one.
    pub open spec fn text(self) -> Option<Seq<char>> {
        match self {
            Json::Text(s) => Some(s),
            _ => None,
        }
    }
}

impl JsonValue {
    /// The value of the first member of this name, if this is an object
    /// that has one.
    pub fn member(&self, name: &str) -> (r: Option<&JsonValue>)
        ensures
            r is Some <==> self@.member(name@) is Some,
            r is Some ==> r->Some_0@ == self@.member(name@)->Some_0,
    {
        match self {
            JsonValue::Object(members) => {
                proof {
                    lemma_object_view(*members);
                    assert(spec_members(members@).skip(0) =~= spec_members(members@));
                }
                let mut i: usize = 0;
                while i < members.len()
                    invariant
                        i <= members.len(),
                        self@ == Json::Object(spec_members(members@)),
                        spec_first_named(spec_members(members@), name@) == spec_first_named(
                            spec_members(members@).skip(i as int),
                            name@,
                        ),
                    decreases members.len() - i,
                {
                    let ghost rest = spec_members(members@).skip(i as int);
                    if str_eq(members[i].0.as_str(), name) {
                        return Some(&members[i].1);
                    }
                    assert(rest.drop_first() =~= spec_members(members@).skip(i as int + 1));
                    i += 1;
                }
                None
            },
            _ => None,
        }
    }

    /// The members of this document, if it is an object.
    pub fn as_object(&self) -> (r: Option<&Vec<(String, JsonValue)>>)
        ensures
            r is Some <==> self@ is Object,
            r is Some ==> self@ == Json::Object(spec_members(r->Some_0@)),
    {
        match self {
            JsonValue::Object(members) => {
                proof {
                    lemma_object_view(*members);
                }
                Some(members)
            },
            _ => None,
        }
    }

    /// The items of this document, if it is an array.
    pub fn as_array(&self) -> (r: Option<&Vec<JsonValue>>)
        ensures
            r is Some <==> self@ is Array,
            r is Some ==> self@ == Json::Array(spec_items(r->Some_0@)),
    {
        match self {
            JsonValue::Array(items) => {
                proof {
                    lemma_array_view(*items);
                }
                Some(items)
            },
            _ => None,
        }
    }

    /// The truth value that this document holds, if it holds one.
    pub fn as_bool(&self) -> (r: Option<bool>)
        ensures
            r == self@.boolean(),
    {
        match self {
            JsonValue::Bool(b) => Some(*b),
            _ => None,
        }
    }

    /// The bits of the single-precision number that this document holds, if
    /// it holds one.
    pub fn as_single(&self) -> (r: Option<u32>)
        ensures
            r == self@.single(),
    {
        match self {
            JsonValue::Single(bits) => Some(*bits),
            _ => None,
        }
    }

    /// The bits of the double-precision number that this document holds, if
    /// it holds one.
    pub fn as_double(&self) -> (r: Option<u64>)
        ensures
            r == self@.double(),
    {
        match self {
            JsonValue::Double(bits) => Some(*bits),
            _ => None,
        }
    }

    /// The text that this document holds, if it holds one.
    pub fn as_text(&self) -> (r: Option<&str>)
        ensures
            r is Some <==> self@.text() is Some,
            r is Some ==> r->Some_0@ == self@.text()->Some_0,
    {
        match self {
            JsonValue::Text(s) => Some(s.as_str()),
            _ => None,
        }
    }

    /// The whole number that this document holds, if it holds one that is
    /// at least `low` and at most `high`.
    pub fn as_integer_within(&self, low: i64, high: u64) -> (r: Option<i128>)
        ensures
            r is Some <==> self@.integer() is Some && low <= self@.integer()->Some_0 <= high,
            r is Some ==> r->Some_0 == self@.integer()->Some_0,
    {
        match self {
            JsonValue::Unsigned(n) => if (low <= 0 || *n >= low as u64) && *n <= high {
                Some(*n as i128)
            } else {
                None
            },
            JsonValue::Signed(n) => if *n >= low && (*n < 0 || *n as u64 <= high) {
                Some(*n as i128)
            } else {
                None
            },
            _ => None,
        }
    }

    /// A text document with the characters of `s`.
    pub fn text(s: &str) -> (r: JsonValue)
        ensures
            r@ == Json::Text(s@),
    {
        JsonValue::Text(owned(s))
    }

    /// An array document of the given items, in their order.
    pub fn array(items: Vec<JsonValue>) -> (r: JsonValue)
        ensures
            r@ == Json::Array(spec_items(items@)),
    {
        proof {
            lemma_array_view(items);
        }
        JsonValue::Array(items)
    }

    /// An object document of the given members, in their order.
    pub fn object(members: Vec<(String, JsonValue)>) -> (r: JsonValue)
        ensures
            r@ == Json::Object(spec_members(members@)),
    {
        proof {
            lemma_object_view(members);
        }
        JsonValue::Object(members)
    }
}

/// A list of members under construction.
pub struct Members {
    /// The members added so far.
    pub list: Vec<(String, JsonValue)>,
}

impl View for Members {
    type V = Seq<(Seq<char>, Json)>;

    open spec fn view(&self) -> Seq<(Seq<char>, Json)> {
        spec_members(self.list@)
    }
}

impl Members {
    /// No members.
    pub fn new() -> (r: Members)
        ensures
            r@ == Seq::<(Seq<char>, Json)>::empty(),
    {
        let r = Members { list: Vec::new() };
        r
    }

    /// Adds a member at the end.
    pub fn with(self, name: &str, value: JsonValue) -> (r: Members)
        ensures
            r@ == self@.push((name@, value@)),
    {
        let mut list = self.list;
        let member = (owned(name), value);
        list.push(member);
        Members { list }
    }

    /// The object made of these members.
    pub fn finish(self) -> (r: JsonValue)
        ensures
            r@ == Json::Object(self@),
    {
        JsonValue::object(self.list)
    }
}

} // verus!
