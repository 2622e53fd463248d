//! Sets of distinct items in the order of their first insertion: one that
//! grows as needed, and one that holds a fixed number of items at most.
//! Both are stated over the same mathematics and write the same document.
use vstd::prelude::*;
use crate::error::Error;
use crate::json::{spec_items, Json, JsonValue};

verus! {

/// What can be kept in a set: a value that can be compared, written into a
/// document and read back from it.
pub trait Element: Sized + Copy {
    /// The document of a value.
    spec fn json(self) -> Json;

    /// The value that a document holds, if it holds one.
    spec fn spec_from_json(document: Json) -> Option<Self>;

    /// Reading the document of a value gives the value back.
    proof fn lemma_round_trip(self)
        ensures
            Self::spec_from_json(self.json()) == Some(self),
    ;

    /// Compares two values.
    fn same(&self, other: &Self) -> (r: bool)
        ensures
            r == (*self == *other),
    ;

    /// Writes the document of the value.
    fn to_json(&self) -> (r: JsonValue)
        ensures
            r@ == self.json(),
    ;

    /// Reads a value from a document.
    fn from_json(document: &JsonValue) -> (r: Option<Self>)
        ensures
            r == Self::spec_from_json(document@),
    ;
}

/// No item occurs twice.
pub open spec fn unique<T>(items: Seq<T>) -> bool {
    forall|i: int, j: int| 0 <= i < j < items.len() ==> items[i] != items[j]
}

/// The items after an insertion: an item that is present changes nothing,
/// a new one goes to the end.
pub open spec fn inserted<T>(items: Seq<T>, item: T) -> Seq<T> {
    if items.contains(item) {
        items
    } else {
        items.push(item)
    }
}

/// The items after the insertion of a list of items, one after the other.
pub open spec fn inserted_all<T>(items: Seq<T>, added: Seq<T>) -> Seq<T>
    decreases added.len(),
{
    if added.len() == 0 {
        items
    } else {
        inserted(inserted_all(items, added.drop_last()), added.last())
    }
}

/// What an insertion into a set of limited size gives: the items after the
/// insertion, or the refusal of a new item for a full set.
pub open spec fn with<T>(items: Seq<T>, limit: Option<nat>, item: T) -> Result<Seq<T>, Error> {
    if limit is Some && !items.contains(item) && items.len() >= limit->Some_0 {
        Err(Error::CapacityExceeded)
    } else {
        Ok(inserted(items, item))
    }
}

/// The documents of a list of items.
pub open spec fn documents<T: Element>(items: Seq<T>) -> Seq<Json> {
    Seq::new(items.len(), |i: int| items[i].json())
}

/// The document of a set: the list of the documents of its items, in the
/// order of the set.
pub open spec fn json<T: Element>(items: Seq<T>) -> Json {
    Json::Array(documents(items))
}

/// The items that a list of documents holds: each document is an item,
/// inserted in the order of the list. A document that holds no item makes
/// the whole list unreadable.
pub open spec fn spec_read_all<T: Element>(written: Seq<Json>) -> Option<Seq<T>>
    decreases written.len(),
{
    if written.len() == 0 {
        Some(Seq::empty())
    } else {
        match (spec_read_all::<T>(written.drop_last()), T::spec_from_json(written.last())) {
            (Some(before), Some(item)) => Some(inserted(before, item)),
            _ => None,
        }
    }
}

/// The items that a document holds, if it is a list of items.
pub open spec fn spec_read<T: Element>(document: Json) -> Option<Seq<T>> {
    match document {
        Json::Array(written) => spec_read_all::<T>(written),
        _ => None,
    }
}

/// An insertion keeps a list free of repetitions, and a second insertion of
/// the same item changes nothing.
pub proof fn law_insertion_is_idempotent<T>(items: Seq<T>, item: T)
    requires
        unique(items),
    ensures
        unique(inserted(items, item)),
        inserted(items, item).contains(item),
        inserted(inserted(items, item), item) == inserted(items, item),
{
    let after = inserted(items, item);
    if !items.contains(item) {
        assert(after[items.len() as int] == item);
        assert forall|i: int, j: int| 0 <= i < j < after.len() implies after[i] != after[j] by {
        }
    }
}

/// A list with an unreadable beginning is unreadable.
pub proof fn lemma_unreadable_prefix<T: Element>(written: Seq<Json>, n: int)
    requires
        0 <= n <= written.len(),
        spec_read_all::<T>(written.take(n)) is None,
    ensures
        spec_read_all::<T>(written) is None,
    decreases written.len(),
{
    if n < written.len() {
        assert(written.drop_last().take(n) =~= written.take(n));
        lemma_unreadable_prefix::<T>(written.drop_last(), n);
    } else {
        assert(written.take(n) =~= written);
    }
}

/// Reading the document of a set gives its items back, in their order.
pub proof fn law_set_round_trip<T: Element>(items: Seq<T>)
    requires
        unique(items),
    ensures
        spec_read::<T>(json(items)) == Some(items),
    decreases items.len(),
{
    let written = documents(items);
    if items.len() > 0 {
        let before = items.drop_last();
        assert(written.drop_last() =~= documents(before));
        assert forall|i: int, j: int| 0 <= i < j < before.len() implies before[i] != before[j] by {
        }
        law_set_round_trip(before);
        items.last().lemma_round_trip();
        assert(!before.contains(items.last())) by {
            if before.contains(items.last()) {
                let p = choose|p: int| 0 <= p < before.len() && before[p] == items.last();
                assert(items[p] == items[items.len() - 1]);
            }
        }
    }
}

/// The two sets agree on an item that is present: with the same items,
/// inserting it into the bounded set, whatever its capacity and however
/// full it is, and into the growable set changes neither, and both write
/// the same document afterwards.
pub proof fn law_backends_agree_on_present_item<T: Element>(items: Seq<T>, capacity: nat, item: T)
    requires
        items.contains(item),
    ensures
        with(items, Some(capacity), item) == with(items, None, item),
        with(items, None, item) == Ok::<Seq<T>, Error>(items),
        json(with(items, Some(capacity), item)->Ok_0) == json(with(items, None, item)->Ok_0),
        crate::json::writer::spec_text(json(with(items, Some(capacity), item)->Ok_0))
            == crate::json::writer::spec_text(json(with(items, None, item)->Ok_0)),
{
}

/// The two sets differ only where a new item meets a full set, which the
/// bounded set refuses.
pub proof fn law_backends_differ_only_when_full<T: Element>(items: Seq<T>, capacity: nat, item: T)
    ensures
        with(items, Some(capacity), item) != with(items, None, item) <==> !items.contains(item)
            && items.len() >= capacity,
{
}

/// Looks for an item in a list.
fn list_contains<T: Element>(list: &Vec<T>, item: &T) -> (r: bool)
    ensures
        r == list@.contains(*item),
{
    let mut i: usize = 0;
    while i < list.len()
        invariant
            i <= list.len(),
            forall|j: int| 0 <= j < i ==> list@[j] != *item,
        decreases list.len() - i,
    {
        if list[i].same(item) {
            return true;
        }
        i += 1;
    }
    false
}

/// Writes the document of a list of items.
fn list_to_json<T: Element>(list: &Vec<T>) -> (r: JsonValue)
    ensures
        r@ == json(list@),
{
    let mut items: Vec<JsonValue> = Vec::new();
    let mut i: usize = 0;
    while i < list.len()
        invariant
            i <= list.len(),
            spec_items(items@) == documents(list@.take(i as int)),
        decreases list.len() - i,
    {
        let item = list[i].to_json();
        proof {
            assert(documents(list@.take(i as int + 1)) =~= documents(list@.take(i as int)).push(
                list@[i as int].json(),
            ));
        }
        items.push(item);
        i += 1;
    }
    assert(list@.take(i as int) =~= list@);
    JsonValue::array(items)
}

/// A set of distinct items that grows as needed.
#[derive(Debug)]
pub struct OutputSet<T: Element> {
    list: Vec<T>,
}

impl<T: Element> View for OutputSet<T> {
    type V = Seq<T>;

    closed spec fn view(&self) -> Seq<T> {
        self.list@
    }
}

impl<T: Element> OutputSet<T> {
    /// No item occurs twice.
    pub open spec fn wf(&self) -> bool {
        unique(self@)
    }

    /// An empty set.
    pub fn new() -> (r: Self)
        ensures
            r.wf(),
            r@ == Seq::<T>::empty(),
    {
        OutputSet { list: Vec::new() }
    }

    /// A set of one item.
    pub fn init(item: T) -> (r: Self)
        ensures
            r.wf(),
            r@ == seq![item],
    {
        let mut list = Vec::new();
        list.push(item);
        OutputSet { list }
    }

    /// The number of items.
    pub fn len(&self) -> (n: usize)
        ensures
            n == self@.len(),
    {
        self.list.len()
    }

    /// Checks whether the set is empty.
    pub fn is_empty(&self) -> (r: bool)
        ensures
            r == (self@.len() == 0),
    {
        self.list.len() == 0
    }

    /// Checks whether the item is in the set.
    pub fn contains(&self, item: T) -> (r: bool)
        ensures
            r == self@.contains(item),
    {
        list_contains(&self.list, &item)
    }

    /// The item at a place in the order of the set.
    pub fn get(&self, index: usize) -> (r: Option<T>)
        ensures
            r == if index < self@.len() {
                Some(self@[index as int])
            } else {
                None
            },
    {
        if index < self.list.len() {
            Some(self.list[index])
        } else {
            None
        }
    }

    /// Inserts an item and says whether the set changed: an item that is
    /// present is not added again.
    pub fn insert(&mut self, item: T) -> (changed: bool)
        requires
            old(self).wf(),
        ensures
            final(self).wf(),
            changed == !old(self)@.contains(item),
            final(self)@ == inserted(old(self)@, item),
    {
        if list_contains(&self.list, &item) {
            false
        } else {
            self.list.push(item);
            true
        }
    }

    /// The set with the item in it.
    pub fn with(self, item: T) -> (r: Self)
        requires
            self.wf(),
        ensures
            r.wf(),
            r@ == inserted(self@, item),
    {
        let mut set = self;
        set.insert(item);
        set
    }

    /// The set with every item of the list in it.
    pub fn with_all(self, items: &[T]) -> (r: Self)
        requires
            self.wf(),
        ensures
            r.wf(),
            r@ == inserted_all(self@, items@),
    {
        let mut set = self;
        let mut i: usize = 0;
        while i < items.len()
            invariant
                i <= items.len(),
                set.wf(),
                set@ == inserted_all(self@, items@.take(i as int)),
            decreases items.len() - i,
        {
            set.insert(items[i]);
            proof {
                let next = items@.take(i as int + 1);
                assert(next.drop_last() =~= items@.take(i as int));
            }
            i += 1;
        }
        assert(items@.take(i as int) =~= items@);
        set
    }

    /// The document of the set: the documents of its items in the order of
    /// the set; an empty set gives an empty list.
    pub fn to_json(&self) -> (r: JsonValue)
        ensures
            r@ == json(self@),
    {
        list_to_json(&self.list)
    }

    /// Reads a set from a document: a list of items, which are inserted in
    /// their order. A document that holds no item makes the whole list
    /// unreadable.
    pub fn from_json(document: &JsonValue) -> (r: Option<Self>)
        ensures
            r is Some <==> spec_read::<T>(document@) is Some,
            r is Some ==> r->Some_0.wf() && r->Some_0@ == spec_read::<T>(document@)->Some_0,
    {
        let items = match document.as_array() {
            Some(items) => items,
            None => { return None; },
        };
        let mut set = Self::new();
        let mut i: usize = 0;
        while i < items.len()
            invariant
                i <= items.len(),
                document@ == Json::Array(spec_items(items@)),
                set.wf(),
                spec_read_all::<T>(spec_items(items@).take(i as int)) == Some(set@),
            decreases items.len() - i,
        {
            let ghost so_far = spec_items(items@).take(i as int);
            let ghost next = spec_items(items@).take(i as int + 1);
            proof {
                assert(next.drop_last() =~= so_far);
            }
            match T::from_json(&items[i]) {
                Some(item) => {
                    set.insert(item);
                },
                None => {
                    proof {
                        lemma_unreadable_prefix::<T>(spec_items(items@), i as int + 1);
                    }
                    return None;
                },
            }
            i += 1;
        }
        assert(spec_items(items@).take(i as int) =~= spec_items(items@));
        Some(set)
    }
}

/// A set of distinct items that holds `N` items at most.
#[derive(Debug)]
pub struct SerialSet<T: Element, const N: usize> {
    list: Vec<T>,
}

impl<T: Element, const N: usize> View for SerialSet<T, N> {
    type V = Seq<T>;

    closed spec fn view(&self) -> Seq<T> {
        self.list@
    }
}

impl<T: Element, const N: usize> SerialSet<T, N> {
    /// No item occurs twice, and at most `N` items are held.
    pub open spec fn wf(&self) -> bool {
        unique(self@) && self@.len() <= N
    }

    /// An empty set.
    pub fn new() -> (r: Self)
        ensures
            r.wf(),
            r@ == Seq::<T>::empty(),
    {
        SerialSet { list: Vec::new() }
    }

    /// The number of items that the set can hold.
    pub fn capacity(&self) -> (n: usize)
        ensures
            n == N,
    {
        N
    }

    /// The number of items.
    pub fn len(&self) -> (n: usize)
        ensures
            n == self@.len(),
    {
        self.list.len()
    }

    /// Checks whether the set is empty.
    pub fn is_empty(&self) -> (r: bool)
        ensures
            r == (self@.len() == 0),
    {
        self.list.len() == 0
    }

    /// Checks whether the item is in the set.
    pub fn contains(&self, item: T) -> (r: bool)
        ensures
            r == self@.contains(item),
    {
        list_contains(&self.list, &item)
    }

    /// The item at a place in the order of the set.
    pub fn get(&self, index: usize) -> (r: Option<T>)
        ensures
            r == if index < self@.len() {
                Some(self@[index as int])
            } else {
                None
            },
    {
        if index < self.list.len() {
            Some(self.list[index])
        } else {
            None
        }
    }

    /// Inserts an item and says whether the set changed: an item that is
    /// present is not added again. A new item for a set that holds `N`
    /// items is refused and leaves the set as it was.
    pub fn insert(&mut self, item: T) -> (r: Result<bool, Error>)
        requires
            old(self).wf(),
        ensures
            final(self).wf(),
            match with(old(self)@, Some(N as nat), item) {
                Ok(items) => final(self)@ == items && r == Ok::<bool, Error>(
                    !old(self)@.contains(item),
                ),
                Err(e) => final(self)@ == old(self)@ && r == Err::<bool, Error>(e),
            },
    {
        if list_contains(&self.list, &item) {
            Ok(false)
        } else if self.list.len() >= N {
            Err(Error::CapacityExceeded)
        } else {
            self.list.push(item);
            Ok(true)
        }
    }

    /// The growable set with the same items in the same order.
    pub fn into_output(self) -> (r: OutputSet<T>)
        requires
            self.wf(),
        ensures
            r.wf(),
            r@ == self@,
    {
        OutputSet { list: self.list }
    }

    /// The document of the set: the documents of its items in the order of
    /// the set; an empty set gives an empty list.
    pub fn to_json(&self) -> (r: JsonValue)
        ensures
            r@ == json(self@),
    {
        list_to_json(&self.list)
    }
}

} // verus!
