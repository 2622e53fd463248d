//! The parameter map of fixed capacity.
//!
//! The map keeps its parameters in a fixed-capacity insertion-ordered hash
//! table of the `heapless` crate, which allocates nothing. What that table
//! does is stated here and not proved; everything built on it is.
use vstd::prelude::*;
use crate::error::Error;
use crate::json::{JsonValue, Members};
use crate::parameters::data::ParametersData;
use crate::parameters::entries;
use crate::parameters::kind::{Kind, ParameterKind};
use crate::text::str_eq;

verus! {

/// The fixed-capacity insertion-ordered hash table `heapless::index_map::IndexMap`,
/// known to the verifier by name only.
#[verifier::external_type_specification]
#[verifier::external_body]
#[verifier::reject_recursive_types(K)]
#[verifier::reject_recursive_types(V)]
#[verifier::reject_recursive_types(S)]
pub struct ExIndexMap<K, V, S, const N: usize>(heapless::index_map::IndexMap<K, V, S, N>);

/// The hasher factory `hash32::BuildHasherDefault` that the table is made
/// with, known to the verifier by name only.
#[verifier::external_type_specification]
#[verifier::external_body]
#[verifier::reject_recursive_types(H)]
pub struct ExBuildHasherDefault<H>(hash32::BuildHasherDefault<H>);

/// The hasher `hash32::FnvHasher`, known to the verifier by name only.
#[verifier::external_type_specification]
#[verifier::external_body]
pub struct ExFnvHasher(hash32::FnvHasher);

/// The number of slots of the table that backs every bounded parameter map.
pub const STORE_CAPACITY: usize = 8;

/// What a table holds: its keys, each with the model of its value, in the
/// order in which the table hands them out, which is the order of first
/// insertion.
pub uninterp spec fn stored_entries(
    store: heapless::index_map::FnvIndexMap<&'static str, ParameterKind, 8>,
) -> Seq<(Seq<char>, Kind)>;

/// Calls `IndexMap::new`: the new table holds nothing.
#[verifier::external_body]
fn store_new() -> (store: heapless::index_map::FnvIndexMap<&'static str, ParameterKind, 8>)
    ensures
        stored_entries(store) == Seq::<(Seq<char>, Kind)>::empty(),
{
    heapless::index_map::FnvIndexMap::new()
}

/// Calls `IndexMap::len`: the number of entries.
#[verifier::external_body]
fn store_len(store: &heapless::index_map::FnvIndexMap<&'static str, ParameterKind, 8>) -> (n: usize)
    ensures
        n == stored_entries(*store).len(),
{
    store.len()
}

/// Calls `IndexMap::get_index`: the key and the value at a place in the
/// order of the table, and nothing for a place past its end.
#[verifier::external_body]
fn store_get_index<'a>(
    store: &'a heapless::index_map::FnvIndexMap<&'static str, ParameterKind, 8>,
    index: usize,
) -> (r: Option<(&'static str, &'a ParameterKind)>)
    ensures
        r is Some <==> index < stored_entries(*store).len(),
        r is Some ==> r->Some_0.0@ == stored_entries(*store)[index as int].0 && r->Some_0.1@
            == stored_entries(*store)[index as int].1,
{
    store.get_index(index).map(|(name, kind)| (*name, kind))
}

/// Calls `IndexMap::insert`. A key that is present keeps its place, gets the
/// new value, and the value it had comes back. A new key goes to the end
/// while fewer than eight entries are held. With eight entries held a new
/// key is handed back with its value, and the table stays as it was.
#[verifier::external_body]
fn store_insert(
    store: &mut heapless::index_map::FnvIndexMap<&'static str, ParameterKind, 8>,
    name: &'static str,
    kind: ParameterKind,
) -> (r: Result<Option<ParameterKind>, (&'static str, ParameterKind)>)
    ensures
        ({
            let before = stored_entries(*old(store));
            let after = stored_entries(*final(store));
            match r {
                Ok(Some(previous)) => exists|i: int|
                    0 <= i < before.len() && (#[trigger] before[i]).0 == name@ && previous@
                        == before[i].1 && after == before.update(i, (name@, kind@)),
                Ok(None) => !entries::contains(before, name@) && before.len() < 8 && after
                    == before.push((name@, kind@)),
                Err(refused) => !entries::contains(before, name@) && before.len() >= 8 && after
                    == before && refused.0@ == name@ && refused.1@ == kind@,
            }
        }),
{
    store.insert(name, kind)
}

/// Route input parameters in a map of capacity `N`, at most
/// [`STORE_CAPACITY`].
///
/// Parameters keep the order in which their names were first inserted;
/// inserting a name again replaces its kind. A new name for a full map is
/// refused.
pub struct Parameters<const N: usize> {
    store: heapless::index_map::FnvIndexMap<&'static str, ParameterKind, 8>,
}

impl<const N: usize> View for Parameters<N> {
    type V = Seq<(Seq<char>, Kind)>;

    closed spec fn view(&self) -> Seq<(Seq<char>, Kind)> {
        stored_entries(self.store)
    }
}

impl Parameters<2> {
    /// Creates [`Parameters`] for one parameter.
    pub fn one() -> (r: Self)
        ensures
            r.wf(),
            r@.len() == 0,
    {
        Self::new()
    }

    /// Creates [`Parameters`] for two parameters.
    pub fn two() -> (r: Self)
        ensures
            r.wf(),
            r@.len() == 0,
    {
        Self::new()
    }
}

impl Parameters<4> {
    /// Creates [`Parameters`] for three parameters.
    pub fn three() -> (r: Self)
        ensures
            r.wf(),
            r@.len() == 0,
    {
        Self::new()
    }

    /// Creates [`Parameters`] for four parameters.
    pub fn four() -> (r: Self)
        ensures
            r.wf(),
            r@.len() == 0,
    {
        Self::new()
    }
}

impl Parameters<8> {
    /// Creates [`Parameters`] for five parameters.
    pub fn five() -> (r: Self)
        ensures
            r.wf(),
            r@.len() == 0,
    {
        Self::new()
    }

    /// Creates [`Parameters`] for six parameters.
    pub fn six() -> (r: Self)
        ensures
            r.wf(),
            r@.len() == 0,
    {
        Self::new()
    }

    /// Creates [`Parameters`] for seven parameters.
    pub fn seven() -> (r: Self)
        ensures
            r.wf(),
            r@.len() == 0,
    {
        Self::new()
    }

    /// Creates [`Parameters`] for eight parameters.
    pub fn eight() -> (r: Self)
        ensures
            r.wf(),
            r@.len() == 0,
    {
        Self::new()
    }
}

impl<const N: usize> Parameters<N> {
    /// No name occurs twice, every range is valid, and at most `N`
    /// parameters are held.
    pub open spec fn wf(&self) -> bool {
        N <= STORE_CAPACITY && entries::well_formed(self@) && self@.len() <= N
    }

    pub(crate) fn new() -> (r: Self)
        requires
            N <= STORE_CAPACITY,
        ensures
            r.wf(),
            r@.len() == 0,
    {
        Parameters { store: store_new() }
    }

    /// The number of parameters that the map can hold.
    pub fn capacity(&self) -> (n: usize)
        ensures
            n == N,
    {
        N
    }

    /// The number of parameters.
    pub fn len(&self) -> (n: usize)
        ensures
            n == self@.len(),
    {
        store_len(&self.store)
    }

    /// Checks whether the map holds no parameter.
    pub fn is_empty(&self) -> (r: bool)
        ensures
            r == (self@.len() == 0),
    {
        store_len(&self.store) == 0
    }

    /// The place of a name, if it is present.
    pub fn index_of(&self, name: &str) -> (r: Option<usize>)
        ensures
            r is Some <==> entries::contains(self@, name@),
            r is Some ==> r->Some_0 < self@.len() && self@[r->Some_0 as int].0 == name@,
    {
        let n = store_len(&self.store);
        let mut i: usize = 0;
        while i < n
            invariant
                i <= n,
                n == self@.len(),
                forall|j: int| 0 <= j < i ==> (#[trigger] self@[j]).0 != name@,
            decreases n - i,
        {
            match store_get_index(&self.store, i) {
                Some((found, _)) => {
                    if str_eq(found, name) {
                        return Some(i);
                    }
                },
                None => {},
            }
            i += 1;
        }
        None
    }

    /// Checks whether a parameter of this name is present.
    pub fn contains(&self, name: &str) -> (r: bool)
        ensures
            r == entries::contains(self@, name@),
    {
        self.index_of(name).is_some()
    }

    /// The name and kind at a place in the order of the map.
    pub fn entry(&self, index: usize) -> (r: Option<(&'static str, &ParameterKind)>)
        ensures
            r is Some <==> index < self@.len(),
            r is Some ==> r->Some_0.0@ == self@[index as int].0 && r->Some_0.1@
                == self@[index as int].1,
    {
        store_get_index(&self.store, index)
    }

    /// The kind of the parameter of this name, if it is present.
    pub fn get(&self, name: &str) -> (r: Option<&ParameterKind>)
        requires
            self.wf(),
        ensures
            r is Some <==> entries::contains(self@, name@),
            r is Some ==> r->Some_0@ == self@[entries::position(self@, name@)].1,
    {
        match self.index_of(name) {
            Some(i) => {
                match store_get_index(&self.store, i) {
                    Some((_, kind)) => Some(kind),
                    None => None,
                }
            },
            None => None,
        }
    }

    /// The document of the map: one member for each parameter, in the order
    /// of the map; an empty map gives an empty object.
    pub fn to_json(&self) -> (r: JsonValue)
        ensures
            r@ == entries::json(self@),
    {
        let n = store_len(&self.store);
        let mut members = Members::new();
        let mut i: usize = 0;
        while i < n
            invariant
                i <= n,
                n == self@.len(),
                members@ == entries::members(self@.take(i as int)),
            decreases n - i,
        {
            match store_get_index(&self.store, i) {
                Some((name, kind)) => {
                    members = members.with(name, kind.to_json());
                },
                None => {},
            }
            i += 1;
        }
        assert(self@.take(i as int) =~= self@);
        members.finish()
    }

    /// Inserts a parameter. A name that is present keeps its place and gets
    /// the new kind; the result then is `true`. An invalid range is refused,
    /// and so is a new name for a map that holds `N` parameters; a refused
    /// insertion leaves the map as it was.
    pub fn insert(&mut self, name: &'static str, kind: ParameterKind) -> (r: Result<bool, Error>)
        requires
            old(self).wf(),
        ensures
            final(self).wf(),
            match entries::refusal(old(self)@, Some(N as nat), name@, kind@) {
                Some(e) => r == Err::<bool, Error>(e) && final(self)@ == old(self)@,
                None => r == Ok::<bool, Error>(entries::contains(old(self)@, name@))
                    && final(self)@ == entries::inserted(old(self)@, name@, kind@),
            },
    {
        if !kind.is_valid() {
            return Err(Error::InvalidParameterRange);
        }
        if !self.contains(name) && store_len(&self.store) >= N {
            return Err(Error::CapacityExceeded);
        }
        match store_insert(&mut self.store, name, kind) {
            Ok(Some(_)) => Ok(true),
            Ok(None) => Ok(false),
            Err(_) => Err(Error::CapacityExceeded),
        }
    }

    /// What a builder step returned, by its contents.
    pub open spec fn outcome(r: Result<Self, Error>) -> Result<Seq<(Seq<char>, Kind)>, Error> {
        match r {
            Ok(parameters) => Ok(parameters@),
            Err(e) => Err(e),
        }
    }

    /// Inserts a parameter and hands the map on, or says why it cannot.
    fn create_parameter(self, name: &'static str, parameter_kind: ParameterKind) -> (r: Result<
        Self,
        Error,
    >)
        requires
            self.wf(),
        ensures
            Self::outcome(r) == entries::with(self@, Some(N as nat), name@, parameter_kind@),
            r is Ok ==> r->Ok_0.wf(),
    {
        let mut parameters = self;
        match parameters.insert(name, parameter_kind) {
            Ok(_) => Ok(parameters),
            Err(e) => Err(e),
        }
    }

    /// Adds a [`bool`] parameter.
    pub fn bool(self, name: &'static str, default: bool) -> (r: Result<Self, Error>)
        requires
            self.wf(),
        ensures
            Self::outcome(r) == entries::with(
                self@,
                Some(N as nat),
                name@,
                (Kind::Bool { default }),
            ),
            r is Ok ==> r->Ok_0.wf(),
    {
        self.create_parameter(name, ParameterKind::Bool { default })
    }

    /// Adds an [`u8`] parameter.
    pub fn u8(self, name: &'static str, default: u8) -> (r: Result<Self, Error>)
        requires
            self.wf(),
        ensures
            Self::outcome(r) == entries::with(self@, Some(N as nat), name@, (Kind::U8 { default })),
            r is Ok ==> r->Ok_0.wf(),
    {
        self.create_parameter(name, ParameterKind::U8 { default })
    }

    /// Adds an [`u16`] parameter.
    pub fn u16(self, name: &'static str, default: u16) -> (r: Result<Self, Error>)
        requires
            self.wf(),
        ensures
            Self::outcome(r) == entries::with(
                self@,
                Some(N as nat),
                name@,
                (Kind::U16 { default }),
            ),
            r is Ok ==> r->Ok_0.wf(),
    {
        self.create_parameter(name, ParameterKind::U16 { default })
    }

    /// Adds an [`u32`] parameter.
    pub fn u32(self, name: &'static str, default: u32) -> (r: Result<Self, Error>)
        requires
            self.wf(),
        ensures
            Self::outcome(r) == entries::with(
                self@,
                Some(N as nat),
                name@,
                (Kind::U32 { default }),
            ),
            r is Ok ==> r->Ok_0.wf(),
    {
        self.create_parameter(name, ParameterKind::U32 { default })
    }

    /// Adds an [`u64`] parameter.
    pub fn u64(self, name: &'static str, default: u64) -> (r: Result<Self, Error>)
        requires
            self.wf(),
        ensures
            Self::outcome(r) == entries::with(
                self@,
                Some(N as nat),
                name@,
                (Kind::U64 { default }),
            ),
            r is Ok ==> r->Ok_0.wf(),
    {
        self.create_parameter(name, ParameterKind::U64 { default })
    }

    /// Adds a single-precision parameter, given by the bits of its
    /// default.
    pub fn float32(self, name: &'static str, default: u32) -> (r: Result<Self, Error>)
        requires
            self.wf(),
        ensures
            Self::outcome(r) == entries::with(
                self@,
                Some(N as nat),
                name@,
                (Kind::F32 { default }),
            ),
            r is Ok ==> r->Ok_0.wf(),
    {
        self.create_parameter(name, ParameterKind::F32 { default })
    }

    /// Adds a double-precision parameter, given by the bits of its
    /// default.
    pub fn float64(self, name: &'static str, default: u64) -> (r: Result<Self, Error>)
        requires
            self.wf(),
        ensures
            Self::outcome(r) == entries::with(
                self@,
                Some(N as nat),
                name@,
                (Kind::F64 { default }),
            ),
            r is Ok ==> r->Ok_0.wf(),
    {
        self.create_parameter(name, ParameterKind::F64 { default })
    }

    /// Adds an [`u64`] range `(min, max, step)` with the default 0, which
    /// the range has to hold.
    pub fn rangeu64(self, name: &'static str, range: (u64, u64, u64)) -> (r: Result<Self, Error>)
        requires
            self.wf(),
        ensures
            Self::outcome(r) == entries::with(
                self@,
                Some(N as nat),
                name@,
                Kind::range_u64(range, 0),
            ),
            r is Ok ==> r->Ok_0.wf(),
    {
        self.create_parameter(name, ParameterKind::range_u64_of(range, 0))
    }

    /// Adds an [`u64`] range `(min, max, step)` with a default value.
    ///
    /// It is refused unless `min <= default <= max` and `step > 0`.
    pub fn rangeu64_with_default(
        self,
        name: &'static str,
        range: (u64, u64, u64),
        default: u64,
    ) -> (r: Result<Self, Error>)
        requires
            self.wf(),
        ensures
            Self::outcome(r) == entries::with(
                self@,
                Some(N as nat),
                name@,
                Kind::range_u64(range, default),
            ),
            r is Ok ==> r->Ok_0.wf(),
    {
        self.create_parameter(name, ParameterKind::range_u64_of(range, default))
    }

    /// Adds a range `(min, max, step)` of double-precision numbers, each
    /// given by its bits, with the default zero, which the range has to
    /// hold.
    pub fn rangef64(self, name: &'static str, range: (u64, u64, u64)) -> (r: Result<Self, Error>)
        requires
            self.wf(),
        ensures
            Self::outcome(r) == entries::with(
                self@,
                Some(N as nat),
                name@,
                Kind::range_f64(range, 0),
            ),
            r is Ok ==> r->Ok_0.wf(),
    {
        self.create_parameter(name, ParameterKind::range_f64_of(range, 0))
    }

    /// Adds a range `(min, max, step)` of double-precision numbers with a
    /// default value, each given by its bits.
    ///
    /// It is refused unless `min <= default <= max` and `step > 0` as
    /// numbers.
    pub fn rangef64_with_default(
        self,
        name: &'static str,
        range: (u64, u64, u64),
        default: u64,
    ) -> (r: Result<Self, Error>)
        requires
            self.wf(),
        ensures
            Self::outcome(r) == entries::with(
                self@,
                Some(N as nat),
                name@,
                Kind::range_f64(range, default),
            ),
            r is Ok ==> r->Ok_0.wf(),
    {
        self.create_parameter(name, ParameterKind::range_f64_of(range, default))
    }

    /// Adds a sequence of characters with its initial text.
    pub fn char_sequence(self, name: &'static str, default: &str) -> (r: Result<Self, Error>)
        requires
            self.wf(),
        ensures
            Self::outcome(r) == entries::with(
                self@,
                Some(N as nat),
                name@,
                (Kind::CharSequence { default: default@ }),
            ),
            r is Ok ==> r->Ok_0.wf(),
    {
        self.create_parameter(name, ParameterKind::char_sequence(default))
    }

    /// The growable map with the same parameters in the same order.
    ///
    /// It consumes the data.
    pub fn serialize_data(self) -> (r: ParametersData)
        requires
            self.wf(),
        ensures
            r.wf(),
            r@ == self@,
    {
        let mut data = ParametersData::new();
        let mut i: usize = 0;
        let n = store_len(&self.store);
        while i < n
            invariant
                i <= n,
                n == self@.len(),
                self.wf(),
                data.wf(),
                data@ == self@.take(i as int),
            decreases n - i,
        {
            match store_get_index(&self.store, i) {
                Some((name, kind)) => {
                    assert(!entries::contains(self@.take(i as int), name@));
                    let _ = data.insert(name, kind.clone());
                },
                None => {},
            }
            i += 1;
        }
        data
    }
}

} // verus!
