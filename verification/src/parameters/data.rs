//! The growable parameter map, which also is the form in which parameters
//! are written into a manifest.
use vstd::prelude::*;
use crate::error::Error;
use crate::json::{JsonValue, Members};
use crate::parameters::entries;
use crate::parameters::kind::{Kind, ParameterKind};
use crate::text::{owned, str_eq};

verus! {

/// The model of a list of stored parameters.
pub open spec fn spec_entries(list: Seq<(String, ParameterKind)>) -> Seq<(Seq<char>, Kind)> {
    Seq::new(list.len(), |i: int| (list[i].0@, list[i].1@))
}

/// A map of parameters that grows as needed.
///
/// Parameters keep the order in which their names were first inserted;
/// inserting a name again replaces its kind.
#[derive(Debug)]
pub struct ParametersData {
    list: Vec<(String, ParameterKind)>,
}

impl View for ParametersData {
    type V = Seq<(Seq<char>, Kind)>;

    closed spec fn view(&self) -> Seq<(Seq<char>, Kind)> {
        spec_entries(self.list@)
    }
}

impl ParametersData {
    /// No name occurs twice and every range is valid.
    pub open spec fn wf(&self) -> bool {
        entries::well_formed(self@)
    }

    /// An empty map.
    pub fn new() -> (r: Self)
        ensures
            r.wf(),
            r@ == Seq::<(Seq<char>, Kind)>::empty(),
    {
        let r = ParametersData { list: Vec::new() };
        r
    }

    /// The number of parameters.
    pub fn len(&self) -> (n: usize)
        ensures
            n == self@.len(),
    {
        self.list.len()
    }

    /// Checks whether the map holds no parameter.
    pub fn is_empty(&self) -> (r: bool)
        ensures
            r == (self@.len() == 0),
    {
        self.list.len() == 0
    }

    /// The place of a name, if it is present.
    pub fn index_of(&self, name: &str) -> (r: Option<usize>)
        ensures
            r is Some <==> entries::contains(self@, name@),
            r is Some ==> r->Some_0 < self@.len() && self@[r->Some_0 as int].0 == name@,
    {
        let mut i: usize = 0;
        while i < self.list.len()
            invariant
                i <= self.list.len(),
                forall|j: int| 0 <= j < i ==> (#[trigger] self@[j]).0 != name@,
            decreases self.list.len() - i,
        {
            if str_eq(self.list[i].0.as_str(), name) {
                assert(self@[i as int].0 == name@);
                return Some(i);
            }
            i += 1;
        }
        None
    }

    /// Checks whether a parameter of this name is present.
    pub fn contains(&self, name: &str) -> (r: bool)
        ensures
            r == entries::contains(self@, name@),
    {
        self.index_of(name).is_some()
    }

    /// The kind of the parameter of this name, if it is present.
    pub fn get(&self, name: &str) -> (r: Option<&ParameterKind>)
        requires
            self.wf(),
        ensures
            r is Some <==> entries::contains(self@, name@),
            r is Some ==> r->Some_0@ == self@[entries::position(self@, name@)].1,
    {
        match self.index_of(name) {
            Some(i) => {
                Some(&self.list[i].1)
            },
            None => None,
        }
    }

    /// The name and kind at a place in the order of the map.
    pub fn entry(&self, index: usize) -> (r: Option<(&str, &ParameterKind)>)
        ensures
            r is Some <==> index < self@.len(),
            r is Some ==> r->Some_0.0@ == self@[index as int].0 && r->Some_0.1@
                == self@[index as int].1,
    {
        if index < self.list.len() {
            Some((self.list[index].0.as_str(), &self.list[index].1))
        } else {
            None
        }
    }

    /// Inserts a parameter. A name that is present keeps its place and gets
    /// the new kind; the result then is `true`. An invalid range is refused
    /// and leaves the map as it was.
    pub fn insert(&mut self, name: &str, kind: ParameterKind) -> (r: Result<bool, Error>)
        requires
            old(self).wf(),
        ensures
            final(self).wf(),
            match entries::refusal(old(self)@, None, name@, kind@) {
                Some(e) => r == Err::<bool, Error>(e) && final(self)@ == old(self)@,
                None => r == Ok::<bool, Error>(entries::contains(old(self)@, name@))
                    && final(self)@ == entries::inserted(old(self)@, name@, kind@),
            },
    {
        if !kind.is_valid() {
            return Err(Error::InvalidParameterRange);
        }
        match self.index_of(name) {
            Some(i) => {
                self.list.set(i, (owned(name), kind));
                assert(self@ =~= entries::inserted(old(self)@, name@, kind@));
                Ok(true)
            },
            None => {
                self.list.push((owned(name), kind));
                assert(self@ =~= entries::inserted(old(self)@, name@, kind@));
                Ok(false)
            },
        }
    }

    /// What a builder step returned, by its contents.
    pub open spec fn outcome(r: Result<Self, Error>) -> Result<Seq<(Seq<char>, Kind)>, Error> {
        match r {
            Ok(parameters) => Ok(parameters@),
            Err(e) => Err(e),
        }
    }

    /// Inserts a parameter and hands the map on, or says why it cannot.
    fn create_parameter(self, name: &str, parameter_kind: ParameterKind) -> (r: Result<
        Self,
        Error,
    >)
        requires
            self.wf(),
        ensures
            Self::outcome(r) == entries::with(self@, None, name@, parameter_kind@),
            r is Ok ==> r->Ok_0.wf(),
    {
        let mut parameters = self;
        match parameters.insert(name, parameter_kind) {
            Ok(_) => Ok(parameters),
            Err(e) => Err(e),
        }
    }

    /// Adds a [`bool`] parameter.
    pub fn bool(self, name: &str, default: bool) -> (r: Result<Self, Error>)
        requires
            self.wf(),
        ensures
            Self::outcome(r) == entries::with(self@, None, name@, (Kind::Bool { default })),
            r is Ok ==> r->Ok_0.wf(),
    {
        self.create_parameter(name, ParameterKind::Bool { default })
    }

    /// Adds an [`u8`] parameter.
    pub fn u8(self, name: &str, default: u8) -> (r: Result<Self, Error>)
        requires
            self.wf(),
        ensures
            Self::outcome(r) == entries::with(self@, None, name@, (Kind::U8 { default })),
            r is Ok ==> r->Ok_0.wf(),
    {
        self.create_parameter(name, ParameterKind::U8 { default })
    }

    /// Adds an [`u16`] parameter.
    pub fn u16(self, name: &str, default: u16) -> (r: Result<Self, Error>)
        requires
            self.wf(),
        ensures
            Self::outcome(r) == entries::with(self@, None, name@, (Kind::U16 { default })),
            r is Ok ==> r->Ok_0.wf(),
    {
        self.create_parameter(name, ParameterKind::U16 { default })
    }

    /// Adds an [`u32`] parameter.
    pub fn u32(self, name: &str, default: u32) -> (r: Result<Self, Error>)
        requires
            self.wf(),
        ensures
            Self::outcome(r) == entries::with(self@, None, name@, (Kind::U32 { default })),
            r is Ok ==> r->Ok_0.wf(),
    {
        self.create_parameter(name, ParameterKind::U32 { default })
    }

    /// Adds an [`u64`] parameter.
    pub fn u64(self, name: &str, default: u64) -> (r: Result<Self, Error>)
        requires
            self.wf(),
        ensures
            Self::outcome(r) == entries::with(self@, None, name@, (Kind::U64 { default })),
            r is Ok ==> r->Ok_0.wf(),
    {
        self.create_parameter(name, ParameterKind::U64 { default })
    }

    /// Adds a single-precision parameter, given by the bits of its
    /// default.
    pub fn float32(self, name: &str, default: u32) -> (r: Result<Self, Error>)
        requires
            self.wf(),
        ensures
            Self::outcome(r) == entries::with(self@, None, name@, (Kind::F32 { default })),
            r is Ok ==> r->Ok_0.wf(),
    {
        self.create_parameter(name, ParameterKind::F32 { default })
    }

    /// Adds a double-precision parameter, given by the bits of its
    /// default.
    pub fn float64(self, name: &str, default: u64) -> (r: Result<Self, Error>)
        requires
            self.wf(),
        ensures
            Self::outcome(r) == entries::with(self@, None, name@, (Kind::F64 { default })),
            r is Ok ==> r->Ok_0.wf(),
    {
        self.create_parameter(name, ParameterKind::F64 { default })
    }

    /// Adds an [`u64`] range `(min, max, step)` with the default 0, which
    /// the range has to hold.
    pub fn rangeu64(self, name: &str, range: (u64, u64, u64)) -> (r: Result<Self, Error>)
        requires
            self.wf(),
        ensures
            Self::outcome(r) == entries::with(self@, None, name@, Kind::range_u64(range, 0)),
            r is Ok ==> r->Ok_0.wf(),
    {
        self.create_parameter(name, ParameterKind::range_u64_of(range, 0))
    }

    /// Adds an [`u64`] range `(min, max, step)` with a default value.
    ///
    /// It is refused unless `min <= default <= max` and `step > 0`.
    pub fn rangeu64_with_default(
        self,
        name: &str,
        range: (u64, u64, u64),
        default: u64,
    ) -> (r: Result<Self, Error>)
        requires
            self.wf(),
        ensures
            Self::outcome(r) == entries::with(self@, None, name@, Kind::range_u64(range, default)),
            r is Ok ==> r->Ok_0.wf(),
    {
        self.create_parameter(name, ParameterKind::range_u64_of(range, default))
    }

    /// Adds a range `(min, max, step)` of double-precision numbers, each
    /// given by its bits, with the default zero, which the range has to
    /// hold.
    pub fn rangef64(self, name: &str, range: (u64, u64, u64)) -> (r: Result<Self, Error>)
        requires
            self.wf(),
        ensures
            Self::outcome(r) == entries::with(self@, None, name@, Kind::range_f64(range, 0)),
            r is Ok ==> r->Ok_0.wf(),
    {
        self.create_parameter(name, ParameterKind::range_f64_of(range, 0))
    }

    /// Adds a range `(min, max, step)` of double-precision numbers with a
    /// default value, each given by its bits.
    ///
    /// It is refused unless `min <= default <= max` and `step > 0` as
    /// numbers.
    pub fn rangef64_with_default(
        self,
        name: &str,
        range: (u64, u64, u64),
        default: u64,
    ) -> (r: Result<Self, Error>)
        requires
            self.wf(),
        ensures
            Self::outcome(r) == entries::with(self@, None, name@, Kind::range_f64(range, default)),
            r is Ok ==> r->Ok_0.wf(),
    {
        self.create_parameter(name, ParameterKind::range_f64_of(range, default))
    }

    /// Adds a sequence of characters with its initial text.
    pub fn char_sequence(self, name: &str, default: &str) -> (r: Result<Self, Error>)
        requires
            self.wf(),
        ensures
            Self::outcome(r) == entries::with(
                self@,
                None,
                name@,
                (Kind::CharSequence { default: default@ }),
            ),
            r is Ok ==> r->Ok_0.wf(),
    {
        self.create_parameter(name, ParameterKind::char_sequence(default))
    }

    /// The document of the map: one member for each parameter, in the order
    /// of the map; an empty map gives an empty object.
    pub fn to_json(&self) -> (r: JsonValue)
        ensures
            r@ == entries::json(self@),
    {
        let mut members = Members::new();
        let mut i: usize = 0;
        while i < self.list.len()
            invariant
                i <= self.list.len(),
                members@ == entries::members(self@.take(i as int)),
            decreases self.list.len() - i,
        {
            let value = self.list[i].1.to_json();
            members = members.with(self.list[i].0.as_str(), value);
            i += 1;
        }
        assert(self@.take(i as int) =~= self@);
        members.finish()
    }
}

} // verus!
