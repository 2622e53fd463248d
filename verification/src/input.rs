//! Inputs of an action: a name together with the kind of value that the
//! action expects under it.
use vstd::prelude::*;
use crate::error::Error;
use crate::json::{Json, JsonValue, Members};
use crate::parameters::kind::{Kind, ParameterKind};
use crate::parameters::reading;
use crate::text::{owned, str_eq};

verus! {

/// The structure of an input is a parameter kind.
pub type InputStructure = ParameterKind;

/// The members of the document of an input.
pub open spec fn spec_members(name: Seq<char>, structure: Kind) -> Seq<(Seq<char>, Json)> {
    seq![("name"@, Json::Text(name)), ("structure"@, structure.json())]
}

/// The document of an input: its name and its structure.
pub open spec fn spec_json(name: Seq<char>, structure: Kind) -> Json {
    Json::Object(spec_members(name, structure))
}

/// The name and the structure that a document holds, if it holds both.
pub open spec fn spec_from_json(document: Json) -> Option<(Seq<char>, Kind)> {
    match (document.member("name"@), document.member("structure"@)) {
        (Some(Json::Text(name)), Some(structure)) => match reading::spec_kind(structure) {
            Some(kind) => Some((name, kind)),
            None => None,
        },
        _ => None,
    }
}

/// Reading the document of an input gives name and structure back.
pub proof fn law_input_round_trip(name: Seq<char>, structure: Kind)
    ensures
        spec_from_json(spec_json(name, structure)) == Some((name, structure)),
{
    reveal_strlit("name");
    reveal_strlit("structure");
    reveal_with_fuel(crate::json::spec_first_named, 3);
    assert("name"@.len() == 4 && "structure"@.len() == 9);
    reading::law_kind_round_trip(structure);
}

/// All supported inputs.
///
/// Two inputs with the same name are the same input.
#[derive(Debug)]
pub struct Input {
    name: &'static str,
    structure: InputStructure,
}

impl Input {
    /// The name by its characters.
    pub closed spec fn spec_name(&self) -> Seq<char> {
        self.name@
    }

    /// The structure.
    pub closed spec fn spec_structure(&self) -> Kind {
        self.structure@
    }

    /// Returns [`Input`] name.
    pub fn name(&self) -> (r: &str)
        ensures
            r@ == self.spec_name(),
    {
        self.name
    }

    /// Returns the structure of the [`Input`].
    pub fn structure(&self) -> (r: &InputStructure)
        ensures
            r@ == self.spec_structure(),
    {
        &self.structure
    }

    /// Creates a [`bool`] input.
    pub fn bool(name: &'static str, default: bool) -> (r: Self)
        ensures
            r.spec_name() == name@,
            r.spec_structure() == (Kind::Bool { default }),
    {
        Self { name, structure: InputStructure::Bool { default } }
    }

    /// Creates an [`u8`] input.
    pub fn u8(name: &'static str, default: u8) -> (r: Self)
        ensures
            r.spec_name() == name@,
            r.spec_structure() == (Kind::U8 { default }),
    {
        Self { name, structure: InputStructure::U8 { default } }
    }

    /// Creates an [`u64`] range with the default 0, which the range has to
    /// hold.
    pub fn rangeu64(name: &'static str, range: (u64, u64, u64)) -> (r: Result<Self, Error>)
        ensures
            r is Ok <==> (Kind::RangeU64 {
                min: range.0,
                max: range.1,
                step: range.2,
                default: 0,
            }).valid(),
            r is Ok ==> r->Ok_0.spec_name() == name@ && r->Ok_0.spec_structure()
                == (Kind::RangeU64 { min: range.0, max: range.1, step: range.2, default: 0 }),
            r is Err ==> r->Err_0 == Error::InvalidParameterRange,
    {
        Self::rangeu64_with_default(name, range, 0)
    }

    /// Creates an [`u64`] range `(min, max, step)` with a default value, if
    /// `min <= default <= max` and `step > 0`.
    pub fn rangeu64_with_default(name: &'static str, range: (u64, u64, u64), default: u64) -> (r:
        Result<Self, Error>)
        ensures
            r is Ok <==> (Kind::RangeU64 {
                min: range.0,
                max: range.1,
                step: range.2,
                default,
            }).valid(),
            r is Ok ==> r->Ok_0.spec_name() == name@ && r->Ok_0.spec_structure()
                == (Kind::RangeU64 { min: range.0, max: range.1, step: range.2, default }),
            r is Err ==> r->Err_0 == Error::InvalidParameterRange,
    {
        match ParameterKind::range_u64(range.0, range.1, range.2, default) {
            Ok(structure) => Ok(Self { name, structure }),
            Err(e) => Err(e),
        }
    }

    /// Creates a range of double-precision numbers, each given by its
    /// bits, with the default zero, which the range has to hold.
    pub fn rangef64(name: &'static str, range: (u64, u64, u64)) -> (r: Result<Self, Error>)
        ensures
            r is Ok <==> (Kind::RangeF64 {
                min: range.0,
                max: range.1,
                step: range.2,
                default: 0,
            }).valid(),
            r is Ok ==> r->Ok_0.spec_name() == name@ && r->Ok_0.spec_structure()
                == (Kind::RangeF64 { min: range.0, max: range.1, step: range.2, default: 0 }),
            r is Err ==> r->Err_0 == Error::InvalidParameterRange,
    {
        Self::rangef64_with_default(name, range, 0)
    }

    /// Creates a range `(min, max, step)` of double-precision numbers with
    /// a default value, each given by its bits, if `min <= default <= max`
    /// and `step > 0` as numbers.
    pub fn rangef64_with_default(name: &'static str, range: (u64, u64, u64), default: u64) -> (r:
        Result<Self, Error>)
        ensures
            r is Ok <==> (Kind::RangeF64 {
                min: range.0,
                max: range.1,
                step: range.2,
                default,
            }).valid(),
            r is Ok ==> r->Ok_0.spec_name() == name@ && r->Ok_0.spec_structure()
                == (Kind::RangeF64 { min: range.0, max: range.1, step: range.2, default }),
            r is Err ==> r->Err_0 == Error::InvalidParameterRange,
    {
        match ParameterKind::range_double(range.0, range.1, range.2, default) {
            Ok(structure) => Ok(Self { name, structure }),
            Err(e) => Err(e),
        }
    }

    /// Creates a characters sequence with a default value.
    pub fn characters_sequence(name: &'static str, default: &str) -> (r: Self)
        ensures
            r.spec_name() == name@,
            r.spec_structure() == (Kind::CharSequence { default: default@ }),
    {
        Self { name, structure: ParameterKind::char_sequence(default) }
    }
}

impl PartialEq for Input {
    /// Two inputs are equal if their names are.
    fn eq(&self, other: &Self) -> (r: bool) {
        str_eq(self.name, other.name)
    }
}

impl vstd::std_specs::cmp::PartialEqSpecImpl for Input {
    open spec fn obeys_eq_spec() -> bool {
        true
    }

    open spec fn eq_spec(&self, other: &Self) -> bool {
        self.spec_name() == other.spec_name()
    }
}

impl Eq for Input {

}

/// Input data: an input in the form in which it is written and read.
#[derive(Debug)]
pub struct InputData {
    /// Name.
    pub name: String,
    /// Input structure.
    pub structure: InputStructure,
}

impl InputData {
    /// The data of an input.
    pub fn new(input: Input) -> (r: Self)
        ensures
            r.name@ == input.spec_name(),
            r.structure@ == input.spec_structure(),
    {
        Self { name: owned(input.name), structure: input.structure }
    }

    /// The document of the input.
    pub fn to_json(&self) -> (r: JsonValue)
        ensures
            r@ == spec_json(self.name@, self.structure@),
    {
        let members = Members::new().with("name", JsonValue::text(self.name.as_str())).with(
            "structure",
            self.structure.to_json(),
        );
        assert(members@ =~= spec_members(self.name@, self.structure@));
        members.finish()
    }

    /// Reads an input from a document.
    pub fn from_json(document: &JsonValue) -> (r: Option<InputData>)
        ensures
            r is Some <==> spec_from_json(document@) is Some,
            r is Some ==> (r->Some_0.name@, r->Some_0.structure@) == spec_from_json(
                document@,
            )->Some_0,
    {
        let name = match document.member("name") {
            Some(value) => match value.as_text() {
                Some(text) => text,
                None => { return None; },
            },
            None => { return None; },
        };
        let structure = match document.member("structure") {
            Some(value) => value,
            None => { return None; },
        };
        match ParameterKind::from_json(structure) {
            Some(structure) => Some(InputData { name: owned(name), structure }),
            None => None,
        }
    }
}

impl PartialEq for InputData {
    /// Two inputs are equal if their names are.
    fn eq(&self, other: &Self) -> (r: bool) {
        str_eq(self.name.as_str(), other.name.as_str())
    }
}

impl vstd::std_specs::cmp::PartialEqSpecImpl for InputData {
    open spec fn obeys_eq_spec() -> bool {
        true
    }

    open spec fn eq_spec(&self, other: &Self) -> bool {
        self.name@ == other.name@
    }
}

impl Eq for InputData {

}

} // verus!
