//! Reading parameter kinds and parameter maps back from documents.
use vstd::prelude::*;
use crate::json::{spec_first_named, spec_members, Json, JsonValue};
use crate::parameters::data::ParametersData;
use crate::parameters::entries;
use crate::parameters::kind::{Kind, ParameterKind};
use crate::text::{owned, str_eq};

verus! {

/// The whole number under a name, if there is one from 0 to `max`.
pub open spec fn spec_unsigned(body: Json, name: Seq<char>, max: u64) -> Option<u64> {
    match body.member(name) {
        Some(value) => match value.integer() {
            Some(n) => if 0 <= n <= max {
                Some(n as u64)
            } else {
                None
            },
            None => None,
        },
        None => None,
    }
}

/// The bits of the double-precision number under a name, if there is one.
pub open spec fn spec_double(body: Json, name: Seq<char>) -> Option<u64> {
    match body.member(name) {
        Some(value) => value.double(),
        None => None,
    }
}

/// The range of whole numbers that a body holds, if it has all four
/// fields.
pub open spec fn spec_range_u64(body: Json) -> Option<Kind> {
    match (
        spec_unsigned(body, "min"@, u64::MAX),
        spec_unsigned(body, "max"@, u64::MAX),
        spec_unsigned(body, "step"@, u64::MAX),
        spec_unsigned(body, "default"@, u64::MAX),
    ) {
        (Some(min), Some(max), Some(step), Some(default)) => Some(
            Kind::RangeU64 { min, max, step, default },
        ),
        _ => None,
    }
}

/// The range of double-precision numbers that a body holds, if it has all
/// four fields.
pub open spec fn spec_range_f64(body: Json) -> Option<Kind> {
    match (
        spec_double(body, "min"@),
        spec_double(body, "max"@),
        spec_double(body, "step"@),
        spec_double(body, "default"@),
    ) {
        (Some(min), Some(max), Some(step), Some(default)) => Some(
            Kind::RangeF64 { min, max, step, default },
        ),
        _ => None,
    }
}

/// The kind that a tag and a body stand for, if they stand for one.
pub open spec fn spec_tagged(tag: Seq<char>, body: Json) -> Option<Kind> {
    if tag == "Bool"@ {
        match body.member("default"@) {
            Some(Json::Bool(default)) => Some(Kind::Bool { default }),
            _ => None,
        }
    } else if tag == "U8"@ {
        match spec_unsigned(body, "default"@, 0xff) {
            Some(n) => Some(Kind::U8 { default: n as u8 }),
            None => None,
        }
    } else if tag == "U16"@ {
        match spec_unsigned(body, "default"@, 0xffff) {
            Some(n) => Some(Kind::U16 { default: n as u16 }),
            None => None,
        }
    } else if tag == "U32"@ {
        match spec_unsigned(body, "default"@, 0xffff_ffff) {
            Some(n) => Some(Kind::U32 { default: n as u32 }),
            None => None,
        }
    } else if tag == "U64"@ {
        match spec_unsigned(body, "default"@, u64::MAX) {
            Some(n) => Some(Kind::U64 { default: n }),
            None => None,
        }
    } else if tag == "F32"@ {
        match body.member("default"@) {
            Some(Json::Single(default)) => Some(Kind::F32 { default }),
            _ => None,
        }
    } else if tag == "F64"@ {
        match spec_double(body, "default"@) {
            Some(default) => Some(Kind::F64 { default }),
            None => None,
        }
    } else if tag == "RangeU64"@ {
        spec_range_u64(body)
    } else if tag == "RangeF64"@ {
        spec_range_f64(body)
    } else if tag == "CharSequence"@ {
        match body.member("default"@) {
            Some(Json::Text(default)) => Some(Kind::CharSequence { default }),
            _ => None,
        }
    } else {
        None
    }
}

/// The kind that a document holds: the document is an object of one
/// member, named by the tag of the kind, that holds the fields. A range is
/// read as it stands, valid or not.
pub open spec fn spec_kind(document: Json) -> Option<Kind> {
    match document {
        Json::Object(members) => if members.len() == 1 {
            spec_tagged(members[0].0, members[0].1)
        } else {
            None
        },
        _ => None,
    }
}

/// The contents that a list of members holds: each member is a parameter,
/// inserted in the order of the list, so that a repeated name keeps its
/// first place and its last kind. A member that holds no kind, or a range
/// that is not valid, makes the whole list unreadable.
pub open spec fn spec_entries_of(members: Seq<(Seq<char>, Json)>) -> Option<Seq<(Seq<char>, Kind)>>
    decreases members.len(),
{
    if members.len() == 0 {
        Some(Seq::empty())
    } else {
        match (spec_entries_of(members.drop_last()), spec_kind(members.last().1)) {
            (Some(before), Some(kind)) => if kind.valid() {
                Some(entries::inserted(before, members.last().0, kind))
            } else {
                None
            },
            _ => None,
        }
    }
}

/// The contents that a document holds, if it is an object of parameters.
pub open spec fn spec_entries(document: Json) -> Option<Seq<(Seq<char>, Kind)>> {
    match document {
        Json::Object(members) => spec_entries_of(members),
        _ => None,
    }
}

fn read_unsigned(body: &JsonValue, name: &str, max: u64) -> (r: Option<u64>)
    ensures
        r == spec_unsigned(body@, name@, max),
{
    match body.member(name) {
        Some(value) => match value.as_integer_within(0, max) {
            Some(n) => Some(n as u64),
            None => None,
        },
        None => None,
    }
}

fn read_double(body: &JsonValue, name: &str) -> (r: Option<u64>)
    ensures
        r == spec_double(body@, name@),
{
    match body.member(name) {
        Some(value) => value.as_double(),
        None => None,
    }
}

fn read_range_u64(body: &JsonValue) -> (r: Option<ParameterKind>)
    ensures
        r is Some <==> spec_range_u64(body@) is Some,
        r is Some ==> r->Some_0@ == spec_range_u64(body@)->Some_0,
{
    let min = read_unsigned(body, "min", u64::MAX);
    let max = read_unsigned(body, "max", u64::MAX);
    let step = read_unsigned(body, "step", u64::MAX);
    let default = read_unsigned(body, "default", u64::MAX);
    match (min, max, step, default) {
        (Some(min), Some(max), Some(step), Some(default)) => Some(
            ParameterKind::RangeU64 { min, max, step, default },
        ),
        _ => None,
    }
}

fn read_range_f64(body: &JsonValue) -> (r: Option<ParameterKind>)
    ensures
        r is Some <==> spec_range_f64(body@) is Some,
        r is Some ==> r->Some_0@ == spec_range_f64(body@)->Some_0,
{
    let min = read_double(body, "min");
    let max = read_double(body, "max");
    let step = read_double(body, "step");
    let default = read_double(body, "default");
    match (min, max, step, default) {
        (Some(min), Some(max), Some(step), Some(default)) => Some(
            ParameterKind::RangeF64 { min, max, step, default },
        ),
        _ => None,
    }
}

fn read_tagged(tag: &str, body: &JsonValue) -> (r: Option<ParameterKind>)
    ensures
        r is Some <==> spec_tagged(tag@, body@) is Some,
        r is Some ==> r->Some_0@ == spec_tagged(tag@, body@)->Some_0,
{
    if str_eq(tag, "Bool") {
        match body.member("default") {
            Some(value) => match value.as_bool() {
                Some(default) => Some(ParameterKind::Bool { default }),
                None => None,
            },
            None => None,
        }
    } else if str_eq(tag, "U8") {
        match read_unsigned(body, "default", 0xff) {
            Some(n) => Some(ParameterKind::U8 { default: n as u8 }),
            None => None,
        }
    } else if str_eq(tag, "U16") {
        match read_unsigned(body, "default", 0xffff) {
            Some(n) => Some(ParameterKind::U16 { default: n as u16 }),
            None => None,
        }
    } else if str_eq(tag, "U32") {
        match read_unsigned(body, "default", 0xffff_ffff) {
            Some(n) => Some(ParameterKind::U32 { default: n as u32 }),
            None => None,
        }
    } else if str_eq(tag, "U64") {
        match read_unsigned(body, "default", u64::MAX) {
            Some(n) => Some(ParameterKind::U64 { default: n }),
            None => None,
        }
    } else if str_eq(tag, "F32") {
        match body.member("default") {
            Some(value) => match value.as_single() {
                Some(default) => Some(ParameterKind::F32 { default }),
                None => None,
            },
            None => None,
        }
    } else if str_eq(tag, "F64") {
        match read_double(body, "default") {
            Some(default) => Some(ParameterKind::F64 { default }),
            None => None,
        }
    } else if str_eq(tag, "RangeU64") {
        read_range_u64(body)
    } else if str_eq(tag, "RangeF64") {
        read_range_f64(body)
    } else if str_eq(tag, "CharSequence") {
        match body.member("default") {
            Some(value) => match value.as_text() {
                Some(default) => Some(ParameterKind::CharSequence { default: owned(default) }),
                None => None,
            },
            None => None,
        }
    } else {
        None
    }
}

impl ParameterKind {
    /// Reads a kind from a document: an object of one member, named by the
    /// tag of the kind, that holds the fields. A range is read as it
    /// stands, valid or not.
    pub fn from_json(document: &JsonValue) -> (r: Option<ParameterKind>)
        ensures
            r is Some <==> spec_kind(document@) is Some,
            r is Some ==> r->Some_0@ == spec_kind(document@)->Some_0,
    {
        match document.as_object() {
            Some(members) => if members.len() == 1 {
                read_tagged(members[0].0.as_str(), &members[0].1)
            } else {
                None
            },
            None => None,
        }
    }
}

impl ParametersData {
    /// Reads a parameter map from a document: an object whose members are
    /// the parameters. The members are inserted in their order; a member
    /// that holds no kind, or a range that is not valid, makes the whole
    /// document unreadable.
    pub fn from_json(document: &JsonValue) -> (r: Option<ParametersData>)
        ensures
            r is Some <==> spec_entries(document@) is Some,
            r is Some ==> r->Some_0.wf() && r->Some_0@ == spec_entries(document@)->Some_0,
    {
        let members = match document.as_object() {
            Some(members) => members,
            None => { return None; },
        };
        let mut data = ParametersData::new();
        let mut i: usize = 0;
        while i < members.len()
            invariant
                i <= members.len(),
                document@ == Json::Object(spec_members(members@)),
                data.wf(),
                spec_entries_of(spec_members(members@).take(i as int)) == Some(data@),
            decreases members.len() - i,
        {
            let ghost so_far = spec_members(members@).take(i as int);
            let ghost next = spec_members(members@).take(i as int + 1);
            proof {
                assert(next.drop_last() =~= so_far);
            }
            let kind = match ParameterKind::from_json(&members[i].1) {
                Some(kind) => kind,
                None => {
                    proof {
                        lemma_unreadable_prefix(spec_members(members@), i as int + 1);
                    }
                    return None;
                },
            };
            match data.insert(members[i].0.as_str(), kind) {
                Ok(_) => {},
                Err(_) => {
                    proof {
                        lemma_unreadable_prefix(spec_members(members@), i as int + 1);
                    }
                    return None;
                },
            }
            i += 1;
        }
        assert(spec_members(members@).take(i as int) =~= spec_members(members@));
        Some(data)
    }
}

/// A list with an unreadable beginning is unreadable.
pub proof fn lemma_unreadable_prefix(members: Seq<(Seq<char>, Json)>, n: int)
    requires
        0 <= n <= members.len(),
        spec_entries_of(members.take(n)) is None,
    ensures
        spec_entries_of(members) is None,
    decreases members.len(),
{
    if n < members.len() {
        assert(members.drop_last().take(n) =~= members.take(n));
        lemma_unreadable_prefix(members.drop_last(), n);
    } else {
        assert(members.take(n) =~= members);
    }
}

/// Reading the document of a kind gives the kind back.
pub proof fn law_kind_round_trip(kind: Kind)
    ensures
        spec_kind(kind.json()) == Some(kind),
{
    reveal_strlit("Bool");
    reveal_strlit("U8");
    reveal_strlit("U16");
    reveal_strlit("U32");
    reveal_strlit("U64");
    reveal_strlit("F32");
    reveal_strlit("F64");
    reveal_strlit("RangeU64");
    reveal_strlit("RangeF64");
    reveal_strlit("CharSequence");
    reveal_strlit("default");
    reveal_strlit("min");
    reveal_strlit("max");
    reveal_strlit("step");
    reveal_with_fuel(spec_first_named, 5);
    let tag = kind.tag();
    assert("min"@ != "max"@ && "min"@ != "step"@ && "min"@ != "default"@ && "max"@ != "step"@
        && "max"@ != "default"@ && "step"@ != "default"@) by {
        assert("min"@[1] == 'i' && "max"@[1] == 'a');
        assert("step"@.len() == 4 && "default"@.len() == 7 && "min"@.len() == 3 && "max"@.len()
            == 3);
    }
    assert(tag.len() >= 2);
    match kind {
        Kind::Bool { .. } => {
        },
        Kind::U8 { .. } => {
        },
        Kind::U16 { .. } => {
        },
        Kind::U32 { .. } => {
            assert(tag[0] == 'U' && tag[1] == '3');
        },
        Kind::U64 { .. } => {
            assert(tag[0] == 'U' && tag[1] == '6');
        },
        Kind::F32 { .. } => {
            assert(tag[0] == 'F' && tag[1] == '3');
        },
        Kind::F64 { .. } => {
            assert(tag[0] == 'F' && tag[1] == '6');
        },
        Kind::RangeU64 { .. } => {
        },
        Kind::RangeF64 { .. } => {
            assert(tag[0] == 'R' && tag[5] == 'F');
        },
        Kind::CharSequence { .. } => {
        },
    }
}

/// Reading the document of a parameter map gives its contents back.
pub proof fn law_entries_round_trip(contents: Seq<(Seq<char>, Kind)>)
    requires
        entries::well_formed(contents),
    ensures
        spec_entries(entries::json(contents)) == Some(contents),
    decreases contents.len(),
{
    let members = entries::members(contents);
    if contents.len() > 0 {
        let before = contents.drop_last();
        let last = contents.last();
        assert(members.drop_last() =~= entries::members(before));
        assert(entries::well_formed(before)) by {
            assert forall|i: int, j: int| 0 <= i < j < before.len() implies (
            #[trigger] before[i]).0 != (#[trigger] before[j]).0 by {
            }
            assert forall|i: int| 0 <= i < before.len() implies (#[trigger] before[i]).1.valid() by {
            }
        }
        law_entries_round_trip(before);
        law_kind_round_trip(last.1);
        assert(!entries::contains(before, last.0));
    }
}

} // verus!
