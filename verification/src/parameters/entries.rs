//! What a parameter map holds, as mathematics: a list of named kinds in the
//! order of their first insertion. Both backends are stated over it.
use vstd::prelude::*;
use crate::error::Error;
use crate::json::Json;
use crate::parameters::kind::Kind;

verus! {

/// Whether a parameter of this name is present.
pub open spec fn contains(entries: Seq<(Seq<char>, Kind)>, name: Seq<char>) -> bool {
    exists|i: int| 0 <= i < entries.len() && (#[trigger] entries[i]).0 == name
}

/// A place at which the name stands, if it is present.
pub open spec fn position(entries: Seq<(Seq<char>, Kind)>, name: Seq<char>) -> int {
    choose|i: int| 0 <= i < entries.len() && (#[trigger] entries[i]).0 == name
}

/// No name occurs twice.
pub open spec fn unique(entries: Seq<(Seq<char>, Kind)>) -> bool {
    forall|i: int, j: int|
        0 <= i < j < entries.len() ==> (#[trigger] entries[i]).0 != (#[trigger] entries[j]).0
}

/// Every kind obeys the rule on ranges.
pub open spec fn all_valid(entries: Seq<(Seq<char>, Kind)>) -> bool {
    forall|i: int| 0 <= i < entries.len() ==> (#[trigger] entries[i]).1.valid()
}

/// What every parameter map guarantees of its contents.
pub open spec fn well_formed(entries: Seq<(Seq<char>, Kind)>) -> bool {
    unique(entries) && all_valid(entries)
}

/// The contents after an insertion: a present name keeps its place and gets
/// the new kind, a new name goes to the end.
pub open spec fn inserted(entries: Seq<(Seq<char>, Kind)>, name: Seq<char>, kind: Kind) -> Seq<
    (Seq<char>, Kind),
> {
    if contains(entries, name) {
        entries.update(position(entries, name), (name, kind))
    } else {
        entries.push((name, kind))
    }
}

/// Why an insertion is refused, if it is: an invalid range first, then a
/// new name for a map that has reached its limit.
pub open spec fn refusal(
    entries: Seq<(Seq<char>, Kind)>,
    limit: Option<nat>,
    name: Seq<char>,
    kind: Kind,
) -> Option<Error> {
    if !kind.valid() {
        Some(Error::InvalidParameterRange)
    } else if limit is Some && !contains(entries, name) && entries.len() >= limit->Some_0 {
        Some(Error::CapacityExceeded)
    } else {
        None
    }
}

/// What a builder step gives: the contents after the insertion, or the
/// reason for which it is refused.
pub open spec fn with(
    entries: Seq<(Seq<char>, Kind)>,
    limit: Option<nat>,
    name: Seq<char>,
    kind: Kind,
) -> Result<Seq<(Seq<char>, Kind)>, Error> {
    match refusal(entries, limit, name, kind) {
        Some(e) => Err(e),
        None => Ok(inserted(entries, name, kind)),
    }
}

/// The members of the document of a parameter map.
pub open spec fn members(entries: Seq<(Seq<char>, Kind)>) -> Seq<(Seq<char>, Json)> {
    Seq::new(entries.len(), |i: int| (entries[i].0, entries[i].1.json()))
}

/// The document of a parameter map: one member for each parameter, named
/// after it, in the order of the map.
pub open spec fn json(entries: Seq<(Seq<char>, Kind)>) -> Json {
    Json::Object(members(entries))
}

/// An accepted insertion keeps the guarantees, and changes the length only
/// for a new name.
pub proof fn law_insertion_keeps_the_guarantees(entries: Seq<(Seq<char>, Kind)>, name: Seq<char>, kind: Kind)
    requires
        well_formed(entries),
        kind.valid(),
    ensures
        well_formed(inserted(entries, name, kind)),
        contains(inserted(entries, name, kind), name),
        contains(entries, name) ==> inserted(entries, name, kind).len() == entries.len(),
        !contains(entries, name) ==> inserted(entries, name, kind).len() == entries.len() + 1,
{
    let after = inserted(entries, name, kind);
    if contains(entries, name) {
        let p = position(entries, name);
        assert(after[p].0 == name);
        assert forall|i: int, j: int| 0 <= i < j < after.len() implies (#[trigger] after[i]).0 != (
        #[trigger] after[j]).0 by {
        }
        assert forall|i: int| 0 <= i < after.len() implies (#[trigger] after[i]).1.valid() by {
        }
    } else {
        let last = entries.len() as int;
        assert(after[last].0 == name);
        assert forall|i: int, j: int| 0 <= i < j < after.len() implies (#[trigger] after[i]).0 != (
        #[trigger] after[j]).0 by {
        }
        assert forall|i: int| 0 <= i < after.len() implies (#[trigger] after[i]).1.valid() by {
        }
    }
}

/// Whatever a parameter map holds obeys the rule on ranges: every stored
/// range of whole numbers has `min <= default <= max` and `step > 0`, and
/// every stored range of floating-point numbers has the same as numbers.
/// A kind that breaks the rule is refused by either backend before it is
/// stored, and an accepted insertion leaves a map that obeys the rule.
pub proof fn law_stored_ranges_are_valid(
    entries: Seq<(Seq<char>, Kind)>,
    limit: Option<nat>,
    name: Seq<char>,
    kind: Kind,
    i: int,
)
    requires
        well_formed(entries),
        0 <= i < entries.len(),
    ensures
        entries[i].1 matches Kind::RangeU64 { min, max, step, default } ==> min <= default <= max
            && step > 0,
        entries[i].1 matches Kind::RangeF64 { min, max, step, default } ==> crate::ieee::spec_le(
            min,
            default,
        ) && crate::ieee::spec_le(default, max) && crate::ieee::spec_is_positive(step),
        !kind.valid() ==> with(entries, limit, name, kind) == Err::<Seq<(Seq<char>, Kind)>, Error>(
            Error::InvalidParameterRange,
        ),
        with(entries, limit, name, kind) is Ok ==> kind.valid() && well_formed(
            with(entries, limit, name, kind)->Ok_0,
        ),
{
}

/// The two backends agree on a name that is present: with the same
/// contents, inserting it into the bounded map, whatever its capacity and
/// however full it is, and into the growable map is accepted alike, gives
/// the same contents, as long as before, and the same document with the
/// same text.
pub proof fn law_backends_agree_on_present_name(
    entries: Seq<(Seq<char>, Kind)>,
    capacity: nat,
    name: Seq<char>,
    kind: Kind,
)
    requires
        well_formed(entries),
        contains(entries, name),
    ensures
        with(entries, Some(capacity), name, kind) == with(entries, None, name, kind),
        kind.valid() ==> with(entries, None, name, kind) is Ok && with(
            entries,
            None,
            name,
            kind,
        )->Ok_0.len() == entries.len(),
        with(entries, Some(capacity), name, kind) is Ok ==> json(
            with(entries, Some(capacity), name, kind)->Ok_0,
        ) == json(with(entries, None, name, kind)->Ok_0) && crate::json::writer::spec_text(
            json(with(entries, Some(capacity), name, kind)->Ok_0),
        ) == crate::json::writer::spec_text(json(with(entries, None, name, kind)->Ok_0)),
{
}

/// The two backends agree as long as the bounded one has room: they differ
/// only where a new name meets a full map, which the bounded map refuses.
pub proof fn law_backends_differ_only_when_full(
    entries: Seq<(Seq<char>, Kind)>,
    capacity: nat,
    name: Seq<char>,
    kind: Kind,
)
    ensures
        with(entries, Some(capacity), name, kind) != with(entries, None, name, kind) <==> kind.valid()
            && !contains(entries, name) && entries.len() >= capacity,
        with(entries, Some(capacity), name, kind) != with(entries, None, name, kind) ==> with(
            entries,
            Some(capacity),
            name,
            kind,
        ) == Err::<Seq<(Seq<char>, Kind)>, Error>(Error::CapacityExceeded),
{
}

/// Inserting the same name with the same kind a second time changes
/// nothing.
pub proof fn law_insertion_is_idempotent(entries: Seq<(Seq<char>, Kind)>, name: Seq<char>, kind: Kind)
    requires
        well_formed(entries),
    ensures
        inserted(inserted(entries, name, kind), name, kind) == inserted(entries, name, kind),
{
    let once = inserted(entries, name, kind);
    if contains(entries, name) {
        let p = position(entries, name);
        assert(once[p].0 == name);
    } else {
        let last = entries.len() as int;
        assert(once[last].0 == name);
    }
}

} // verus!
