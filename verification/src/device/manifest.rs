//! The manifest as a controller reads it.
use vstd::prelude::*;
use crate::device::action::ActionModel;
use crate::device::table::{lemma_kind_by_name, DeviceKind, DeviceModel};
use crate::json::{spec_items, Json, JsonValue};
use crate::route::{law_route_round_trip, Route, RouteModel};
use crate::text::owned;

verus! {

/// The mathematical model of what a manifest says.
pub struct ManifestModel {
    /// The kind of device.
    pub kind: DeviceKind,
    /// The prefix under which the routes are served.
    pub main_route: Seq<char>,
    /// The routes, in the order of the manifest.
    pub routes: Seq<RouteModel>,
}

/// The routes of a list of actions.
pub open spec fn routes_of(table: Seq<ActionModel>) -> Seq<RouteModel> {
    Seq::new(table.len(), |i: int| table[i].route)
}

/// What the manifest of a device says.
pub open spec fn said_by(device: DeviceModel) -> ManifestModel {
    ManifestModel {
        kind: device.kind,
        main_route: device.main_route,
        routes: routes_of(device.all()),
    }
}

/// The routes that a list of documents holds, if every document holds a
/// route.
pub open spec fn spec_routes_of(written: Seq<Json>) -> Option<Seq<RouteModel>>
    decreases written.len(),
{
    if written.len() == 0 {
        Some(Seq::empty())
    } else {
        match (spec_routes_of(written.drop_last()), RouteModel::spec_from_json(written.last())) {
            (Some(before), Some(route)) => Some(before.push(route)),
            _ => None,
        }
    }
}

/// What a document says, if it is a manifest: the name of a kind under
/// `kind`, a text under `main_route`, and a list of routes under `routes`.
pub open spec fn spec_from_json(document: Json) -> Option<ManifestModel> {
    match (document.member("kind"@), document.member("main_route"@), document.member("routes"@)) {
        (Some(Json::Text(kind)), Some(Json::Text(main_route)), Some(Json::Array(written))) =>
            match (DeviceKind::spec_from_name(kind), spec_routes_of(written)) {
            (Some(kind), Some(routes)) => Some(ManifestModel { kind, main_route, routes }),
            _ => None,
        },
        _ => None,
    }
}

/// A list with an unreadable beginning is unreadable.
pub proof fn lemma_unreadable_prefix(written: Seq<Json>, n: int)
    requires
        0 <= n <= written.len(),
        spec_routes_of(written.take(n)) is None,
    ensures
        spec_routes_of(written) is None,
    decreases written.len(),
{
    if n < written.len() {
        assert(written.drop_last().take(n) =~= written.take(n));
        lemma_unreadable_prefix(written.drop_last(), n);
    } else {
        assert(written.take(n) =~= written);
    }
}

/// Reading the documents of the routes of a table gives the routes back.
pub proof fn lemma_routes_round_trip(table: Seq<ActionModel>)
    requires
        crate::device::table::routes_wf(table),
    ensures
        spec_routes_of(crate::device::table::documents(table)) == Some(routes_of(table)),
    decreases table.len(),
{
    let written = crate::device::table::documents(table);
    if table.len() > 0 {
        let before = table.drop_last();
        assert(written.drop_last() =~= crate::device::table::documents(before));
        assert(crate::device::table::routes_wf(before)) by {
            assert forall|i: int| 0 <= i < before.len() implies (#[trigger] before[i]).route.wf() by {
            }
        }
        lemma_routes_round_trip(before);
        law_route_round_trip(table.last().route);
    }
}

/// Reading the manifest of a device gives what the device says of itself:
/// its kind, its prefix and its routes, those of the actions first.
pub proof fn law_manifest_round_trip(device: DeviceModel)
    requires
        device.wf(),
    ensures
        spec_from_json(device.manifest()) == Some(said_by(device)),
{
    reveal_strlit("kind");
    reveal_strlit("main_route");
    reveal_strlit("routes");
    reveal_with_fuel(crate::json::spec_first_named, 4);
    assert("kind"@.len() == 4 && "main_route"@.len() == 10 && "routes"@.len() == 6);
    lemma_kind_by_name(device.kind);
    lemma_routes_round_trip(device.all());
}

/// What a manifest says.
#[derive(Debug)]
pub struct Manifest {
    /// The kind of device.
    pub kind: DeviceKind,
    /// The prefix under which the routes are served.
    pub main_route: String,
    /// The routes, in the order of the manifest.
    pub routes: Vec<Route>,
}

impl View for Manifest {
    type V = ManifestModel;

    open spec fn view(&self) -> ManifestModel {
        ManifestModel {
            kind: self.kind,
            main_route: self.main_route@,
            routes: Seq::new(self.routes@.len(), |i: int| self.routes@[i]@),
        }
    }
}

impl Manifest {
    /// Reads a manifest from a document.
    #[verifier::loop_isolation(false)]
    pub fn from_json(document: &JsonValue) -> (r: Option<Manifest>)
        ensures
            r is Some <==> spec_from_json(document@) is Some,
            r is Some ==> r->Some_0@ == spec_from_json(document@)->Some_0,
    {
        let kind = match document.member("kind") {
            Some(value) => match value.as_text() {
                Some(text) => text,
                None => { return None; },
            },
            None => { return None; },
        };
        let main_route = match document.member("main_route") {
            Some(value) => match value.as_text() {
                Some(text) => text,
                None => { return None; },
            },
            None => { return None; },
        };
        let written = match document.member("routes") {
            Some(value) => match value.as_array() {
                Some(items) => items,
                None => { return None; },
            },
            None => { return None; },
        };
        let kind = match DeviceKind::from_name(kind) {
            Some(kind) => kind,
            None => {
                return None;
            },
        };
        let mut routes: Vec<Route> = Vec::new();
        let ghost all = spec_items(written@);
        let mut i: usize = 0;
        while i < written.len()
            invariant
                i <= written.len(),
                all == spec_items(written@),
                spec_routes_of(all.take(i as int)) == Some(
                    Seq::new(routes@.len(), |k: int| routes@[k]@),
                ),
            decreases written.len() - i,
        {
            let ghost so_far = all.take(i as int);
            let ghost next = all.take(i as int + 1);
            proof {
                assert(next.drop_last() =~= so_far);
            }
            match Route::from_json(&written[i]) {
                Some(route) => {
                    routes.push(route);
                },
                None => {
                    proof {
                        lemma_unreadable_prefix(all, i as int + 1);
                    }
                    return None;
                },
            }
            i += 1;
        }
        assert(all.take(i as int) =~= all);
        Some(Manifest { kind, main_route: owned(main_route), routes })
    }
}

} // verus!
