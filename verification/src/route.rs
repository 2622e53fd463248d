//! Routes: the addressable units of a device, each a method and a path
//! with a description, a parameter schema and a set of hazards.
use vstd::prelude::*;
use crate::hazards::catalog::Hazard;
use crate::collections;
use crate::hazards::catalog::Hazards;
use crate::json::{Json, JsonValue, Members};
use crate::parameters::data::ParametersData;
use crate::parameters::entries;
use crate::parameters::reading;
use crate::parameters::kind::Kind;
use crate::text::{owned, str_eq};

verus! {

/// Kinds of request that a route answers.
#[derive(Debug, PartialEq, Eq, Hash, Clone, Copy, Structural)]
pub enum RestKind {
    /// `GET` request.
    Get,
    /// `PUT` request.
    Put,
    /// `POST` request.
    Post,
    /// `DELETE` request.
    Delete,
}

impl RestKind {
    /// The name of each method.
    pub open spec fn spec_name(self) -> Seq<char> {
        match self {
            RestKind::Get => "GET"@,
            RestKind::Put => "PUT"@,
            RestKind::Post => "POST"@,
            RestKind::Delete => "DELETE"@,
        }
    }

    /// The method of each name.
    pub open spec fn spec_from_name(name: Seq<char>) -> Option<RestKind> {
        if name == "GET"@ {
            Some(RestKind::Get)
        } else if name == "PUT"@ {
            Some(RestKind::Put)
        } else if name == "POST"@ {
            Some(RestKind::Post)
        } else if name == "DELETE"@ {
            Some(RestKind::Delete)
        } else {
            None
        }
    }

    /// The name of the method.
    pub fn name(self) -> (r: &'static str)
        ensures
            r@ == self.spec_name(),
    {
        match self {
            RestKind::Get => "GET",
            RestKind::Put => "PUT",
            RestKind::Post => "POST",
            RestKind::Delete => "DELETE",
        }
    }

    /// The method with the given name, if there is one.
    pub fn from_name(name: &str) -> (r: Option<RestKind>)
        ensures
            r == Self::spec_from_name(name@),
    {
        if str_eq(name, "GET") {
            Some(RestKind::Get)
        } else if str_eq(name, "PUT") {
            Some(RestKind::Put)
        } else if str_eq(name, "POST") {
            Some(RestKind::Post)
        } else if str_eq(name, "DELETE") {
            Some(RestKind::Delete)
        } else {
            None
        }
    }
}

/// Every method is found again by its name.
pub proof fn lemma_method_by_name(kind: RestKind)
    ensures
        RestKind::spec_from_name(kind.spec_name()) == Some(kind),
{
    reveal_strlit("GET");
    reveal_strlit("PUT");
    reveal_strlit("POST");
    reveal_strlit("DELETE");
    let name = kind.spec_name();
    if name.len() == 3 {
        assert(name[0] == 'G' || name[0] == 'P');
    }
}

/// The mathematical model of a route.
pub struct RouteModel {
    /// The method.
    pub kind: RestKind,
    /// The path.
    pub route: Seq<char>,
    /// What the route does, for people.
    pub description: Seq<char>,
    /// The parameters in the order of their first insertion.
    pub parameters: Seq<(Seq<char>, Kind)>,
    /// The hazards in the order of their first insertion.
    pub hazards: Seq<Hazard>,
}

impl RouteModel {
    /// Parameter names and hazards are not repeated, and ranges are valid.
    pub open spec fn wf(self) -> bool {
        entries::well_formed(self.parameters) && collections::unique(self.hazards)
    }

    /// By what a device tells its routes apart: method and path.
    pub open spec fn identity(self) -> (RestKind, Seq<char>) {
        (self.kind, self.route)
    }

    /// The members of the document of a route.
    pub open spec fn members(self) -> Seq<(Seq<char>, Json)> {
        seq![
            ("route"@, Json::Text(self.route)),
            ("method"@, Json::Text(self.kind.spec_name())),
            ("description"@, Json::Text(self.description)),
            ("parameters"@, entries::json(self.parameters)),
            ("hazards"@, collections::json(self.hazards)),
        ]
    }

    /// The document of a route. Parameters and hazards are always there,
    /// empty where the route has none.
    pub open spec fn json(self) -> Json {
        Json::Object(self.members())
    }

    /// The route that a document holds: path, method and description are
    /// texts under `route`, `method` and `description`, the parameters and
    /// the hazards are read from what stands under `parameters` and
    /// `hazards`. If one of the five is missing or unreadable, so is the
    /// route.
    pub open spec fn spec_from_json(document: Json) -> Option<RouteModel> {
        match (
            document.member("route"@),
            document.member("method"@),
            document.member("description"@),
            document.member("parameters"@),
            document.member("hazards"@),
        ) {
            (
                Some(Json::Text(route)),
                Some(Json::Text(method)),
                Some(Json::Text(description)),
                Some(parameters),
                Some(hazards),
            ) => match (
                RestKind::spec_from_name(method),
                reading::spec_entries(parameters),
                collections::spec_read::<Hazard>(hazards),
            ) {
                (Some(kind), Some(parameters), Some(hazards)) => Some(
                    RouteModel { kind, route, description, parameters, hazards },
                ),
                _ => None,
            },
            _ => None,
        }
    }
}

/// Reading the document of a route gives the route back.
pub proof fn law_route_round_trip(route: RouteModel)
    requires
        route.wf(),
    ensures
        RouteModel::spec_from_json(route.json()) == Some(route),
{
    reveal_strlit("route");
    reveal_strlit("method");
    reveal_strlit("description");
    reveal_strlit("parameters");
    reveal_strlit("hazards");
    reveal_with_fuel(crate::json::spec_first_named, 6);
    assert("route"@.len() == 5 && "method"@.len() == 6 && "description"@.len() == 11
        && "parameters"@.len() == 10 && "hazards"@.len() == 7);
    lemma_method_by_name(route.kind);
    reading::law_entries_round_trip(route.parameters);
    collections::law_set_round_trip(route.hazards);
}

/// A server route.
///
/// It represents a specific `REST` API which, when invoked, runs a task on
/// a remote device.
#[derive(Debug)]
pub struct Route {
    kind: RestKind,
    route: String,
    description: String,
    parameters: ParametersData,
    hazards: Hazards,
}

impl View for Route {
    type V = RouteModel;

    closed spec fn view(&self) -> RouteModel {
        RouteModel {
            kind: self.kind,
            route: self.route@,
            description: self.description@,
            parameters: self.parameters@,
            hazards: self.hazards@,
        }
    }
}

impl Route {
    /// Parameter names and hazards are not repeated, and ranges are valid.
    pub open spec fn wf(&self) -> bool {
        self@.wf()
    }

    /// A route of this method and path, without description, parameters
    /// and hazards.
    pub open spec fn spec_new(kind: RestKind, route: Seq<char>) -> RouteModel {
        RouteModel {
            kind,
            route,
            description: Seq::empty(),
            parameters: Seq::empty(),
            hazards: Seq::empty(),
        }
    }

    fn init(kind: RestKind, route: &str) -> (r: Self)
        ensures
            r.wf(),
            r@ == Self::spec_new(kind, route@),
    {
        Route {
            kind,
            route: owned(route),
            description: String::new(),
            parameters: ParametersData::new(),
            hazards: Hazards::new(),
        }
    }

    /// Creates a new [`Route`] through a `GET` request.
    pub fn get(route: &str) -> (r: Self)
        ensures
            r.wf(),
            r@ == Self::spec_new(RestKind::Get, route@),
    {
        Self::init(RestKind::Get, route)
    }

    /// Creates a new [`Route`] through a `PUT` request.
    pub fn put(route: &str) -> (r: Self)
        ensures
            r.wf(),
            r@ == Self::spec_new(RestKind::Put, route@),
    {
        Self::init(RestKind::Put, route)
    }

    /// Creates a new [`Route`] through a `POST` request.
    pub fn post(route: &str) -> (r: Self)
        ensures
            r.wf(),
            r@ == Self::spec_new(RestKind::Post, route@),
    {
        Self::init(RestKind::Post, route)
    }

    /// Creates a new [`Route`] through a `DELETE` request.
    pub fn delete(route: &str) -> (r: Self)
        ensures
            r.wf(),
            r@ == Self::spec_new(RestKind::Delete, route@),
    {
        Self::init(RestKind::Delete, route)
    }

    /// Sets the route description.
    pub fn description(self, description: &str) -> (r: Self)
        ensures
            r@ == (RouteModel { description: description@, ..self@ }),
    {
        Route {
            kind: self.kind,
            route: self.route,
            description: owned(description),
            parameters: self.parameters,
            hazards: self.hazards,
        }
    }

    /// Adds a single [`Hazard`] to the hazards of the route; one that is
    /// there already is not added again.
    pub fn with_hazard(self, hazard: Hazard) -> (r: Self)
        requires
            self.wf(),
        ensures
            r.wf(),
            r@ == (RouteModel { hazards: collections::inserted(self@.hazards, hazard), ..self@ }),
    {
        Route {
            kind: self.kind,
            route: self.route,
            description: self.description,
            parameters: self.parameters,
            hazards: self.hazards.with(hazard),
        }
    }

    /// Replaces the hazards of the route by the given set.
    pub fn with_hazards(self, hazards: Hazards) -> (r: Self)
        requires
            self.wf(),
            hazards.wf(),
        ensures
            r.wf(),
            r@ == (RouteModel { hazards: hazards@, ..self@ }),
    {
        Route {
            kind: self.kind,
            route: self.route,
            description: self.description,
            parameters: self.parameters,
            hazards,
        }
    }

    /// Adds every [`Hazard`] of the slice, in its order, to the hazards of
    /// the route; one that is there already is not added again.
    pub fn with_slice_hazards(self, hazards: &[Hazard]) -> (r: Self)
        requires
            self.wf(),
        ensures
            r.wf(),
            r@ == (RouteModel { hazards: collections::inserted_all(self@.hazards, hazards@), ..self@ }),
    {
        Route {
            kind: self.kind,
            route: self.route,
            description: self.description,
            parameters: self.parameters,
            hazards: self.hazards.with_all(hazards),
        }
    }

    /// Replaces the parameters of the route by the given ones: the two
    /// schemas are not merged.
    pub fn with_parameters(self, parameters: ParametersData) -> (r: Self)
        requires
            self.wf(),
            parameters.wf(),
        ensures
            r.wf(),
            r@ == (RouteModel { parameters: parameters@, ..self@ }),
    {
        Route {
            kind: self.kind,
            route: self.route,
            description: self.description,
            parameters,
            hazards: self.hazards,
        }
    }

    /// Returns the path.
    pub fn route(&self) -> (r: &str)
        ensures
            r@ == self@.route,
    {
        self.route.as_str()
    }

    /// Returns the method.
    pub fn kind(&self) -> (r: RestKind)
        ensures
            r == self@.kind,
    {
        self.kind
    }

    /// Returns the description, which is empty until one is set.
    pub fn description_text(&self) -> (r: &str)
        ensures
            r@ == self@.description,
    {
        self.description.as_str()
    }

    /// Returns the hazards.
    pub fn hazards(&self) -> (r: &Hazards)
        ensures
            r@ == self@.hazards,
            self.wf() ==> r.wf(),
    {
        &self.hazards
    }

    /// Returns the parameters.
    pub fn parameters(&self) -> (r: &ParametersData)
        ensures
            r@ == self@.parameters,
            self.wf() ==> r.wf(),
    {
        &self.parameters
    }

    /// Checks whether a device would take the two routes for one: whether
    /// they agree in method and path.
    pub fn same_as(&self, other: &Route) -> (r: bool)
        ensures
            r == (self@.identity() == other@.identity()),
    {
        self.kind == other.kind && str_eq(self.route.as_str(), other.route.as_str())
    }

    /// Checks whether the route has this method and path.
    pub fn answers(&self, kind: RestKind, route: &str) -> (r: bool)
        ensures
            r == (self@.identity() == (kind, route@)),
    {
        self.kind == kind && str_eq(self.route.as_str(), route)
    }

    /// Reads a route from a document.
    pub fn from_json(document: &JsonValue) -> (r: Option<Route>)
        ensures
            r is Some <==> RouteModel::spec_from_json(document@) is Some,
            r is Some ==> r->Some_0.wf() && r->Some_0@ == RouteModel::spec_from_json(
                document@,
            )->Some_0,
    {
        let route = match document.member("route") {
            Some(value) => match value.as_text() {
                Some(text) => text,
                None => { return None; },
            },
            None => { return None; },
        };
        let method = match document.member("method") {
            Some(value) => match value.as_text() {
                Some(text) => text,
                None => { return None; },
            },
            None => { return None; },
        };
        let description = match document.member("description") {
            Some(value) => match value.as_text() {
                Some(text) => text,
                None => { return None; },
            },
            None => { return None; },
        };
        let parameters = match document.member("parameters") {
            Some(value) => value,
            None => { return None; },
        };
        let hazards = match document.member("hazards") {
            Some(value) => value,
            None => { return None; },
        };
        let kind = match RestKind::from_name(method) {
            Some(kind) => kind,
            None => { return None; },
        };
        let parameters = match ParametersData::from_json(parameters) {
            Some(parameters) => parameters,
            None => { return None; },
        };
        let hazards = match Hazards::from_json(hazards) {
            Some(hazards) => hazards,
            None => { return None; },
        };
        Some(
            Route {
                kind,
                route: owned(route),
                description: owned(description),
                parameters,
                hazards,
            },
        )
    }

    /// The document of the route.
    pub fn to_json(&self) -> (r: JsonValue)
        ensures
            r@ == self@.json(),
    {
        let members = Members::new().with("route", JsonValue::text(self.route.as_str())).with(
            "method",
            JsonValue::text(self.kind.name()),
        ).with("description", JsonValue::text(self.description.as_str())).with(
            "parameters",
            self.parameters.to_json(),
        ).with("hazards", self.hazards.to_json());
        assert(members@ =~= self@.members());
        members.finish()
    }
}

} // verus!
