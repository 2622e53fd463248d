//! Actions: routes bound to the identity of a handler.
use vstd::prelude::*;
use crate::route::{Route, RouteModel};

verus! {

/// What the handler of an action answers with.
#[derive(Debug, PartialEq, Eq, Hash, Clone, Copy, Structural)]
pub enum ResponseContract {
    /// Nothing but the confirmation that the action ran.
    Empty,
    /// A serialized value.
    Serial,
}

/// The actions that some kinds of device must define.
#[derive(Debug, PartialEq, Eq, Hash, Clone, Copy, Structural)]
pub enum MandatoryAction {
    /// Turns a light on.
    TurnLightOn,
    /// Turns a light off.
    TurnLightOff,
    /// Raises the temperature of a fridge.
    IncreaseTemperature,
    /// Lowers the temperature of a fridge.
    DecreaseTemperature,
}

/// The mathematical model of an action.
pub struct ActionModel {
    /// The route under which the action is reached.
    pub route: RouteModel,
    /// The identity of the handler, which the registry passes through.
    pub handler: u64,
    /// Whether the handler works on the state of the device.
    pub stateful: bool,
    /// What the handler answers with.
    pub response: ResponseContract,
    /// The mandatory action that this action is, if it is one.
    pub role: Option<MandatoryAction>,
}

/// A route bound to the identity of its handler.
///
/// The handler itself belongs to the server; the registry only carries its
/// identity and what it declares about its response.
#[derive(Debug)]
pub struct Action {
    route: Route,
    handler: u64,
    stateful: bool,
    response: ResponseContract,
    role: Option<MandatoryAction>,
}

impl View for Action {
    type V = ActionModel;

    closed spec fn view(&self) -> ActionModel {
        ActionModel {
            route: self.route@,
            handler: self.handler,
            stateful: self.stateful,
            response: self.response,
            role: self.role,
        }
    }
}

impl Action {
    /// The route of the action holds no repeated parameter name or hazard
    /// and no invalid range.
    pub open spec fn wf(&self) -> bool {
        self@.route.wf()
    }

    /// An action that is not mandatory, works on no state and answers with
    /// nothing.
    pub fn new(route: Route, handler: u64) -> (r: Self)
        ensures
            r@ == (ActionModel {
                route: route@,
                handler,
                stateful: false,
                response: ResponseContract::Empty,
                role: None,
            }),
    {
        Action { route, handler, stateful: false, response: ResponseContract::Empty, role: None }
    }

    /// Declares that the handler works on the state of the device.
    pub fn stateful(self) -> (r: Self)
        ensures
            r@ == (ActionModel { stateful: true, ..self@ }),
    {
        Action {
            route: self.route,
            handler: self.handler,
            stateful: true,
            response: self.response,
            role: self.role,
        }
    }

    /// Declares what the handler answers with.
    pub fn response(self, response: ResponseContract) -> (r: Self)
        ensures
            r@ == (ActionModel { response, ..self@ }),
    {
        Action {
            route: self.route,
            handler: self.handler,
            stateful: self.stateful,
            response,
            role: self.role,
        }
    }

    /// Declares that the action is the given mandatory action.
    pub fn mandatory(self, role: MandatoryAction) -> (r: Self)
        ensures
            r@ == (ActionModel { role: Some(role), ..self@ }),
    {
        Action {
            route: self.route,
            handler: self.handler,
            stateful: self.stateful,
            response: self.response,
            role: Some(role),
        }
    }

    /// The route of the action.
    pub fn route(&self) -> (r: &Route)
        ensures
            r@ == self@.route,
    {
        &self.route
    }

    /// The identity of the handler.
    pub fn handler(&self) -> (r: u64)
        ensures
            r == self@.handler,
    {
        self.handler
    }

    /// Whether the handler works on the state of the device.
    pub fn is_stateful(&self) -> (r: bool)
        ensures
            r == self@.stateful,
    {
        self.stateful
    }

    /// What the handler answers with.
    pub fn response_contract(&self) -> (r: ResponseContract)
        ensures
            r == self@.response,
    {
        self.response
    }

    /// The mandatory action that this action is, if it is one.
    pub fn role(&self) -> (r: Option<MandatoryAction>)
        ensures
            r == self@.role,
    {
        self.role
    }
}

} // verus!
