//! The device under construction and its one final step.
use vstd::prelude::*;
use crate::device::action::{Action, ActionModel, MandatoryAction};
use crate::device::table;
use crate::device::table::{DeviceKind, DeviceModel};
use crate::error::Error;
use crate::json::{JsonValue, Members};
use crate::route::RestKind;
use crate::text::owned;

verus! {

/// The models of a list of actions.
pub open spec fn models(list: Seq<Action>) -> Seq<ActionModel> {
    Seq::new(list.len(), |i: int| list[i]@)
}

/// Adding an action at the end adds its model at the end.
pub proof fn lemma_models_push(list: Seq<Action>, action: Action)
    ensures
        models(list.push(action)) == models(list).push(action@),
{
}

/// What finalizing a device gives: all that the server needs, and nothing
/// that can still change.
#[derive(Debug)]
pub struct Finalized {
    /// The kind of the device.
    pub kind: DeviceKind,
    /// The prefix under which the routes are served.
    pub main_route: String,
    /// The manifest of the device.
    pub manifest: JsonValue,
    /// All actions of the device, those that only report last.
    pub actions: Vec<Action>,
}

/// A device under construction.
///
/// Actions are added one by one; an action whose method and path are taken
/// is refused. Finalizing consumes the device, so that nothing can be added
/// afterwards.
#[derive(Debug)]
pub struct Device {
    kind: DeviceKind,
    main_route: String,
    actions: Vec<Action>,
    info_actions: Vec<Action>,
}

impl View for Device {
    type V = DeviceModel;

    closed spec fn view(&self) -> DeviceModel {
        DeviceModel {
            kind: self.kind,
            main_route: self.main_route@,
            actions: models(self.actions@),
            info_actions: models(self.info_actions@),
        }
    }
}

/// Looks for an action of this method and path.
fn table_has_route(list: &Vec<Action>, kind: RestKind, route: &str) -> (r: bool)
    ensures
        r == table::has_route(models(list@), (kind, route@)),
{
    let mut i: usize = 0;
    while i < list.len()
        invariant
            i <= list.len(),
            forall|j: int|
                0 <= j < i ==> (#[trigger] models(list@)[j]).route.identity() != (kind, route@),
        decreases list.len() - i,
    {
        if list[i].route().answers(kind, route) {
            assert(models(list@)[i as int].route.identity() == (kind, route@));
            return true;
        }
        i += 1;
    }
    false
}

/// Looks for an action that is the given mandatory action.
fn table_fills(list: &Vec<Action>, role: MandatoryAction) -> (r: bool)
    ensures
        r == table::fills(models(list@), role),
{
    let mut i: usize = 0;
    while i < list.len()
        invariant
            i <= list.len(),
            forall|j: int| 0 <= j < i ==> (#[trigger] models(list@)[j]).role != Some(role),
        decreases list.len() - i,
    {
        if list[i].role() == Some(role) {
            assert(models(list@)[i as int].role == Some(role));
            return true;
        }
        i += 1;
    }
    false
}

/// Adds the documents of the routes of a list of actions to a list of
/// documents.
fn push_documents(items: &mut Vec<JsonValue>, list: &Vec<Action>)
    ensures
        crate::json::spec_items(final(items)@) == crate::json::spec_items(old(items)@)
            + table::documents(models(list@)),
{
    let ghost start = crate::json::spec_items(items@);
    let mut i: usize = 0;
    while i < list.len()
        invariant
            i <= list.len(),
            crate::json::spec_items(items@) == start + table::documents(
                models(list@).take(i as int),
            ),
        decreases list.len() - i,
    {
        let item = list[i].route().to_json();
        proof {
            let so_far = models(list@).take(i as int);
            let next = models(list@).take(i as int + 1);
            assert(start + table::documents(next) =~= (start + table::documents(so_far)).push(
                item@,
            ));
        }
        items.push(item);
        i += 1;
    }
}

impl Device {
    /// No two actions of the device share method and path, and every route
    /// is well formed.
    pub open spec fn wf(&self) -> bool {
        self@.wf()
    }

    /// Creates a device of the given kind, without actions, that serves
    /// its routes under the prefix of its kind.
    pub fn new(kind: DeviceKind) -> (r: Self)
        ensures
            r.wf(),
            r@ == (DeviceModel {
                kind,
                main_route: kind.spec_main_route(),
                actions: Seq::empty(),
                info_actions: Seq::empty(),
            }),
    {
        let r = Device {
            kind,
            main_route: owned(kind.main_route()),
            actions: Vec::new(),
            info_actions: Vec::new(),
        };
        assert(r@.actions =~= Seq::empty());
        r
    }

    /// Sets the prefix under which the routes are served.
    pub fn main_route(self, main_route: &str) -> (r: Self)
        ensures
            r@ == (DeviceModel { main_route: main_route@, ..self@ }),
    {
        Device {
            kind: self.kind,
            main_route: owned(main_route),
            actions: self.actions,
            info_actions: self.info_actions,
        }
    }

    /// The kind of the device.
    pub fn kind(&self) -> (r: DeviceKind)
        ensures
            r == self@.kind,
    {
        self.kind
    }

    /// The prefix under which the routes are served.
    pub fn main_route_prefix(&self) -> (r: &str)
        ensures
            r@ == self@.main_route,
    {
        self.main_route.as_str()
    }

    /// The number of actions in the action table.
    pub fn actions_len(&self) -> (n: usize)
        ensures
            n == self@.actions.len(),
    {
        self.actions.len()
    }

    /// The number of actions that only report.
    pub fn info_actions_len(&self) -> (n: usize)
        ensures
            n == self@.info_actions.len(),
    {
        self.info_actions.len()
    }

    /// Checks whether either table has an action of this method and path.
    pub fn has_route(&self, kind: RestKind, route: &str) -> (r: bool)
        ensures
            r == table::has_route(self@.all(), (kind, route@)),
    {
        let found = table_has_route(&self.actions, kind, route) || table_has_route(
            &self.info_actions,
            kind,
            route,
        );
        proof {
            table::lemma_has_route_in_either(self@.actions, self@.info_actions, (kind, route@));
        }
        found
    }

    /// Adds an action to the action table. If method and path are taken, in
    /// either table, the action is refused and the device stays as it was.
    pub fn add_action(&mut self, action: Action) -> (r: Result<(), Error>)
        requires
            old(self).wf(),
            action.wf(),
        ensures
            final(self).wf(),
            final(self)@ == old(self)@.with_action(action@),
            r == if table::has_route(old(self)@.all(), action@.route.identity()) {
                Err::<(), Error>(Error::DuplicateRoute)
            } else {
                Ok::<(), Error>(())
            },
    {
        proof {
            table::lemma_with_action(self@, action@);
        }
        if self.has_route(action.route().kind(), action.route().route()) {
            return Err(Error::DuplicateRoute);
        }
        proof {
            lemma_models_push(self.actions@, action);
        }
        self.actions.push(action);
        Ok(())
    }

    /// Adds an action to the table of actions that only report, under the
    /// same rule.
    pub fn add_info_action(&mut self, action: Action) -> (r: Result<(), Error>)
        requires
            old(self).wf(),
            action.wf(),
        ensures
            final(self).wf(),
            final(self)@ == old(self)@.with_info_action(action@),
            r == if table::has_route(old(self)@.all(), action@.route.identity()) {
                Err::<(), Error>(Error::DuplicateRoute)
            } else {
                Ok::<(), Error>(())
            },
    {
        proof {
            table::lemma_with_action(self@, action@);
        }
        if self.has_route(action.route().kind(), action.route().route()) {
            return Err(Error::DuplicateRoute);
        }
        proof {
            lemma_models_push(self.info_actions@, action);
        }
        self.info_actions.push(action);
        Ok(())
    }

    /// Checks whether every action that the kind of device demands has
    /// been added to the action table.
    pub fn is_complete(&self) -> (r: bool)
        ensures
            r == self@.complete(),
    {
        let mandatory = self.kind.mandatory();
        let mut k: usize = 0;
        while k < mandatory.len()
            invariant
                k <= mandatory.len(),
                mandatory@ == self@.kind.spec_mandatory(),
                forall|j: int|
                    0 <= j < k ==> table::fills(
                        self@.actions,
                        #[trigger] self@.kind.spec_mandatory()[j],
                    ),
            decreases mandatory.len() - k,
        {
            if !table_fills(&self.actions, mandatory[k]) {
                return false;
            }
            k += 1;
        }
        true
    }

    /// The manifest of the device as it stands.
    pub fn manifest(&self) -> (r: JsonValue)
        ensures
            r@ == self@.manifest(),
    {
        let mut routes: Vec<JsonValue> = Vec::new();
        push_documents(&mut routes, &self.actions);
        push_documents(&mut routes, &self.info_actions);
        proof {
            assert(crate::json::spec_items(routes@) =~= table::documents(self@.all()));
        }
        let members = Members::new().with("kind", JsonValue::text(self.kind.name())).with(
            "main_route",
            JsonValue::text(self.main_route.as_str()),
        ).with("routes", JsonValue::array(routes));
        assert(members@ =~= self@.manifest_members());
        members.finish()
    }

    /// Ends the construction. A device that lacks an action that its kind
    /// demands is refused. Otherwise the kind, the prefix, the manifest and
    /// all actions, those that only report last, are handed over.
    pub fn finalize(self) -> (r: Result<Finalized, Error>)
        ensures
            r is Ok <==> self@.complete(),
            r is Err ==> r->Err_0 == Error::IncompleteDevice,
            r is Ok ==> r->Ok_0.kind == self@.kind && r->Ok_0.main_route@ == self@.main_route
                && r->Ok_0.manifest@ == self@.manifest() && models(r->Ok_0.actions@)
                == self@.all(),
    {
        if !self.is_complete() {
            return Err(Error::IncompleteDevice);
        }
        let manifest = self.manifest();
        let mut actions = self.actions;
        let mut info_actions = self.info_actions;
        actions.append(&mut info_actions);
        Ok(Finalized { kind: self.kind, main_route: self.main_route, manifest, actions })
    }
}

} // verus!
