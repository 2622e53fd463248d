//! What an action table holds, as mathematics, and what a device is made
//! of.
use vstd::prelude::*;
use crate::device::action::{ActionModel, MandatoryAction};
use crate::json::Json;
use crate::route::RestKind;
use crate::text::str_eq;

verus! {

/// Whether the table has an action of this method and path.
pub open spec fn has_route(table: Seq<ActionModel>, identity: (RestKind, Seq<char>)) -> bool {
    exists|i: int| 0 <= i < table.len() && (#[trigger] table[i]).route.identity() == identity
}

/// No two actions of the table share method and path.
pub open spec fn distinct(table: Seq<ActionModel>) -> bool {
    forall|i: int, j: int|
        0 <= i < j < table.len() ==> (#[trigger] table[i]).route.identity() != (
        #[trigger] table[j]).route.identity()
}

/// Every route of the table is well formed.
pub open spec fn routes_wf(table: Seq<ActionModel>) -> bool {
    forall|i: int| 0 <= i < table.len() ==> (#[trigger] table[i]).route.wf()
}

/// Whether some action of the table is the given mandatory action.
pub open spec fn fills(table: Seq<ActionModel>, role: MandatoryAction) -> bool {
    exists|i: int| 0 <= i < table.len() && (#[trigger] table[i]).role == Some(role)
}

/// The documents of the routes of a table, in its order.
pub open spec fn documents(table: Seq<ActionModel>) -> Seq<Json> {
    Seq::new(table.len(), |i: int| table[i].route.json())
}

/// Kinds of device.
#[derive(Debug, PartialEq, Eq, Hash, Clone, Copy, Structural)]
pub enum DeviceKind {
    /// A device of no particular kind.
    Generic,
    /// A light.
    Light,
    /// A fridge.
    Fridge,
    /// A camera.
    Camera,
}

impl DeviceKind {
    /// The name of each kind.
    pub open spec fn spec_name(self) -> Seq<char> {
        match self {
            DeviceKind::Generic => "Generic"@,
            DeviceKind::Light => "Light"@,
            DeviceKind::Fridge => "Fridge"@,
            DeviceKind::Camera => "Camera"@,
        }
    }

    /// The kind of each name.
    pub open spec fn spec_from_name(name: Seq<char>) -> Option<DeviceKind> {
        if name == "Generic"@ {
            Some(DeviceKind::Generic)
        } else if name == "Light"@ {
            Some(DeviceKind::Light)
        } else if name == "Fridge"@ {
            Some(DeviceKind::Fridge)
        } else if name == "Camera"@ {
            Some(DeviceKind::Camera)
        } else {
            None
        }
    }

    /// The prefix under which a device of each kind serves its routes
    /// unless it is given another.
    pub open spec fn spec_main_route(self) -> Seq<char> {
        match self {
            DeviceKind::Generic => "/device"@,
            DeviceKind::Light => "/light"@,
            DeviceKind::Fridge => "/fridge"@,
            DeviceKind::Camera => "/camera"@,
        }
    }

    /// The actions that a device of each kind must define: a light is
    /// turned on and off, the temperature of a fridge is raised and
    /// lowered.
    pub open spec fn spec_mandatory(self) -> Seq<MandatoryAction> {
        match self {
            DeviceKind::Light => seq![MandatoryAction::TurnLightOn, MandatoryAction::TurnLightOff],
            DeviceKind::Fridge => seq![
                MandatoryAction::IncreaseTemperature,
                MandatoryAction::DecreaseTemperature,
            ],
            _ => Seq::empty(),
        }
    }

    /// The name of the kind.
    pub fn name(self) -> (r: &'static str)
        ensures
            r@ == self.spec_name(),
    {
        match self {
            DeviceKind::Generic => "Generic",
            DeviceKind::Light => "Light",
            DeviceKind::Fridge => "Fridge",
            DeviceKind::Camera => "Camera",
        }
    }

    /// The kind with the given name, if there is one.
    pub fn from_name(name: &str) -> (r: Option<DeviceKind>)
        ensures
            r == Self::spec_from_name(name@),
    {
        if str_eq(name, "Generic") {
            Some(DeviceKind::Generic)
        } else if str_eq(name, "Light") {
            Some(DeviceKind::Light)
        } else if str_eq(name, "Fridge") {
            Some(DeviceKind::Fridge)
        } else if str_eq(name, "Camera") {
            Some(DeviceKind::Camera)
        } else {
            None
        }
    }

    /// The prefix under which a device of this kind serves its routes
    /// unless it is given another.
    pub fn main_route(self) -> (r: &'static str)
        ensures
            r@ == self.spec_main_route(),
    {
        match self {
            DeviceKind::Generic => "/device",
            DeviceKind::Light => "/light",
            DeviceKind::Fridge => "/fridge",
            DeviceKind::Camera => "/camera",
        }
    }

    /// The actions that a device of this kind must define.
    pub fn mandatory(self) -> (r: Vec<MandatoryAction>)
        ensures
            r@ == self.spec_mandatory(),
    {
        let mut list = Vec::new();
        match self {
            DeviceKind::Light => {
                list.push(MandatoryAction::TurnLightOn);
                list.push(MandatoryAction::TurnLightOff);
            },
            DeviceKind::Fridge => {
                list.push(MandatoryAction::IncreaseTemperature);
                list.push(MandatoryAction::DecreaseTemperature);
            },
            _ => {},
        }
        list
    }
}

/// Every kind is found again by its name.
pub proof fn lemma_kind_by_name(kind: DeviceKind)
    ensures
        DeviceKind::spec_from_name(kind.spec_name()) == Some(kind),
{
    reveal_strlit("Generic");
    reveal_strlit("Light");
    reveal_strlit("Fridge");
    reveal_strlit("Camera");
    let name = kind.spec_name();
    if name.len() == 6 {
        assert(name[0] == 'F' || name[0] == 'C');
    }
}

/// The mathematical model of a device under construction.
pub struct DeviceModel {
    /// The kind of device.
    pub kind: DeviceKind,
    /// The prefix under which the routes are served.
    pub main_route: Seq<char>,
    /// The actions, in the order in which they were added.
    pub actions: Seq<ActionModel>,
    /// The actions that only report, in the order in which they were added.
    pub info_actions: Seq<ActionModel>,
}

impl DeviceModel {
    /// Both tables, the actions first.
    pub open spec fn all(self) -> Seq<ActionModel> {
        self.actions + self.info_actions
    }

    /// No two actions of the device, of either table, share method and
    /// path, and every route is well formed.
    pub open spec fn wf(self) -> bool {
        distinct(self.all()) && routes_wf(self.all())
    }

    /// Every action that the kind of device demands has been added.
    pub open spec fn complete(self) -> bool {
        forall|k: int|
            0 <= k < self.kind.spec_mandatory().len() ==> fills(
                self.actions,
                #[trigger] self.kind.spec_mandatory()[k],
            )
    }

    /// The members of the manifest.
    pub open spec fn manifest_members(self) -> Seq<(Seq<char>, Json)> {
        seq![
            ("kind"@, Json::Text(self.kind.spec_name())),
            ("main_route"@, Json::Text(self.main_route)),
            ("routes"@, Json::Array(documents(self.all()))),
        ]
    }

    /// The manifest: the kind, the prefix, and the documents of all routes,
    /// those of the actions first.
    pub open spec fn manifest(self) -> Json {
        Json::Object(self.manifest_members())
    }

    /// The device after an action was offered to the action table: as it
    /// was if method and path are taken, else with the action at the end.
    pub open spec fn with_action(self, action: ActionModel) -> DeviceModel {
        if has_route(self.all(), action.route.identity()) {
            self
        } else {
            DeviceModel { actions: self.actions.push(action), ..self }
        }
    }

    /// The device after an action was offered to the table of actions that
    /// only report.
    pub open spec fn with_info_action(self, action: ActionModel) -> DeviceModel {
        if has_route(self.all(), action.route.identity()) {
            self
        } else {
            DeviceModel { info_actions: self.info_actions.push(action), ..self }
        }
    }
}

/// Two tables in a row have a route if one of them has it.
pub proof fn lemma_has_route_in_either(
    first: Seq<ActionModel>,
    second: Seq<ActionModel>,
    identity: (RestKind, Seq<char>),
)
    ensures
        has_route(first + second, identity) == (has_route(first, identity) || has_route(
            second,
            identity,
        )),
{
    let all = first + second;
    let n = first.len() as int;
    if has_route(first, identity) {
        let i = choose|i: int|
            0 <= i < first.len() && (#[trigger] first[i]).route.identity() == identity;
        assert(all[i] == first[i]);
    }
    if has_route(second, identity) {
        let i = choose|i: int|
            0 <= i < second.len() && (#[trigger] second[i]).route.identity() == identity;
        assert(all[n + i] == second[i]);
    }
}

/// Adding an action whose method and path are free keeps the device free
/// of conflicts.
pub proof fn lemma_with_action(device: DeviceModel, action: ActionModel)
    requires
        device.wf(),
        action.route.wf(),
    ensures
        device.with_action(action).wf(),
        device.with_info_action(action).wf(),
{
    if !has_route(device.all(), action.route.identity()) {
        let before = device.all();
        let a = device.with_action(action).all();
        let n = device.actions.len() as int;
        assert forall|i: int| 0 <= i < a.len() implies (#[trigger] a[i]).route.wf() by {
            if i < n {
                assert(a[i] == before[i]);
            } else if i > n {
                assert(a[i] == before[i - 1]);
            }
        }
        assert forall|i: int, j: int| 0 <= i < j < a.len() implies (#[trigger] a[i]).route.identity()
            != (#[trigger] a[j]).route.identity() by {
            let bi = if i < n { i } else { i - 1 };
            let bj = if j < n { j } else { j - 1 };
            if i != n {
                assert(a[i] == before[bi]);
            }
            if j != n {
                assert(a[j] == before[bj]);
            }
        }
        let b = device.with_info_action(action).all();
        assert(b =~= before.push(action));
        assert forall|i: int| 0 <= i < b.len() implies (#[trigger] b[i]).route.wf() by {
        }
        assert forall|i: int, j: int| 0 <= i < j < b.len() implies (#[trigger] b[i]).route.identity()
            != (#[trigger] b[j]).route.identity() by {
        }
    }
}

/// The manifest is decided by what the device holds: two devices of the
/// same kind and prefix with the same actions in the same order have the
/// same manifest with the same text, so that writing it out twice writes
/// the same.
pub proof fn law_manifest_is_stable(first: DeviceModel, second: DeviceModel)
    requires
        first.kind == second.kind,
        first.main_route == second.main_route,
        first.actions =~= second.actions,
        first.info_actions =~= second.info_actions,
    ensures
        first.manifest() == second.manifest(),
        crate::json::writer::spec_text(first.manifest()) == crate::json::writer::spec_text(
            second.manifest(),
        ),
{
}

/// A refused action changes nothing; an accepted one changes nothing but
/// the end of its table, and leaves the routes of the manifest as they
/// were but for one more.
pub proof fn law_refusal_changes_nothing(device: DeviceModel, action: ActionModel)
    ensures
        has_route(device.all(), action.route.identity()) ==> device.with_action(action) == device
            && device.with_info_action(action) == device,
        !has_route(device.all(), action.route.identity()) ==> device.with_action(
            action,
        ).all().len() == device.all().len() + 1 && device.with_info_action(action).all()
            == device.all().push(action),
{
    assert(device.with_info_action(action).all() =~= if has_route(
        device.all(),
        action.route.identity(),
    ) {
        device.all()
    } else {
        device.all().push(action)
    });
}

} // verus!
