//! The catalog of hazards: the safety, privacy and financial effects that
//! invoking an action can have.
use vstd::prelude::*;
use crate::collections::{Element, OutputSet};
use crate::json::{Json, JsonValue, Members};
use crate::text::str_eq;

verus! {

/// The number of hazards in the catalog.
pub const HAZARD_COUNT: u16 = 22;

/// Hazard categories.
#[derive(Debug, PartialEq, Eq, Hash, Clone, Copy, Structural)]
pub enum Category {
    /// All the hazards related to the safety of the user.
    Safety,
    /// All the hazards related to the protection of personal data.
    Privacy,
    /// All the hazards related to the expense of money.
    Financial,
}

impl Category {
    /// The name of each category.
    pub open spec fn spec_name(self) -> Seq<char> {
        match self {
            Category::Safety => "Safety"@,
            Category::Privacy => "Privacy"@,
            Category::Financial => "Financial"@,
        }
    }

    /// The name of the category.
    pub fn name(self) -> (r: &'static str)
        ensures
            r@ == self.spec_name(),
    {
        match self {
            Category::Safety => "Safety",
            Category::Privacy => "Privacy",
            Category::Financial => "Financial",
        }
    }

    /// What each category covers.
    pub open spec fn spec_description(self) -> Seq<char> {
        match self {
            Category::Safety =>
                "Category which includes all the hazards related to the safety of the user."@,
            Category::Privacy =>
                "Category which includes all the hazards related to the protection of personal data."@,
            Category::Financial =>
                "Category which includes all the hazards related to the expense of money."@,
        }
    }

    /// What the category covers.
    pub fn description(self) -> (r: &'static str)
        ensures
            r@ == self.spec_description(),
    {
        match self {
            Category::Safety =>
                "Category which includes all the hazards related to the safety of the user.",
            Category::Privacy =>
                "Category which includes all the hazards related to the protection of personal data.",
            Category::Financial =>
                "Category which includes all the hazards related to the expense of money.",
        }
    }
}

/// All possible hazards for a device action.
#[derive(Debug, PartialEq, Eq, Hash, Clone, Copy, Structural)]
pub enum Hazard {
    /// The execution may release toxic gases.
    AirPoisoning,
    /// The execution may cause oxygen deficiency by gaseous substances.
    Asphyxia,
    /// The execution authorises an application to display a video with audio coming from a device.
    AudioVideoDisplay,
    /// The execution authorises an application to record and save a video with audio coming from a device on persistent storage.
    AudioVideoRecordAndStore,
    /// The execution enables a device that consumes electricity.
    ElectricEnergyConsumption,
    /// The execution may cause an explosion.
    Explosion,
    /// The execution may cause fire.
    FireHazard,
    /// The execution enables a device that consumes gas.
    GasConsumption,
    /// The execution authorises an application to get and save information about the energy impact of an application.
    LogEnergyConsumption,
    /// The execution authorises an application to get and save information about the duration of use of an application.
    LogUsageTime,
    /// The execution authorises an application to use payment information and make a periodic payment.
    PaySubscriptionFee,
    /// The execution may cause an interruption in the supply of electricity.
    PowerOutage,
    /// The execution may lead to exposure to high voltages.
    PowerSurge,
    /// The execution authorises an application to get and save user inputs.
    RecordIssuedCommands,
    /// The execution authorises an application to get and save information about user's preferences.
    RecordUserPreferences,
    /// The execution authorises an application to use payment information and make a payment transaction.
    SpendMoney,
    /// The execution may lead to rotten food.
    SpoiledFood,
    /// The execution authorises an application to read the display output and take screenshots of it.
    TakeDeviceScreenshots,
    /// The execution authorises an application to use a camera and take photos.
    TakePictures,
    /// The execution disables a protection mechanism, so unauthorised individuals may be able to have physical access to a system.
    UnauthorisedPhysicalAccess,
    /// The execution enables a device that consumes water.
    WaterConsumption,
    /// The execution enables a device that may cause flooding.
    WaterFlooding,
}

impl Hazard {
    /// The identifier of each hazard: its place in the catalog.
    pub open spec fn spec_id(self) -> u16 {
        match self {
            Hazard::AirPoisoning => 0,
            Hazard::Asphyxia => 1,
            Hazard::AudioVideoDisplay => 2,
            Hazard::AudioVideoRecordAndStore => 3,
            Hazard::ElectricEnergyConsumption => 4,
            Hazard::Explosion => 5,
            Hazard::FireHazard => 6,
            Hazard::GasConsumption => 7,
            Hazard::LogEnergyConsumption => 8,
            Hazard::LogUsageTime => 9,
            Hazard::PaySubscriptionFee => 10,
            Hazard::PowerOutage => 11,
            Hazard::PowerSurge => 12,
            Hazard::RecordIssuedCommands => 13,
            Hazard::RecordUserPreferences => 14,
            Hazard::SpendMoney => 15,
            Hazard::SpoiledFood => 16,
            Hazard::TakeDeviceScreenshots => 17,
            Hazard::TakePictures => 18,
            Hazard::UnauthorisedPhysicalAccess => 19,
            Hazard::WaterConsumption => 20,
            Hazard::WaterFlooding => 21,
        }
    }

    /// The hazard of each identifier.
    pub open spec fn spec_from_id(id: u16) -> Option<Hazard> {
        match id {
            0 => Some(Hazard::AirPoisoning),
            1 => Some(Hazard::Asphyxia),
            2 => Some(Hazard::AudioVideoDisplay),
            3 => Some(Hazard::AudioVideoRecordAndStore),
            4 => Some(Hazard::ElectricEnergyConsumption),
            5 => Some(Hazard::Explosion),
            6 => Some(Hazard::FireHazard),
            7 => Some(Hazard::GasConsumption),
            8 => Some(Hazard::LogEnergyConsumption),
            9 => Some(Hazard::LogUsageTime),
            10 => Some(Hazard::PaySubscriptionFee),
            11 => Some(Hazard::PowerOutage),
            12 => Some(Hazard::PowerSurge),
            13 => Some(Hazard::RecordIssuedCommands),
            14 => Some(Hazard::RecordUserPreferences),
            15 => Some(Hazard::SpendMoney),
            16 => Some(Hazard::SpoiledFood),
            17 => Some(Hazard::TakeDeviceScreenshots),
            18 => Some(Hazard::TakePictures),
            19 => Some(Hazard::UnauthorisedPhysicalAccess),
            20 => Some(Hazard::WaterConsumption),
            21 => Some(Hazard::WaterFlooding),
            _ => None,
        }
    }

    /// The hazard of a whole number, if the number is an identifier.
    pub open spec fn spec_read_id(n: int) -> Option<Hazard> {
        if 0 <= n <= 0xffff {
            Self::spec_from_id(n as u16)
        } else {
            None
        }
    }

    /// The name of each hazard.
    pub open spec fn spec_name(self) -> Seq<char> {
        match self {
            Hazard::AirPoisoning => "Air Poisoning"@,
            Hazard::Asphyxia => "Asphyxia"@,
            Hazard::AudioVideoDisplay => "Audio Video Display"@,
            Hazard::AudioVideoRecordAndStore => "Audio Video Record And Store"@,
            Hazard::ElectricEnergyConsumption => "Electric Energy Consumption"@,
            Hazard::Explosion => "Explosion"@,
            Hazard::FireHazard => "Fire Hazard"@,
            Hazard::GasConsumption => "Gas Consumption"@,
            Hazard::LogEnergyConsumption => "Log Energy Consumption"@,
            Hazard::LogUsageTime => "Log Usage Time"@,
            Hazard::PaySubscriptionFee => "Pay Subscription Fee"@,
            Hazard::PowerOutage => "Power Outage"@,
            Hazard::PowerSurge => "Power Surge"@,
            Hazard::RecordIssuedCommands => "Record Issued Commands"@,
            Hazard::RecordUserPreferences => "Record User Preferences"@,
            Hazard::SpendMoney => "Spend Money"@,
            Hazard::SpoiledFood => "Spoiled Food"@,
            Hazard::TakeDeviceScreenshots => "Take Device Screenshots"@,
            Hazard::TakePictures => "Take Pictures"@,
            Hazard::UnauthorisedPhysicalAccess => "Unauthorised Physical Access"@,
            Hazard::WaterConsumption => "Water Consumption"@,
            Hazard::WaterFlooding => "Water Flooding"@,
        }
    }

    /// The description of each hazard.
    pub open spec fn spec_description(self) -> Seq<char> {
        match self {
            Hazard::AirPoisoning => "The execution may release toxic gases."@,
            Hazard::Asphyxia => "The execution may cause oxygen deficiency by gaseous substances."@,
            Hazard::AudioVideoDisplay =>
                "The execution authorises an application to display a video with audio coming from a device."@,
            Hazard::AudioVideoRecordAndStore =>
                "The execution authorises an application to record and save a video with audio coming from a device on persistent storage."@,
            Hazard::ElectricEnergyConsumption =>
                "The execution enables a device that consumes electricity."@,
            Hazard::Explosion => "The execution may cause an explosion."@,
            Hazard::FireHazard => "The execution may cause fire."@,
            Hazard::GasConsumption => "The execution enables a device that consumes gas."@,
            Hazard::LogEnergyConsumption =>
                "The execution authorises an application to get and save information about the energy impact of an application."@,
            Hazard::LogUsageTime =>
                "The execution authorises an application to get and save information about the duration of use of an application."@,
            Hazard::PaySubscriptionFee =>
                "The execution authorises an application to use payment information and make a periodic payment."@,
            Hazard::PowerOutage =>
                "The execution may cause an interruption in the supply of electricity."@,
            Hazard::PowerSurge => "The execution may lead to exposure to high voltages."@,
            Hazard::RecordIssuedCommands =>
                "The execution authorises an application to get and save user inputs."@,
            Hazard::RecordUserPreferences =>
                "The execution authorises an application to get and save information about user's preferences."@,
            Hazard::SpendMoney =>
                "The execution authorises an application to use payment information and make a payment transaction."@,
            Hazard::SpoiledFood => "The execution may lead to rotten food."@,
            Hazard::TakeDeviceScreenshots =>
                "The execution authorises an application to read the display output and take screenshots of it."@,
            Hazard::TakePictures =>
                "The execution authorises an application to use a camera and take photos."@,
            Hazard::UnauthorisedPhysicalAccess =>
                "The execution disables a protection mechanism, so unauthorised individuals may be able to have physical access to a system."@,
            Hazard::WaterConsumption => "The execution enables a device that consumes water."@,
            Hazard::WaterFlooding => "The execution enables a device that may cause flooding."@,
        }
    }

    /// The category of each hazard.
    pub open spec fn spec_category(self) -> Category {
        match self {
            Hazard::AirPoisoning => Category::Safety,
            Hazard::Asphyxia => Category::Safety,
            Hazard::AudioVideoDisplay => Category::Privacy,
            Hazard::AudioVideoRecordAndStore => Category::Privacy,
            Hazard::ElectricEnergyConsumption => Category::Financial,
            Hazard::Explosion => Category::Safety,
            Hazard::FireHazard => Category::Safety,
            Hazard::GasConsumption => Category::Financial,
            Hazard::LogEnergyConsumption => Category::Privacy,
            Hazard::LogUsageTime => Category::Privacy,
            Hazard::PaySubscriptionFee => Category::Financial,
            Hazard::PowerOutage => Category::Safety,
            Hazard::PowerSurge => Category::Safety,
            Hazard::RecordIssuedCommands => Category::Privacy,
            Hazard::RecordUserPreferences => Category::Privacy,
            Hazard::SpendMoney => Category::Financial,
            Hazard::SpoiledFood => Category::Safety,
            Hazard::TakeDeviceScreenshots => Category::Privacy,
            Hazard::TakePictures => Category::Privacy,
            Hazard::UnauthorisedPhysicalAccess => Category::Safety,
            Hazard::WaterConsumption => Category::Financial,
            Hazard::WaterFlooding => Category::Safety,
        }
    }

    /// The members of the document of a hazard.
    pub open spec fn members(self) -> Seq<(Seq<char>, Json)> {
        seq![
            ("id"@, Json::Unsigned(self.spec_id() as u64)),
            ("name"@, Json::Text(self.spec_name())),
            ("category"@, Json::Text(self.spec_category().spec_name())),
            ("description"@, Json::Text(self.spec_description())),
        ]
    }

    /// The identifier of the hazard.
    pub fn id(self) -> (r: u16)
        ensures
            r == self.spec_id(),
            r < HAZARD_COUNT,
    {
        match self {
            Hazard::AirPoisoning => 0,
            Hazard::Asphyxia => 1,
            Hazard::AudioVideoDisplay => 2,
            Hazard::AudioVideoRecordAndStore => 3,
            Hazard::ElectricEnergyConsumption => 4,
            Hazard::Explosion => 5,
            Hazard::FireHazard => 6,
            Hazard::GasConsumption => 7,
            Hazard::LogEnergyConsumption => 8,
            Hazard::LogUsageTime => 9,
            Hazard::PaySubscriptionFee => 10,
            Hazard::PowerOutage => 11,
            Hazard::PowerSurge => 12,
            Hazard::RecordIssuedCommands => 13,
            Hazard::RecordUserPreferences => 14,
            Hazard::SpendMoney => 15,
            Hazard::SpoiledFood => 16,
            Hazard::TakeDeviceScreenshots => 17,
            Hazard::TakePictures => 18,
            Hazard::UnauthorisedPhysicalAccess => 19,
            Hazard::WaterConsumption => 20,
            Hazard::WaterFlooding => 21,
        }
    }

    /// The hazard with the given identifier, if the catalog has one.
    pub fn from_id(id: u16) -> (r: Option<Hazard>)
        ensures
            r == Self::spec_from_id(id),
            r is Some <==> id < HAZARD_COUNT,
            r is Some ==> r->Some_0.spec_id() == id,
    {
        match id {
            0 => Some(Hazard::AirPoisoning),
            1 => Some(Hazard::Asphyxia),
            2 => Some(Hazard::AudioVideoDisplay),
            3 => Some(Hazard::AudioVideoRecordAndStore),
            4 => Some(Hazard::ElectricEnergyConsumption),
            5 => Some(Hazard::Explosion),
            6 => Some(Hazard::FireHazard),
            7 => Some(Hazard::GasConsumption),
            8 => Some(Hazard::LogEnergyConsumption),
            9 => Some(Hazard::LogUsageTime),
            10 => Some(Hazard::PaySubscriptionFee),
            11 => Some(Hazard::PowerOutage),
            12 => Some(Hazard::PowerSurge),
            13 => Some(Hazard::RecordIssuedCommands),
            14 => Some(Hazard::RecordUserPreferences),
            15 => Some(Hazard::SpendMoney),
            16 => Some(Hazard::SpoiledFood),
            17 => Some(Hazard::TakeDeviceScreenshots),
            18 => Some(Hazard::TakePictures),
            19 => Some(Hazard::UnauthorisedPhysicalAccess),
            20 => Some(Hazard::WaterConsumption),
            21 => Some(Hazard::WaterFlooding),
            _ => None,
        }
    }

    /// The name of the hazard.
    pub fn name(self) -> (r: &'static str)
        ensures
            r@ == self.spec_name(),
    {
        match self {
            Hazard::AirPoisoning => "Air Poisoning",
            Hazard::Asphyxia => "Asphyxia",
            Hazard::AudioVideoDisplay => "Audio Video Display",
            Hazard::AudioVideoRecordAndStore => "Audio Video Record And Store",
            Hazard::ElectricEnergyConsumption => "Electric Energy Consumption",
            Hazard::Explosion => "Explosion",
            Hazard::FireHazard => "Fire Hazard",
            Hazard::GasConsumption => "Gas Consumption",
            Hazard::LogEnergyConsumption => "Log Energy Consumption",
            Hazard::LogUsageTime => "Log Usage Time",
            Hazard::PaySubscriptionFee => "Pay Subscription Fee",
            Hazard::PowerOutage => "Power Outage",
            Hazard::PowerSurge => "Power Surge",
            Hazard::RecordIssuedCommands => "Record Issued Commands",
            Hazard::RecordUserPreferences => "Record User Preferences",
            Hazard::SpendMoney => "Spend Money",
            Hazard::SpoiledFood => "Spoiled Food",
            Hazard::TakeDeviceScreenshots => "Take Device Screenshots",
            Hazard::TakePictures => "Take Pictures",
            Hazard::UnauthorisedPhysicalAccess => "Unauthorised Physical Access",
            Hazard::WaterConsumption => "Water Consumption",
            Hazard::WaterFlooding => "Water Flooding",
        }
    }

    /// The description of the hazard.
    pub fn description(self) -> (r: &'static str)
        ensures
            r@ == self.spec_description(),
    {
        match self {
            Hazard::AirPoisoning => "The execution may release toxic gases.",
            Hazard::Asphyxia => "The execution may cause oxygen deficiency by gaseous substances.",
            Hazard::AudioVideoDisplay =>
                "The execution authorises an application to display a video with audio coming from a device.",
            Hazard::AudioVideoRecordAndStore =>
                "The execution authorises an application to record and save a video with audio coming from a device on persistent storage.",
            Hazard::ElectricEnergyConsumption =>
                "The execution enables a device that consumes electricity.",
            Hazard::Explosion => "The execution may cause an explosion.",
            Hazard::FireHazard => "The execution may cause fire.",
            Hazard::GasConsumption => "The execution enables a device that consumes gas.",
            Hazard::LogEnergyConsumption =>
                "The execution authorises an application to get and save information about the energy impact of an application.",
            Hazard::LogUsageTime =>
                "The execution authorises an application to get and save information about the duration of use of an application.",
            Hazard::PaySubscriptionFee =>
                "The execution authorises an application to use payment information and make a periodic payment.",
            Hazard::PowerOutage =>
                "The execution may cause an interruption in the supply of electricity.",
            Hazard::PowerSurge => "The execution may lead to exposure to high voltages.",
            Hazard::RecordIssuedCommands =>
                "The execution authorises an application to get and save user inputs.",
            Hazard::RecordUserPreferences =>
                "The execution authorises an application to get and save information about user's preferences.",
            Hazard::SpendMoney =>
                "The execution authorises an application to use payment information and make a payment transaction.",
            Hazard::SpoiledFood => "The execution may lead to rotten food.",
            Hazard::TakeDeviceScreenshots =>
                "The execution authorises an application to read the display output and take screenshots of it.",
            Hazard::TakePictures =>
                "The execution authorises an application to use a camera and take photos.",
            Hazard::UnauthorisedPhysicalAccess =>
                "The execution disables a protection mechanism, so unauthorised individuals may be able to have physical access to a system.",
            Hazard::WaterConsumption => "The execution enables a device that consumes water.",
            Hazard::WaterFlooding => "The execution enables a device that may cause flooding.",
        }
    }

    /// The category of the hazard.
    pub fn category(self) -> (r: Category)
        ensures
            r == self.spec_category(),
    {
        match self {
            Hazard::AirPoisoning => Category::Safety,
            Hazard::Asphyxia => Category::Safety,
            Hazard::AudioVideoDisplay => Category::Privacy,
            Hazard::AudioVideoRecordAndStore => Category::Privacy,
            Hazard::ElectricEnergyConsumption => Category::Financial,
            Hazard::Explosion => Category::Safety,
            Hazard::FireHazard => Category::Safety,
            Hazard::GasConsumption => Category::Financial,
            Hazard::LogEnergyConsumption => Category::Privacy,
            Hazard::LogUsageTime => Category::Privacy,
            Hazard::PaySubscriptionFee => Category::Financial,
            Hazard::PowerOutage => Category::Safety,
            Hazard::PowerSurge => Category::Safety,
            Hazard::RecordIssuedCommands => Category::Privacy,
            Hazard::RecordUserPreferences => Category::Privacy,
            Hazard::SpendMoney => Category::Financial,
            Hazard::SpoiledFood => Category::Safety,
            Hazard::TakeDeviceScreenshots => Category::Privacy,
            Hazard::TakePictures => Category::Privacy,
            Hazard::UnauthorisedPhysicalAccess => Category::Safety,
            Hazard::WaterConsumption => Category::Financial,
            Hazard::WaterFlooding => Category::Safety,
        }
    }

}

impl Element for Hazard {
    /// The document of a hazard: identifier, name, category and
    /// description.
    open spec fn json(self) -> Json {
        Json::Object(self.members())
    }

    /// The hazard that a document holds: the one with the identifier under
    /// `id`, if name, category and description are those of the catalog.
    open spec fn spec_from_json(document: Json) -> Option<Hazard> {
        match document.member("id"@) {
            Some(id) => match id.integer() {
                Some(n) => match Self::spec_read_id(n) {
                    Some(hazard) => if document.member("name"@) == Some(
                        Json::Text(hazard.spec_name()),
                    ) && document.member("category"@) == Some(
                        Json::Text(hazard.spec_category().spec_name()),
                    ) && document.member("description"@) == Some(
                        Json::Text(hazard.spec_description()),
                    ) {
                        Some(hazard)
                    } else {
                        None
                    },
                    None => None,
                },
                None => None,
            },
            None => None,
        }
    }

    proof fn lemma_round_trip(self) {
        law_hazard_round_trip(self);
    }

    fn same(&self, other: &Self) -> (r: bool) {
        *self == *other
    }

    /// The document of the hazard.
    fn to_json(&self) -> (r: JsonValue)
        ensures
            r@ == self.json(),
    {
        let members = Members::new().with("id", JsonValue::Unsigned(self.id() as u64)).with(
            "name",
            JsonValue::text(self.name()),
        ).with("category", JsonValue::text(self.category().name())).with(
            "description",
            JsonValue::text(self.description()),
        );
        assert(members@ =~= self.members());
        members.finish()
    }

    /// Reads a hazard from a document.
    fn from_json(document: &JsonValue) -> (r: Option<Hazard>)
        ensures
            r == Self::spec_from_json(document@),
    {
        let id = match document.member("id") {
            Some(id) => id,
            None => { return None; },
        };
        let n = match id.as_integer_within(0, 0xffff) {
            Some(n) => n,
            None => { return None; },
        };
        let hazard = match Self::from_id(n as u16) {
            Some(hazard) => hazard,
            None => { return None; },
        };
        if holds_text(document, "name", hazard.name()) && holds_text(
            document,
            "category",
            hazard.category().name(),
        ) && holds_text(document, "description", hazard.description()) {
            Some(hazard)
        } else {
            None
        }
    }
}

/// Whether the document has a member of this name whose first occurrence
/// holds exactly this text.
pub fn holds_text(document: &JsonValue, name: &str, text: &str) -> (r: bool)
    ensures
        r == (document@.member(name@) == Some(Json::Text(text@))),
{
    match document.member(name) {
        Some(value) => match value.as_text() {
            Some(found) => str_eq(found, text),
            None => false,
        },
        None => false,
    }
}

/// A collection of [`Hazard`]s without repetitions, in the order of their
/// first insertion.
pub type Hazards = OutputSet<Hazard>;

/// Every hazard of the catalog, in the order of the identifiers.
pub fn all_hazards() -> (all: Vec<Hazard>)
    ensures
        all@.len() == HAZARD_COUNT,
        forall|i: int| 0 <= i < all@.len() ==> (#[trigger] all@[i]).spec_id() == i,
{
    let mut all = Vec::new();
    all.push(Hazard::AirPoisoning);
    all.push(Hazard::Asphyxia);
    all.push(Hazard::AudioVideoDisplay);
    all.push(Hazard::AudioVideoRecordAndStore);
    all.push(Hazard::ElectricEnergyConsumption);
    all.push(Hazard::Explosion);
    all.push(Hazard::FireHazard);
    all.push(Hazard::GasConsumption);
    all.push(Hazard::LogEnergyConsumption);
    all.push(Hazard::LogUsageTime);
    all.push(Hazard::PaySubscriptionFee);
    all.push(Hazard::PowerOutage);
    all.push(Hazard::PowerSurge);
    all.push(Hazard::RecordIssuedCommands);
    all.push(Hazard::RecordUserPreferences);
    all.push(Hazard::SpendMoney);
    all.push(Hazard::SpoiledFood);
    all.push(Hazard::TakeDeviceScreenshots);
    all.push(Hazard::TakePictures);
    all.push(Hazard::UnauthorisedPhysicalAccess);
    all.push(Hazard::WaterConsumption);
    all.push(Hazard::WaterFlooding);
    all
}

/// A hazard is found again by its identifier, and two hazards with one
/// identifier are the same hazard.
pub proof fn law_identity_is_identifier(hazard: Hazard, other: Hazard)
    ensures
        Hazard::spec_from_id(hazard.spec_id()) == Some(hazard),
        hazard.spec_id() == other.spec_id() ==> hazard == other,
{
}

/// Reading the document of a hazard gives the hazard back.
pub proof fn law_hazard_round_trip(hazard: Hazard)
    ensures
        <Hazard as Element>::spec_from_json(hazard.json()) == Some(hazard),
{
    reveal_strlit("id");
    reveal_strlit("name");
    reveal_strlit("category");
    reveal_strlit("description");
    reveal_with_fuel(crate::json::spec_first_named, 5);
    assert("id"@.len() == 2 && "name"@.len() == 4 && "category"@.len() == 8 && "description"@.len()
        == 11);
}

} // verus!
