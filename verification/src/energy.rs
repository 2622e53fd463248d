//! Energy labels of a device: efficiency classes and the percentages that
//! a device saves or consumes within them.
use vstd::prelude::*;
use crate::collections::{Element, OutputSet};
use crate::json::{Json, JsonValue, Members};
use crate::text::{decimal, owned, spec_decimal, str_eq};
use vstd::string::StringExecFns;

verus! {

/// Energy efficiency class.
#[derive(Debug, PartialEq, Eq, Hash, Clone, Copy, Structural)]
pub enum EnergyClass {
    /// A+++
    APlusPlusPlus,
    /// A++
    APlusPlus,
    /// A+
    APlus,
    /// A
    A,
    /// B
    B,
    /// C
    C,
    /// D
    D,
    /// E
    E,
    /// F
    F,
    /// G
    G,
}

impl EnergyClass {
    /// The label of each class.
    pub open spec fn spec_name(self) -> Seq<char> {
        match self {
            EnergyClass::APlusPlusPlus => "A+++"@,
            EnergyClass::APlusPlus => "A++"@,
            EnergyClass::APlus => "A+"@,
            EnergyClass::A => "A"@,
            EnergyClass::B => "B"@,
            EnergyClass::C => "C"@,
            EnergyClass::D => "D"@,
            EnergyClass::E => "E"@,
            EnergyClass::F => "F"@,
            EnergyClass::G => "G"@,
        }
    }

    /// The class that carries a label, if one does.
    pub open spec fn spec_from_name(name: Seq<char>) -> Option<EnergyClass> {
        if name == "A+++"@ {
            Some(EnergyClass::APlusPlusPlus)
        } else if name == "A++"@ {
            Some(EnergyClass::APlusPlus)
        } else if name == "A+"@ {
            Some(EnergyClass::APlus)
        } else if name == "A"@ {
            Some(EnergyClass::A)
        } else if name == "B"@ {
            Some(EnergyClass::B)
        } else if name == "C"@ {
            Some(EnergyClass::C)
        } else if name == "D"@ {
            Some(EnergyClass::D)
        } else if name == "E"@ {
            Some(EnergyClass::E)
        } else if name == "F"@ {
            Some(EnergyClass::F)
        } else if name == "G"@ {
            Some(EnergyClass::G)
        } else {
            None
        }
    }

    /// The document of a class: its label.
    pub open spec fn json(self) -> Json {
        Json::Text(self.spec_name())
    }

    /// The class that a document holds, if it is the label of one.
    pub open spec fn spec_from_json(document: Json) -> Option<EnergyClass> {
        match document {
            Json::Text(name) => Self::spec_from_name(name),
            _ => None,
        }
    }

    /// The label of the class.
    pub fn name(self) -> (label: &'static str)
        ensures
            label@ == self.spec_name(),
    {
        match self {
            Self::APlusPlusPlus => "A+++",
            Self::APlusPlus => "A++",
            Self::APlus => "A+",
            Self::A => "A",
            Self::B => "B",
            Self::C => "C",
            Self::D => "D",
            Self::E => "E",
            Self::F => "F",
            Self::G => "G",
        }
    }

    /// The class that carries the label, if one does.
    pub fn from_name(name: &str) -> (r: Option<EnergyClass>)
        ensures
            r == Self::spec_from_name(name@),
    {
        if str_eq(name, "A+++") {
            Some(EnergyClass::APlusPlusPlus)
        } else if str_eq(name, "A++") {
            Some(EnergyClass::APlusPlus)
        } else if str_eq(name, "A+") {
            Some(EnergyClass::APlus)
        } else if str_eq(name, "A") {
            Some(EnergyClass::A)
        } else if str_eq(name, "B") {
            Some(EnergyClass::B)
        } else if str_eq(name, "C") {
            Some(EnergyClass::C)
        } else if str_eq(name, "D") {
            Some(EnergyClass::D)
        } else if str_eq(name, "E") {
            Some(EnergyClass::E)
        } else if str_eq(name, "F") {
            Some(EnergyClass::F)
        } else if str_eq(name, "G") {
            Some(EnergyClass::G)
        } else {
            None
        }
    }

    /// The document of the class.
    pub fn to_json(self) -> (r: JsonValue)
        ensures
            r@ == self.json(),
    {
        JsonValue::text(self.name())
    }

    /// Reads a class from a document.
    pub fn from_json(document: &JsonValue) -> (r: Option<EnergyClass>)
        ensures
            r == Self::spec_from_json(document@),
    {
        match document.as_text() {
            Some(name) => Self::from_name(name),
            None => None,
        }
    }
}

/// Every class is found again by its label.
pub proof fn lemma_class_by_name(class: EnergyClass)
    ensures
        EnergyClass::spec_from_name(class.spec_name()) == Some(class),
        EnergyClass::spec_from_json(class.json()) == Some(class),
{
    reveal_strlit("A+++");
    reveal_strlit("A++");
    reveal_strlit("A+");
    reveal_strlit("A");
    reveal_strlit("B");
    reveal_strlit("C");
    reveal_strlit("D");
    reveal_strlit("E");
    reveal_strlit("F");
    reveal_strlit("G");
    let name = class.spec_name();
    if name.len() == 1 {
        assert(name[0] == 'A' || name[0] == 'B' || name[0] == 'C' || name[0] == 'D' || name[0]
            == 'E' || name[0] == 'F' || name[0] == 'G');
    }
}

/// The percentage that lies nearest to `percentage` between -100 and 100.
pub open spec fn spec_clamp(percentage: i8) -> i8 {
    if percentage >= 100 {
        100
    } else if percentage <= -100 {
        (-100) as i8
    } else {
        percentage
    }
}

/// The members of the document of a percentage within a class.
pub open spec fn spec_label_members(percentage: i8, energy_class: EnergyClass) -> Seq<
    (Seq<char>, Json),
> {
    seq![
        ("percentage"@, Json::Signed(percentage as i64)),
        ("energy-class"@, energy_class.json()),
    ]
}

/// The percentage and the class that a document holds, if it holds both:
/// a whole number that fits eight bits under `percentage`, and the label of
/// a class under `energy-class`.
pub open spec fn spec_read_label(document: Json) -> Option<(i8, EnergyClass)> {
    match (document.member("percentage"@), document.member("energy-class"@)) {
        (Some(percentage), Some(class)) => match (
            percentage.integer(),
            EnergyClass::spec_from_json(class),
        ) {
            (Some(n), Some(c)) => if -128 <= n <= 127 {
                Some((n as i8, c))
            } else {
                None
            },
            _ => None,
        },
        _ => None,
    }
}

fn write_label(percentage: i8, energy_class: EnergyClass) -> (r: JsonValue)
    ensures
        r@ == Json::Object(spec_label_members(percentage, energy_class)),
{
    let members = Members::new().with("percentage", JsonValue::Signed(percentage as i64)).with(
        "energy-class",
        energy_class.to_json(),
    );
    assert(members@ =~= spec_label_members(percentage, energy_class));
    members.finish()
}

fn read_label(document: &JsonValue) -> (r: Option<(i8, EnergyClass)>)
    ensures
        r == spec_read_label(document@),
{
    let percentage = match document.member("percentage") {
        Some(p) => p,
        None => { return None; },
    };
    let class = match document.member("energy-class") {
        Some(c) => c,
        None => { return None; },
    };
    let n = match percentage.as_integer_within(-128, 127) {
        Some(n) => n,
        None => { return None; },
    };
    match EnergyClass::from_json(class) {
        Some(c) => Some((n as i8, c)),
        None => None,
    }
}

/// What was written is read again.
pub proof fn lemma_label_round_trip(percentage: i8, energy_class: EnergyClass)
    ensures
        spec_read_label(Json::Object(spec_label_members(percentage, energy_class))) == Some(
            (percentage, energy_class),
        ),
{
    reveal_strlit("percentage");
    reveal_strlit("energy-class");
    reveal_with_fuel(crate::json::spec_first_named, 3);
    lemma_class_by_name(energy_class);
    assert("percentage"@ != "energy-class"@) by {
        assert("percentage"@.len() != "energy-class"@.len());
    }
}

/// The distance of a percentage from zero.
pub open spec fn spec_magnitude(percentage: i8) -> nat {
    if percentage < 0 {
        (-percentage) as nat
    } else {
        percentage as nat
    }
}

/// A sentence made of a beginning, a verb, a percentage without its sign,
/// a middle, the label of a class, and an end.
pub open spec fn spec_sentence(
    verb: Seq<char>,
    percentage: i8,
    middle: Seq<char>,
    energy_class: EnergyClass,
) -> Seq<char> {
    "The device "@ + verb + " a "@ + spec_decimal(spec_magnitude(percentage)) + middle
        + energy_class.spec_name() + "\" efficiency class"@
}

fn sentence(verb: &str, percentage: i8, middle: &str, energy_class: EnergyClass) -> (r: String)
    ensures
        r@ == spec_sentence(verb@, percentage, middle@, energy_class),
{
    let magnitude: u64 = if percentage < 0 {
        (-(percentage as i64)) as u64
    } else {
        percentage as u64
    };
    let mut r = owned("The device ");
    r.append(verb);
    r.append(" a ");
    r.append(decimal(magnitude).as_str());
    r.append(middle);
    r.append(energy_class.name());
    r.append("\" efficiency class");
    r
}

/// Energy efficiency.
#[derive(Debug, PartialEq, Eq, Hash, Clone, Copy, Structural)]
pub struct EnergyEfficiency {
    /// Energy efficiency savings or consumes for the relevant [`EnergyClass`].
    pub percentage: i8,
    /// Energy class.
    pub energy_class: EnergyClass,
}

impl EnergyEfficiency {
    /// Creates an [`EnergyEfficiency`] instance.
    ///
    /// A percentage lower than -100 is set to -100, one greater than 100
    /// to 100.
    pub fn new(percentage: i8, energy_class: EnergyClass) -> (r: Self)
        ensures
            r.percentage == spec_clamp(percentage),
            r.energy_class == energy_class,
    {
        let percentage: i8 = if percentage >= 100 {
            100
        } else if percentage <= -100 {
            -100
        } else {
            percentage
        };
        Self { percentage, energy_class }
    }

    /// The efficiency in words.
    pub open spec fn spec_description(self) -> Seq<char> {
        spec_sentence(
            if self.percentage < 0 {
                "saves"@
            } else {
                "consumes"@
            },
            self.percentage,
            "% of energy for the \""@,
            self.energy_class,
        )
    }

    /// Says in words whether the device saves or consumes energy, how much,
    /// and within which class.
    pub fn description(&self) -> (r: String)
        ensures
            r@ == self.spec_description(),
    {
        let verb = if self.percentage < 0 {
            "saves"
        } else {
            "consumes"
        };
        sentence(verb, self.percentage, "% of energy for the \"", self.energy_class)
    }
}

impl Element for EnergyEfficiency {
    /// The document of an efficiency.
    open spec fn json(self) -> Json {
        Json::Object(spec_label_members(self.percentage, self.energy_class))
    }

    /// The efficiency that a document holds, if it holds one.
    open spec fn spec_from_json(document: Json) -> Option<EnergyEfficiency> {
        match spec_read_label(document) {
            Some((percentage, energy_class)) => Some(EnergyEfficiency { percentage, energy_class }),
            None => None,
        }
    }

    /// The document of the efficiency.
    fn to_json(&self) -> (r: JsonValue)
        ensures
            r@ == self.json(),
    {
        write_label(self.percentage, self.energy_class)
    }

    /// Reads an efficiency from a document, with the percentage as it
    /// stands there.
    fn from_json(document: &JsonValue) -> (r: Option<EnergyEfficiency>)
        ensures
            r == Self::spec_from_json(document@),
    {
        match read_label(document) {
            Some((percentage, energy_class)) => Some(EnergyEfficiency { percentage, energy_class }),
            None => None,
        }
    }

    proof fn lemma_round_trip(self) {
        law_efficiency_round_trip(self);
    }

    fn same(&self, other: &Self) -> (r: bool) {
        *self == *other
    }
}

/// Carbon footprint.
#[derive(Debug, PartialEq, Eq, Hash, Clone, Copy, Structural)]
pub struct CarbonFootprint {
    /// The percentage of greenhouse gases added or removed from the atmosphere
    /// for the relevant [`EnergyClass`].
    pub percentage: i8,
    /// Energy class.
    pub energy_class: EnergyClass,
}

impl CarbonFootprint {
    /// Creates a [`CarbonFootprint`] instance.
    ///
    /// A percentage lower than -100 is set to -100, one greater than 100
    /// to 100.
    pub fn new(percentage: i8, energy_class: EnergyClass) -> (r: Self)
        ensures
            r.percentage == spec_clamp(percentage),
            r.energy_class == energy_class,
    {
        let percentage: i8 = if percentage >= 100 {
            100
        } else if percentage <= -100 {
            -100
        } else {
            percentage
        };
        Self { percentage, energy_class }
    }

    /// The footprint in words.
    pub open spec fn spec_description(self) -> Seq<char> {
        spec_sentence(
            if self.percentage < 0 {
                "removes from the atmosphere"@
            } else {
                "adds to the atmosphere"@
            },
            self.percentage,
            "% of greenhouse gases for the \""@,
            self.energy_class,
        )
    }

    /// Says in words whether the device adds greenhouse gases to the
    /// atmosphere or removes them, how much, and within which class.
    pub fn description(&self) -> (r: String)
        ensures
            r@ == self.spec_description(),
    {
        let verb = if self.percentage < 0 {
            "removes from the atmosphere"
        } else {
            "adds to the atmosphere"
        };
        sentence(verb, self.percentage, "% of greenhouse gases for the \"", self.energy_class)
    }
}

impl Element for CarbonFootprint {
    /// The document of a footprint.
    open spec fn json(self) -> Json {
        Json::Object(spec_label_members(self.percentage, self.energy_class))
    }

    /// The footprint that a document holds, if it holds one.
    open spec fn spec_from_json(document: Json) -> Option<CarbonFootprint> {
        match spec_read_label(document) {
            Some((percentage, energy_class)) => Some(CarbonFootprint { percentage, energy_class }),
            None => None,
        }
    }

    /// The document of the footprint.
    fn to_json(&self) -> (r: JsonValue)
        ensures
            r@ == self.json(),
    {
        write_label(self.percentage, self.energy_class)
    }

    /// Reads a footprint from a document, with the percentage as it stands
    /// there.
    fn from_json(document: &JsonValue) -> (r: Option<CarbonFootprint>)
        ensures
            r == Self::spec_from_json(document@),
    {
        match read_label(document) {
            Some((percentage, energy_class)) => Some(CarbonFootprint { percentage, energy_class }),
            None => None,
        }
    }

    proof fn lemma_round_trip(self) {
        law_footprint_round_trip(self);
    }

    fn same(&self, other: &Self) -> (r: bool) {
        *self == *other
    }
}

/// Reading the document of an efficiency gives the efficiency back.
pub proof fn law_efficiency_round_trip(efficiency: EnergyEfficiency)
    ensures
        <EnergyEfficiency as Element>::spec_from_json(efficiency.json()) == Some(efficiency),
{
    lemma_label_round_trip(efficiency.percentage, efficiency.energy_class);
}

/// Reading the document of a footprint gives the footprint back.
pub proof fn law_footprint_round_trip(footprint: CarbonFootprint)
    ensures
        <CarbonFootprint as Element>::spec_from_json(footprint.json()) == Some(footprint),
{
    lemma_label_round_trip(footprint.percentage, footprint.energy_class);
}

/// A collection of [`EnergyEfficiency`]s.
pub type EnergyEfficiencies = OutputSet<EnergyEfficiency>;

/// A collection of [`CarbonFootprint`]s.
pub type CarbonFootprints = OutputSet<CarbonFootprint>;

/// The document of a metric that may be missing.
pub open spec fn spec_metric(metric: Option<u64>) -> Json {
    match metric {
        Some(bits) => Json::Double(bits),
        None => Json::Null,
    }
}

/// The metric under a name: missing if the name is missing or holds
/// nothing, unreadable if it holds anything but a double-precision number.
pub open spec fn spec_read_metric(document: Json, name: Seq<char>) -> Option<Option<u64>> {
    match document.member(name) {
        None => Some(None),
        Some(Json::Null) => Some(None),
        Some(Json::Double(bits)) => Some(Some(bits)),
        _ => None,
    }
}

fn write_metric(metric: Option<u64>) -> (r: JsonValue)
    ensures
        r@ == spec_metric(metric),
{
    match metric {
        Some(bits) => JsonValue::Double(bits),
        None => JsonValue::Null,
    }
}

fn read_metric(document: &JsonValue, name: &str) -> (r: Option<Option<u64>>)
    ensures
        r == spec_read_metric(document@, name@),
{
    match document.member(name) {
        None => Some(None),
        Some(value) => match value {
            JsonValue::Null => Some(None),
            JsonValue::Double(bits) => Some(Some(*bits)),
            _ => None,
        },
    }
}

/// Water-Use efficiency data.
///
/// Every metric is a double-precision number, given and held as its bits.
#[derive(Debug, PartialEq, Eq, Clone, Copy, Structural)]
pub struct WaterUseEfficiency {
    /// Gross Primary Productivity (GPP).
    pub gpp: Option<u64>,
    /// Penman-Monteith Equation.
    pub penman_monteith_equation: Option<u64>,
    /// Water Equivalent Ratio (WER).
    pub wer: Option<u64>,
}

impl WaterUseEfficiency {
    /// The members of the document of the metrics.
    pub open spec fn members(self) -> Seq<(Seq<char>, Json)> {
        seq![
            ("gross-primary-productivity"@, spec_metric(self.gpp)),
            ("penman-monteith-equation"@, spec_metric(self.penman_monteith_equation)),
            ("water-equivalent-ratio"@, spec_metric(self.wer)),
        ]
    }

    /// The document of the metrics: all three, each a number or nothing.
    pub open spec fn json(self) -> Json {
        Json::Object(self.members())
    }

    /// The metrics that a document holds, if it is readable.
    pub open spec fn spec_from_json(document: Json) -> Option<WaterUseEfficiency> {
        match (
            spec_read_metric(document, "gross-primary-productivity"@),
            spec_read_metric(document, "penman-monteith-equation"@),
            spec_read_metric(document, "water-equivalent-ratio"@),
        ) {
            (Some(gpp), Some(penman_monteith_equation), Some(wer)) => if document is Object {
                Some(WaterUseEfficiency { gpp, penman_monteith_equation, wer })
            } else {
                None
            },
            _ => None,
        }
    }

    /// Creates a new [`WaterUseEfficiency`] instance initialized with
    /// `GPP` metric.
    pub fn init_with_gpp(gpp: u64) -> (r: Self)
        ensures
            r == (WaterUseEfficiency { gpp: Some(gpp), penman_monteith_equation: None, wer: None }),
    {
        Self { gpp: Some(gpp), penman_monteith_equation: None, wer: None }
    }

    /// Creates a new [`WaterUseEfficiency`] instance initialized with
    /// `Penman-Monteith Equation` metric.
    pub fn init_with_penman_monteith_equation(penman_monteith_equation: u64) -> (r: Self)
        ensures
            r == (WaterUseEfficiency {
                gpp: None,
                penman_monteith_equation: Some(penman_monteith_equation),
                wer: None,
            }),
    {
        Self { gpp: None, penman_monteith_equation: Some(penman_monteith_equation), wer: None }
    }

    /// Creates a new [`WaterUseEfficiency`] instance initialized with
    /// `Water Equivalent Ratio (WER)` metric.
    pub fn init_with_wer(wer: u64) -> (r: Self)
        ensures
            r == (WaterUseEfficiency { gpp: None, penman_monteith_equation: None, wer: Some(wer) }),
    {
        Self { gpp: None, penman_monteith_equation: None, wer: Some(wer) }
    }

    /// Adds `GPP` metric.
    pub fn gpp(self, gpp: u64) -> (r: Self)
        ensures
            r == (WaterUseEfficiency { gpp: Some(gpp), ..self }),
    {
        Self {
            gpp: Some(gpp),
            penman_monteith_equation: self.penman_monteith_equation,
            wer: self.wer,
        }
    }

    /// Adds `Penman-Monteith Equation` metric.
    pub fn penman_monteith_equation(self, penman_monteith_equation: u64) -> (r: Self)
        ensures
            r == (WaterUseEfficiency {
                penman_monteith_equation: Some(penman_monteith_equation),
                ..self
            }),
    {
        Self {
            gpp: self.gpp,
            penman_monteith_equation: Some(penman_monteith_equation),
            wer: self.wer,
        }
    }

    /// Adds `Water Equivalent Ratio (WER)` metric.
    pub fn wer(self, wer: u64) -> (r: Self)
        ensures
            r == (WaterUseEfficiency { wer: Some(wer), ..self }),
    {
        Self { gpp: self.gpp, penman_monteith_equation: self.penman_monteith_equation, wer: Some(wer) }
    }

    /// The document of the metrics.
    pub fn to_json(&self) -> (r: JsonValue)
        ensures
            r@ == self.json(),
    {
        let members = Members::new().with("gross-primary-productivity", write_metric(self.gpp)).with(
            "penman-monteith-equation",
            write_metric(self.penman_monteith_equation),
        ).with("water-equivalent-ratio", write_metric(self.wer));
        assert(members@ =~= self.members());
        members.finish()
    }

    /// Reads the metrics from a document.
    pub fn from_json(document: &JsonValue) -> (r: Option<WaterUseEfficiency>)
        ensures
            r == Self::spec_from_json(document@),
    {
        if document.as_object().is_none() {
            return None;
        }
        let gpp = read_metric(document, "gross-primary-productivity");
        let penman_monteith_equation = read_metric(document, "penman-monteith-equation");
        let wer = read_metric(document, "water-equivalent-ratio");
        match (gpp, penman_monteith_equation, wer) {
            (Some(gpp), Some(penman_monteith_equation), Some(wer)) => Some(
                WaterUseEfficiency { gpp, penman_monteith_equation, wer },
            ),
            _ => None,
        }
    }
}

/// Reading the document of the metrics gives the metrics back.
pub proof fn law_water_round_trip(water: WaterUseEfficiency)
    ensures
        WaterUseEfficiency::spec_from_json(water.json()) == Some(water),
{
    reveal_strlit("gross-primary-productivity");
    reveal_strlit("penman-monteith-equation");
    reveal_strlit("water-equivalent-ratio");
    reveal_with_fuel(crate::json::spec_first_named, 4);
    assert("gross-primary-productivity"@.len() == 26 && "penman-monteith-equation"@.len() == 24
        && "water-equivalent-ratio"@.len() == 22);
}

/// The mathematical model of the energy information of a device.
pub struct EnergyModel {
    /// Energy efficiencies, in the order of their set.
    pub energy_efficiencies: Option<Seq<EnergyEfficiency>>,
    /// Carbon footprints, in the order of their set.
    pub carbon_footprints: Option<Seq<CarbonFootprint>>,
    /// Water-Use efficiency.
    pub water_use_efficiency: Option<WaterUseEfficiency>,
}

/// One member, or none where there is nothing to write.
pub open spec fn spec_optional(name: Seq<char>, value: Option<Json>) -> Seq<(Seq<char>, Json)> {
    match value {
        Some(document) => seq![(name, document)],
        None => Seq::empty(),
    }
}

impl EnergyModel {
    /// No efficiency and no footprint occurs twice.
    pub open spec fn wf(self) -> bool {
        (self.energy_efficiencies is Some ==> crate::collections::unique(
            self.energy_efficiencies->Some_0,
        )) && (self.carbon_footprints is Some ==> crate::collections::unique(
            self.carbon_footprints->Some_0,
        ))
    }

    /// The document of the efficiencies, if there are any.
    pub open spec fn efficiencies_json(self) -> Option<Json> {
        match self.energy_efficiencies {
            Some(items) => Some(crate::collections::json(items)),
            None => None,
        }
    }

    /// The document of the footprints, if there are any.
    pub open spec fn footprints_json(self) -> Option<Json> {
        match self.carbon_footprints {
            Some(items) => Some(crate::collections::json(items)),
            None => None,
        }
    }

    /// The document of the metrics, if there are any.
    pub open spec fn water_json(self) -> Option<Json> {
        match self.water_use_efficiency {
            Some(water) => Some(water.json()),
            None => None,
        }
    }

    /// The members of the document: one for each part that is there.
    pub open spec fn members(self) -> Seq<(Seq<char>, Json)> {
        spec_optional("energy-efficiencies"@, self.efficiencies_json()) + spec_optional(
            "carbon-footprints"@,
            self.footprints_json(),
        ) + spec_optional("water-use-efficiency"@, self.water_json())
    }

    /// The document of the energy information. A part that is missing is
    /// left out.
    pub open spec fn json(self) -> Json {
        Json::Object(self.members())
    }

    /// The energy information that a document holds: each part is missing
    /// if its name is, and has to be readable if its name is there.
    pub open spec fn spec_from_json(document: Json) -> Option<EnergyModel> {
        let efficiencies = match document.member("energy-efficiencies"@) {
            Some(written) => match crate::collections::spec_read::<EnergyEfficiency>(written) {
                Some(items) => Some(Some(items)),
                None => None,
            },
            None => Some(None),
        };
        let footprints = match document.member("carbon-footprints"@) {
            Some(written) => match crate::collections::spec_read::<CarbonFootprint>(written) {
                Some(items) => Some(Some(items)),
                None => None,
            },
            None => Some(None),
        };
        let water = match document.member("water-use-efficiency"@) {
            Some(written) => match WaterUseEfficiency::spec_from_json(written) {
                Some(water) => Some(Some(water)),
                None => None,
            },
            None => Some(None),
        };
        match (efficiencies, footprints, water) {
            (Some(energy_efficiencies), Some(carbon_footprints), Some(water_use_efficiency)) =>
                if document is Object {
                    Some(
                        EnergyModel { energy_efficiencies, carbon_footprints, water_use_efficiency },
                    )
                } else {
                    None
                },
            _ => None,
        }
    }
}

/// Reading the document of the energy information gives it back.
pub proof fn law_energy_round_trip(energy: EnergyModel)
    requires
        energy.wf(),
    ensures
        EnergyModel::spec_from_json(energy.json()) == Some(energy),
{
    reveal_strlit("energy-efficiencies");
    reveal_strlit("carbon-footprints");
    reveal_strlit("water-use-efficiency");
    reveal_with_fuel(crate::json::spec_first_named, 2);
    assert("energy-efficiencies"@.len() == 19 && "carbon-footprints"@.len() == 17
        && "water-use-efficiency"@.len() == 20);
    let a = spec_optional("energy-efficiencies"@, energy.efficiencies_json());
    let b = spec_optional("carbon-footprints"@, energy.footprints_json());
    let c = spec_optional("water-use-efficiency"@, energy.water_json());
    crate::json::lemma_first_named_add(a + b, c, "energy-efficiencies"@);
    crate::json::lemma_first_named_add(a + b, c, "carbon-footprints"@);
    crate::json::lemma_first_named_add(a + b, c, "water-use-efficiency"@);
    crate::json::lemma_first_named_add(a, b, "water-use-efficiency"@);
    if energy.energy_efficiencies is Some {
        crate::collections::law_set_round_trip(energy.energy_efficiencies->Some_0);
    }
    if energy.carbon_footprints is Some {
        crate::collections::law_set_round_trip(energy.carbon_footprints->Some_0);
    }
    if energy.water_use_efficiency is Some {
        law_water_round_trip(energy.water_use_efficiency->Some_0);
    }
}

/// Energy information of a device.
#[derive(Debug)]
pub struct Energy {
    /// Energy efficiencies.
    pub energy_efficiencies: Option<EnergyEfficiencies>,
    /// Carbon footprints.
    pub carbon_footprints: Option<CarbonFootprints>,
    /// Water-Use efficiency.
    pub water_use_efficiency: Option<WaterUseEfficiency>,
}

impl View for Energy {
    type V = EnergyModel;

    open spec fn view(&self) -> EnergyModel {
        EnergyModel {
            energy_efficiencies: match self.energy_efficiencies {
                Some(set) => Some(set@),
                None => None,
            },
            carbon_footprints: match self.carbon_footprints {
                Some(set) => Some(set@),
                None => None,
            },
            water_use_efficiency: self.water_use_efficiency,
        }
    }
}

impl Energy {
    /// Creates an empty [`Energy`] instance.
    pub fn empty() -> (r: Self)
        ensures
            r@ == (EnergyModel {
                energy_efficiencies: None,
                carbon_footprints: None,
                water_use_efficiency: None,
            }),
    {
        Self { energy_efficiencies: None, carbon_footprints: None, water_use_efficiency: None }
    }

    /// Creates a new [`Energy`] instance initialized with
    /// [`EnergyEfficiencies`] data.
    pub fn init_with_energy_efficiencies(energy_efficiencies: EnergyEfficiencies) -> (r: Self)
        ensures
            r@ == (EnergyModel {
                energy_efficiencies: Some(energy_efficiencies@),
                carbon_footprints: None,
                water_use_efficiency: None,
            }),
    {
        Self {
            energy_efficiencies: Some(energy_efficiencies),
            carbon_footprints: None,
            water_use_efficiency: None,
        }
    }

    /// Creates a new [`Energy`] instance initialized with
    /// [`CarbonFootprints`] data.
    pub fn init_with_carbon_footprints(carbon_footprints: CarbonFootprints) -> (r: Self)
        ensures
            r@ == (EnergyModel {
                energy_efficiencies: None,
                carbon_footprints: Some(carbon_footprints@),
                water_use_efficiency: None,
            }),
    {
        Self {
            energy_efficiencies: None,
            carbon_footprints: Some(carbon_footprints),
            water_use_efficiency: None,
        }
    }

    /// Creates a new [`Energy`] instance initialized with
    /// [`WaterUseEfficiency`] data.
    pub fn init_with_water_use_efficiency(water_use_efficiency: WaterUseEfficiency) -> (r: Self)
        ensures
            r@ == (EnergyModel {
                energy_efficiencies: None,
                carbon_footprints: None,
                water_use_efficiency: Some(water_use_efficiency),
            }),
    {
        Self {
            energy_efficiencies: None,
            carbon_footprints: None,
            water_use_efficiency: Some(water_use_efficiency),
        }
    }

    /// Adds [`EnergyEfficiencies`] data.
    pub fn energy_efficiencies(self, energy_efficiencies: EnergyEfficiencies) -> (r: Self)
        ensures
            r@ == (EnergyModel { energy_efficiencies: Some(energy_efficiencies@), ..self@ }),
    {
        Self {
            energy_efficiencies: Some(energy_efficiencies),
            carbon_footprints: self.carbon_footprints,
            water_use_efficiency: self.water_use_efficiency,
        }
    }

    /// Adds [`CarbonFootprints`] data.
    pub fn carbon_footprints(self, carbon_footprints: CarbonFootprints) -> (r: Self)
        ensures
            r@ == (EnergyModel { carbon_footprints: Some(carbon_footprints@), ..self@ }),
    {
        Self {
            energy_efficiencies: self.energy_efficiencies,
            carbon_footprints: Some(carbon_footprints),
            water_use_efficiency: self.water_use_efficiency,
        }
    }

    /// Adds [`WaterUseEfficiency`] data.
    pub fn water_use_efficiency(self, water_use_efficiency: WaterUseEfficiency) -> (r: Self)
        ensures
            r@ == (EnergyModel { water_use_efficiency: Some(water_use_efficiency), ..self@ }),
    {
        Self {
            energy_efficiencies: self.energy_efficiencies,
            carbon_footprints: self.carbon_footprints,
            water_use_efficiency: Some(water_use_efficiency),
        }
    }

    /// Checks whether [`Energy`] is **completely** empty.
    pub fn is_empty(&self) -> (r: bool)
        ensures
            r == (self@.energy_efficiencies is None && self@.carbon_footprints is None
                && self@.water_use_efficiency is None),
    {
        self.energy_efficiencies.is_none() && self.carbon_footprints.is_none()
            && self.water_use_efficiency.is_none()
    }

    /// The document of the energy information. A part that is missing is
    /// left out.
    pub fn to_json(&self) -> (r: JsonValue)
        ensures
            r@ == self@.json(),
    {
        let mut members = Members::new();
        match &self.energy_efficiencies {
            Some(set) => {
                members = members.with("energy-efficiencies", set.to_json());
            },
            None => {},
        }
        match &self.carbon_footprints {
            Some(set) => {
                members = members.with("carbon-footprints", set.to_json());
            },
            None => {},
        }
        assert(members@ =~= spec_optional("energy-efficiencies"@, self@.efficiencies_json())
            + spec_optional("carbon-footprints"@, self@.footprints_json()));
        match &self.water_use_efficiency {
            Some(water) => {
                members = members.with("water-use-efficiency", water.to_json());
            },
            None => {},
        }
        assert(members@ =~= self@.members());
        members.finish()
    }

    /// Reads the energy information from a document.
    pub fn from_json(document: &JsonValue) -> (r: Option<Energy>)
        ensures
            r is Some <==> EnergyModel::spec_from_json(document@) is Some,
            r is Some ==> r->Some_0@ == EnergyModel::spec_from_json(document@)->Some_0
                && r->Some_0@.wf(),
    {
        if document.as_object().is_none() {
            return None;
        }
        let energy_efficiencies = match document.member("energy-efficiencies") {
            Some(written) => match EnergyEfficiencies::from_json(written) {
                Some(set) => Some(set),
                None => { return None; },
            },
            None => None,
        };
        let carbon_footprints = match document.member("carbon-footprints") {
            Some(written) => match CarbonFootprints::from_json(written) {
                Some(set) => Some(set),
                None => { return None; },
            },
            None => None,
        };
        let water_use_efficiency = match document.member("water-use-efficiency") {
            Some(written) => match WaterUseEfficiency::from_json(written) {
                Some(water) => Some(water),
                None => { return None; },
            },
            None => None,
        };
        Some(Energy { energy_efficiencies, carbon_footprints, water_use_efficiency })
    }
}

} // verus!
