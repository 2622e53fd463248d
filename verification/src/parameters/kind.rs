//! The kinds of input parameter that a route can declare.
use vstd::prelude::*;
use crate::error::Error;
use crate::ieee;
use crate::json::{Json, JsonValue, Members};
use crate::text::owned;

verus! {

#[allow(inconsistent_fields)]
/// The mathematical model of a parameter kind.
///
/// Floating-point numbers are held as their bit patterns.
pub enum Kind {
    /// A truth value.
    Bool { default: bool },
    /// An 8-bit unsigned number.
    U8 { default: u8 },
    /// A 16-bit unsigned number.
    U16 { default: u16 },
    /// A 32-bit unsigned number.
    U32 { default: u32 },
    /// A 64-bit unsigned number.
    U64 { default: u64 },
    /// A single-precision number.
    F32 { default: u32 },
    /// A double-precision number.
    F64 { default: u64 },
    /// A range of 64-bit unsigned numbers.
    RangeU64 { min: u64, max: u64, step: u64, default: u64 },
    /// A range of double-precision numbers.
    RangeF64 { min: u64, max: u64, step: u64, default: u64 },
    /// A sequence of characters.
    CharSequence { default: Seq<char> },
}

impl Kind {
    /// The rule that every stored kind obeys: a range has
    /// `min <= default <= max` and a step greater than zero.
    pub open spec fn valid(self) -> bool {
        match self {
            Kind::RangeU64 { min, max, step, default } => min <= default && default <= max && step
                > 0,
            Kind::RangeF64 { min, max, step, default } => ieee::spec_le(min, default)
                && ieee::spec_le(default, max) && ieee::spec_is_positive(step),
            _ => true,
        }
    }

    /// The range of whole numbers `(min, max, step)` with a default.
    pub open spec fn range_u64(range: (u64, u64, u64), default: u64) -> Kind {
        Kind::RangeU64 { min: range.0, max: range.1, step: range.2, default }
    }

    /// The range of double-precision numbers `(min, max, step)` with a
    /// default, each given by its bits.
    pub open spec fn range_f64(range: (u64, u64, u64), default: u64) -> Kind {
        Kind::RangeF64 { min: range.0, max: range.1, step: range.2, default }
    }

    /// The name under which the kind appears in a document.
    pub open spec fn tag(self) -> Seq<char> {
        match self {
            Kind::Bool { .. } => "Bool"@,
            Kind::U8 { .. } => "U8"@,
            Kind::U16 { .. } => "U16"@,
            Kind::U32 { .. } => "U32"@,
            Kind::U64 { .. } => "U64"@,
            Kind::F32 { .. } => "F32"@,
            Kind::F64 { .. } => "F64"@,
            Kind::RangeU64 { .. } => "RangeU64"@,
            Kind::RangeF64 { .. } => "RangeF64"@,
            Kind::CharSequence { .. } => "CharSequence"@,
        }
    }

    /// The fields of the kind as they appear in a document.
    pub open spec fn fields(self) -> Seq<(Seq<char>, Json)> {
        match self {
            Kind::Bool { default } => seq![("default"@, Json::Bool(default))],
            Kind::U8 { default } => seq![("default"@, Json::Unsigned(default as u64))],
            Kind::U16 { default } => seq![("default"@, Json::Unsigned(default as u64))],
            Kind::U32 { default } => seq![("default"@, Json::Unsigned(default as u64))],
            Kind::U64 { default } => seq![("default"@, Json::Unsigned(default))],
            Kind::F32 { default } => seq![("default"@, Json::Single(default))],
            Kind::F64 { default } => seq![("default"@, Json::Double(default))],
            Kind::RangeU64 { min, max, step, default } => seq![
                ("min"@, Json::Unsigned(min)),
                ("max"@, Json::Unsigned(max)),
                ("step"@, Json::Unsigned(step)),
                ("default"@, Json::Unsigned(default)),
            ],
            Kind::RangeF64 { min, max, step, default } => seq![
                ("min"@, Json::Double(min)),
                ("max"@, Json::Double(max)),
                ("step"@, Json::Double(step)),
                ("default"@, Json::Double(default)),
            ],
            Kind::CharSequence { default } => seq![("default"@, Json::Text(default))],
        }
    }

    /// The document of a kind: one member, named by the tag, that holds the
    /// fields.
    pub open spec fn json(self) -> Json {
        Json::Object(seq![(self.tag(), Json::Object(self.fields()))])
    }
}

/// All supported kinds of route input parameters.
///
/// A floating-point number is given and held as its bit pattern.
#[allow(inconsistent_fields)]
#[derive(Debug)]
pub enum ParameterKind {
    /// A truth value.
    Bool {
        /// The initial value, also used when the input is missing.
        default: bool,
    },
    /// An 8-bit unsigned number.
    U8 {
        /// The initial value, also used when the input is missing.
        default: u8,
    },
    /// A 16-bit unsigned number.
    U16 {
        /// The initial value, also used when the input is missing.
        default: u16,
    },
    /// A 32-bit unsigned number.
    U32 {
        /// The initial value, also used when the input is missing.
        default: u32,
    },
    /// A 64-bit unsigned number.
    U64 {
        /// The initial value, also used when the input is missing.
        default: u64,
    },
    /// A single-precision number.
    F32 {
        /// The bits of the initial value.
        default: u32,
    },
    /// A double-precision number.
    F64 {
        /// The bits of the initial value.
        default: u64,
    },
    /// A range of 64-bit unsigned numbers.
    RangeU64 {
        /// Smallest allowed value.
        min: u64,
        /// Largest allowed value.
        max: u64,
        /// Distance from one allowed value to the next.
        step: u64,
        /// Initial value.
        default: u64,
    },
    /// A range of double-precision numbers, each given by its bits.
    RangeF64 {
        /// Smallest allowed value.
        min: u64,
        /// Largest allowed value.
        max: u64,
        /// Distance from one allowed value to the next.
        step: u64,
        /// Initial value.
        default: u64,
    },
    /// A sequence of characters.
    CharSequence {
        /// The initial text.
        default: String,
    },
}

impl View for ParameterKind {
    type V = Kind;

    open spec fn view(&self) -> Kind {
        match self {
            ParameterKind::Bool { default } => Kind::Bool { default: *default },
            ParameterKind::U8 { default } => Kind::U8 { default: *default },
            ParameterKind::U16 { default } => Kind::U16 { default: *default },
            ParameterKind::U32 { default } => Kind::U32 { default: *default },
            ParameterKind::U64 { default } => Kind::U64 { default: *default },
            ParameterKind::F32 { default } => Kind::F32 { default: *default },
            ParameterKind::F64 { default } => Kind::F64 { default: *default },
            ParameterKind::RangeU64 { min, max, step, default } => Kind::RangeU64 {
                min: *min,
                max: *max,
                step: *step,
                default: *default,
            },
            ParameterKind::RangeF64 { min, max, step, default } => Kind::RangeF64 {
                min: *min,
                max: *max,
                step: *step,
                default: *default,
            },
            ParameterKind::CharSequence { default } => Kind::CharSequence { default: default@ },
        }
    }
}

impl Clone for ParameterKind {
    /// A copy that stands for the same kind.
    fn clone(&self) -> (r: Self)
        ensures
            r@ == self@,
    {
        match self {
            ParameterKind::Bool { default } => ParameterKind::Bool { default: *default },
            ParameterKind::U8 { default } => ParameterKind::U8 { default: *default },
            ParameterKind::U16 { default } => ParameterKind::U16 { default: *default },
            ParameterKind::U32 { default } => ParameterKind::U32 { default: *default },
            ParameterKind::U64 { default } => ParameterKind::U64 { default: *default },
            ParameterKind::F32 { default } => ParameterKind::F32 { default: *default },
            ParameterKind::F64 { default } => ParameterKind::F64 { default: *default },
            ParameterKind::RangeU64 { min, max, step, default } => ParameterKind::RangeU64 {
                min: *min,
                max: *max,
                step: *step,
                default: *default,
            },
            ParameterKind::RangeF64 { min, max, step, default } => ParameterKind::RangeF64 {
                min: *min,
                max: *max,
                step: *step,
                default: *default,
            },
            ParameterKind::CharSequence { default } => ParameterKind::CharSequence {
                default: default.clone(),
            },
        }
    }
}

impl ParameterKind {
    /// A range of unsigned numbers, if `min <= default <= max` and
    /// `step > 0`.
    pub fn range_u64(min: u64, max: u64, step: u64, default: u64) -> (r: Result<
        ParameterKind,
        Error,
    >)
        ensures
            r is Ok <==> (Kind::RangeU64 { min, max, step, default }).valid(),
            r is Ok ==> r->Ok_0@ == (Kind::RangeU64 { min, max, step, default }),
            r is Err ==> r->Err_0 == Error::InvalidParameterRange,
    {
        if min <= default && default <= max && step > 0 {
            Ok(ParameterKind::RangeU64 { min, max, step, default })
        } else {
            Err(Error::InvalidParameterRange)
        }
    }

    /// A range of double-precision numbers given by their bits, if
    /// `min <= default <= max` and `step > 0` as numbers.
    pub fn range_double(min: u64, max: u64, step: u64, default: u64) -> (r: Result<
        ParameterKind,
        Error,
    >)
        ensures
            r is Ok <==> (Kind::RangeF64 { min, max, step, default }).valid(),
            r is Ok ==> r->Ok_0@ == (Kind::RangeF64 { min, max, step, default }),
            r is Err ==> r->Err_0 == Error::InvalidParameterRange,
    {
        if ieee::le(min, default) && ieee::le(default, max) && ieee::is_positive(step) {
            Ok(ParameterKind::RangeF64 { min, max, step, default })
        } else {
            Err(Error::InvalidParameterRange)
        }
    }

    /// The range of whole numbers `(min, max, step)` with a default, as it
    /// is given: valid or not.
    pub fn range_u64_of(range: (u64, u64, u64), default: u64) -> (r: ParameterKind)
        ensures
            r@ == Kind::range_u64(range, default),
    {
        ParameterKind::RangeU64 { min: range.0, max: range.1, step: range.2, default }
    }

    /// The range of double-precision numbers `(min, max, step)` with a
    /// default, each given by its bits, as it is given: valid or not.
    pub fn range_f64_of(range: (u64, u64, u64), default: u64) -> (r: ParameterKind)
        ensures
            r@ == Kind::range_f64(range, default),
    {
        ParameterKind::RangeF64 { min: range.0, max: range.1, step: range.2, default }
    }

    /// A sequence of characters with the given initial text.
    pub fn char_sequence(default: &str) -> (r: ParameterKind)
        ensures
            r@ == (Kind::CharSequence { default: default@ }),
    {
        ParameterKind::CharSequence { default: owned(default) }
    }

    /// Whether the kind obeys the rule on ranges.
    pub fn is_valid(&self) -> (r: bool)
        ensures
            r == self@.valid(),
    {
        match self {
            ParameterKind::RangeU64 { min, max, step, default } => *min <= *default && *default
                <= *max && *step > 0,
            ParameterKind::RangeF64 { min, max, step, default } => ieee::le(*min, *default)
                && ieee::le(*default, *max) && ieee::is_positive(*step),
            _ => true,
        }
    }

    /// The document of this kind.
    pub fn to_json(&self) -> (r: JsonValue)
        ensures
            r@ == self@.json(),
    {
        let (tag, fields) = match self {
            ParameterKind::Bool { default } => (
                "Bool",
                Members::new().with("default", JsonValue::Bool(*default)),
            ),
            ParameterKind::U8 { default } => (
                "U8",
                Members::new().with("default", JsonValue::Unsigned(*default as u64)),
            ),
            ParameterKind::U16 { default } => (
                "U16",
                Members::new().with("default", JsonValue::Unsigned(*default as u64)),
            ),
            ParameterKind::U32 { default } => (
                "U32",
                Members::new().with("default", JsonValue::Unsigned(*default as u64)),
            ),
            ParameterKind::U64 { default } => (
                "U64",
                Members::new().with("default", JsonValue::Unsigned(*default)),
            ),
            ParameterKind::F32 { default } => (
                "F32",
                Members::new().with("default", JsonValue::Single(*default)),
            ),
            ParameterKind::F64 { default } => (
                "F64",
                Members::new().with("default", JsonValue::Double(*default)),
            ),
            ParameterKind::RangeU64 { min, max, step, default } => (
                "RangeU64",
                Members::new().with("min", JsonValue::Unsigned(*min)).with(
                    "max",
                    JsonValue::Unsigned(*max),
                ).with("step", JsonValue::Unsigned(*step)).with(
                    "default",
                    JsonValue::Unsigned(*default),
                ),
            ),
            ParameterKind::RangeF64 { min, max, step, default } => (
                "RangeF64",
                Members::new().with("min", JsonValue::Double(*min)).with(
                    "max",
                    JsonValue::Double(*max),
                ).with("step", JsonValue::Double(*step)).with(
                    "default",
                    JsonValue::Double(*default),
                ),
            ),
            ParameterKind::CharSequence { default } => (
                "CharSequence",
                Members::new().with("default", JsonValue::text(default.as_str())),
            ),
        };
        assert(fields@ =~= self@.fields());
        let whole = Members::new().with(tag, fields.finish());
        whole.finish()
    }
}

} // verus!
