//! The closed vocabularies shared by every provider, and the conversions
//! between each provider's native encoding and the canonical one.

use vstd::prelude::*;

use crate::text::{decimal_text, i64_to_string, text_eq};
use crate::Error;

verus! {

/// Sampling resolution of a series.
#[derive(Debug, Copy, Clone, Hash, PartialEq, Eq, Structural, PartialOrd, Ord)]
pub enum ParameterResolutionDefinitions {
    INSTANT,
    QUARTERLY,
    HOURLY,
    DAILY,
    UNKNOWN,
}

impl ParameterResolutionDefinitions {
    /// Canonical resolution of an NVE resolution, which is a number of minutes.
    pub open spec fn nve_to_canonical(minutes: i64) -> Self {
        if minutes == 0 {
            Self::INSTANT
        } else if minutes == 60 {
            Self::HOURLY
        } else if minutes == 1440 {
            Self::DAILY
        } else {
            Self::UNKNOWN
        }
    }

    /// NVE's number of minutes for a canonical resolution, where it has one.
    pub open spec fn canonical_to_nve(self) -> Option<i64> {
        match self {
            Self::INSTANT => Some(0i64),
            Self::QUARTERLY => None,
            Self::HOURLY => Some(60i64),
            Self::DAILY => Some(1440i64),
            Self::UNKNOWN => None,
        }
    }

    /// Period in minutes that stands for a UKGOV period code.
    pub open spec fn uk_to_internal(code: Option<i64>) -> Option<i64> {
        match code {
            Some(c) => if c == 86400 {
                Some(0i64)
            } else if c == 900 {
                Some(15i64)
            } else if c == 1 {
                Some(1440i64)
            } else {
                None
            },
            None => None,
        }
    }

    /// Canonical resolution of a UKGOV period code.
    pub open spec fn uk_to_canonical(code: Option<i64>) -> Self {
        match code {
            Some(c) => if c == 86400 {
                Self::INSTANT
            } else if c == 900 {
                Self::QUARTERLY
            } else if c == 1 {
                Self::DAILY
            } else {
                Self::UNKNOWN
            },
            None => Self::UNKNOWN,
        }
    }

    /// Period in minutes of a canonical resolution, as held for UKGOV series.
    pub open spec fn canonical_to_uk(self) -> Option<i64> {
        match self {
            Self::INSTANT => Some(0i64),
            Self::QUARTERLY => Some(15i64),
            Self::HOURLY => Some(60i64),
            Self::DAILY => Some(1440i64),
            Self::UNKNOWN => None,
        }
    }

    /// UKGOV's own period code for a canonical resolution, where it has one.
    /// The codes are those that `uk_to_canonical` reads: 86400 for an
    /// instant series, 900 for a quarterly one and 1 for a daily one, so
    /// that a code that is written is read back as the resolution it was
    /// written for.
    pub open spec fn canonical_to_uk_period(self) -> Option<i64> {
        match self {
            Self::INSTANT => Some(86400i64),
            Self::QUARTERLY => Some(900i64),
            Self::HOURLY => None,
            Self::DAILY => Some(1i64),
            Self::UNKNOWN => None,
        }
    }

    /// Reads an NVE resolution; a number that NVE does not document is
    /// `UNKNOWN`.
    pub fn from_nve(nve_resolution_unit: &i64) -> (resolution: Self)
        ensures
            resolution == Self::nve_to_canonical(*nve_resolution_unit),
    {
        let unit: i64 = *nve_resolution_unit;
        if unit == 0 {
            Self::INSTANT
        } else if unit == 60 {
            Self::HOURLY
        } else if unit == 1440 {
            Self::DAILY
        } else {
            Self::UNKNOWN
        }
    }

    /// Writes the resolution as NVE encodes it; `None` where NVE has no
    /// encoding.
    pub fn to_nve(&self) -> (native: Option<i64>)
        ensures
            native == self.canonical_to_nve(),
    {
        match self {
            Self::INSTANT => Some(0),
            Self::QUARTERLY => None,
            Self::HOURLY => Some(60),
            Self::DAILY => Some(1440),
            Self::UNKNOWN => None,
        }
    }

    /// Turns a UKGOV period code into a period in minutes; `None` for an
    /// absent or undocumented code.
    pub fn from_uk_to_internal(uk_resolution_unit: &Option<i64>) -> (minutes: Option<i64>)
        ensures
            minutes == Self::uk_to_internal(*uk_resolution_unit),
    {
        match uk_resolution_unit {
            Some(code) => {
                let c: i64 = *code;
                if c == 86400 {
                    Some(0)
                } else if c == 900 {
                    Some(15)
                } else if c == 1 {
                    Some(1440)
                } else {
                    None
                }
            },
            None => None,
        }
    }

    /// Reads a UKGOV period code; an absent or undocumented code is
    /// `UNKNOWN`.
    pub fn from_uk(uk_resolution_unit: &Option<i64>) -> (resolution: Self)
        ensures
            resolution == Self::uk_to_canonical(*uk_resolution_unit),
    {
        match uk_resolution_unit {
            Some(code) => {
                let c: i64 = *code;
                if c == 86400 {
                    Self::INSTANT
                } else if c == 900 {
                    Self::QUARTERLY
                } else if c == 1 {
                    Self::DAILY
                } else {
                    Self::UNKNOWN
                }
            },
            None => Self::UNKNOWN,
        }
    }

    /// Period in minutes of the resolution, as held for UKGOV series.
    pub fn to_uk(&self) -> (minutes: Option<i64>)
        ensures
            minutes == self.canonical_to_uk(),
    {
        match self {
            Self::INSTANT => Some(0),
            Self::QUARTERLY => Some(15),
            Self::HOURLY => Some(60),
            Self::DAILY => Some(1440),
            Self::UNKNOWN => None,
        }
    }

    /// UKGOV's own period code for the resolution; `None` where UKGOV has
    /// none. The code is the one that `from_uk` reads as this resolution.
    pub fn to_uk_external_period_definition(&self) -> (code: Option<i64>)
        ensures
            code == self.canonical_to_uk_period(),
            code is Some ==> Self::uk_to_canonical(code) == *self,
            code is None <==> *self == Self::HOURLY || *self == Self::UNKNOWN,
    {
        match self {
            Self::INSTANT => Some(86400),
            Self::QUARTERLY => Some(900),
            Self::HOURLY => None,
            Self::DAILY => Some(1),
            Self::UNKNOWN => None,
        }
    }

    /// Every resolution that NVE can encode is read back unchanged from its
    /// encoding.
    pub proof fn lemma_nve_round_trip(resolution: Self)
        requires
            resolution.canonical_to_nve() is Some,
        ensures
            Self::nve_to_canonical(resolution.canonical_to_nve()->0) == resolution,
    {
    }

    /// The period in minutes that `from_uk_to_internal` gives for a UKGOV
    /// code is the one `to_uk` gives for the resolution that `from_uk` reads
    /// from the same code.
    pub proof fn lemma_uk_minutes_agree(code: Option<i64>)
        requires
            Self::uk_to_internal(code) is Some,
        ensures
            Self::uk_to_canonical(code).canonical_to_uk() == Self::uk_to_internal(code),
    {
    }

    /// Every resolution that UKGOV can encode is read back unchanged from
    /// its period code, and the minutes read from that code are the minutes
    /// held for the resolution.
    pub proof fn lemma_uk_period_round_trip(resolution: Self)
        requires
            resolution.canonical_to_uk_period() is Some,
        ensures
            Self::uk_to_canonical(resolution.canonical_to_uk_period()) == resolution,
            Self::uk_to_internal(resolution.canonical_to_uk_period())
                == resolution.canonical_to_uk(),
    {
    }
}

/// What is measured.
#[derive(Debug, Copy, Clone, Hash, PartialEq, Eq, Structural, PartialOrd, Ord)]
pub enum ParameterDefinitions {
    FLOW,
    WATERLEVEL,
    TEMPERATURE,
    RAINFALL,
}

impl ParameterDefinitions {
    /// NVE's numeric code of a parameter.
    pub open spec fn nve_code(self) -> i64 {
        match self {
            Self::FLOW => 1001i64,
            Self::WATERLEVEL => 1000i64,
            Self::TEMPERATURE => 1003i64,
            Self::RAINFALL => 0i64,
        }
    }

    /// The parameter that an NVE code stands for, if NVE documents the code.
    pub open spec fn nve_to_canonical(code: i64) -> Option<Self> {
        if code == 1001 {
            Some(Self::FLOW)
        } else if code == 1000 {
            Some(Self::WATERLEVEL)
        } else if code == 1003 {
            Some(Self::TEMPERATURE)
        } else if code == 0 {
            Some(Self::RAINFALL)
        } else {
            None
        }
    }

    /// UKGOV's name of a parameter.
    pub open spec fn uk_name(self) -> Seq<char> {
        match self {
            Self::FLOW => "flow"@,
            Self::WATERLEVEL => "level"@,
            Self::TEMPERATURE => "temperature"@,
            Self::RAINFALL => "rainfall"@,
        }
    }

    /// The parameter that a UKGOV name stands for, if UKGOV documents the
    /// name.
    pub open spec fn uk_to_canonical(name: Seq<char>) -> Option<Self> {
        if name == "flow"@ {
            Some(Self::FLOW)
        } else if name == "level"@ {
            Some(Self::WATERLEVEL)
        } else if name == "temperature"@ {
            Some(Self::TEMPERATURE)
        } else if name == "rainfall"@ {
            Some(Self::RAINFALL)
        } else {
            None
        }
    }

    /// The parameter that an SMIH name stands for, if SMIH documents the
    /// name.
    pub open spec fn smih_to_canonical(name: Seq<char>) -> Option<Self> {
        if name == "Vattenföring (15 min)"@ {
            Some(Self::FLOW)
        } else if name == "Vattenstånd"@ {
            Some(Self::WATERLEVEL)
        } else if name == "Vattendragstemperatur"@ {
            Some(Self::TEMPERATURE)
        } else {
            None
        }
    }

    /// SMIH's numeric id of a parameter; SMIH has none for rainfall.
    pub open spec fn smih_id(self) -> Option<i32> {
        match self {
            Self::FLOW => Some(2i32),
            Self::WATERLEVEL => Some(3i32),
            Self::TEMPERATURE => Some(4i32),
            Self::RAINFALL => None,
        }
    }

    /// CANADA's id of a parameter; CANADA has none for rainfall.
    pub open spec fn canada_id(self) -> Option<Seq<char>> {
        match self {
            Self::FLOW => Some("flow"@),
            Self::WATERLEVEL => Some("primaryLevel"@),
            Self::TEMPERATURE => Some("temperature"@),
            Self::RAINFALL => None,
        }
    }

    /// Reads an NVE parameter code. A code that NVE does not document is an
    /// internal mapping error that carries the code as decimal text.
    pub fn from_nve(s: &i64) -> (parameter: Result<Self, Error>)
        ensures
            match parameter {
                Ok(p) => Self::nve_to_canonical(*s) == Some(p),
                Err(e) => Self::nve_to_canonical(*s) is None && e.is_internal(
                    Origin::NVE,
                    decimal_text(*s as int),
                ),
            },
    {
        let code: i64 = *s;
        if code == 1001 {
            Ok(Self::FLOW)
        } else if code == 1000 {
            Ok(Self::WATERLEVEL)
        } else if code == 1003 {
            Ok(Self::TEMPERATURE)
        } else if code == 0 {
            Ok(Self::RAINFALL)
        } else {
            Err(Error::InternalMappingError(Origin::NVE, i64_to_string(code)))
        }
    }

    /// Writes the parameter as NVE encodes it: the decimal text of its code.
    pub fn to_nve(&self) -> (native: &'static str)
        ensures
            native@ == decimal_text(self.nve_code() as int),
    {
        proof {
            lemma_decimal_of_nve_codes();
        }
        match self {
            Self::FLOW => "1001",
            Self::WATERLEVEL => "1000",
            Self::TEMPERATURE => "1003",
            Self::RAINFALL => "0",
        }
    }

    /// Reads a UKGOV parameter name. A name that UKGOV does not document is
    /// an internal mapping error that carries the name.
    pub fn from_uk(s: &str) -> (parameter: Result<Self, Error>)
        ensures
            match parameter {
                Ok(p) => Self::uk_to_canonical(s@) == Some(p),
                Err(e) => Self::uk_to_canonical(s@) is None && e.is_internal(Origin::UKGOV, s@),
            },
    {
        if text_eq(s, "flow") {
            Ok(Self::FLOW)
        } else if text_eq(s, "level") {
            Ok(Self::WATERLEVEL)
        } else if text_eq(s, "temperature") {
            Ok(Self::TEMPERATURE)
        } else if text_eq(s, "rainfall") {
            Ok(Self::RAINFALL)
        } else {
            Err(Error::InternalMappingError(Origin::UKGOV, s.to_owned()))
        }
    }

    /// Writes the parameter as UKGOV names it.
    pub fn to_uk(&self) -> (native: &'static str)
        ensures
            native@ == self.uk_name(),
    {
        match self {
            Self::FLOW => "flow",
            Self::WATERLEVEL => "level",
            Self::TEMPERATURE => "temperature",
            Self::RAINFALL => "rainfall",
        }
    }

    /// Reads an SMIH parameter name. A name that SMIH does not document is
    /// an internal mapping error that carries the name.
    pub fn from_smih_name(s: &str) -> (parameter: Result<Self, Error>)
        ensures
            match parameter {
                Ok(p) => Self::smih_to_canonical(s@) == Some(p),
                Err(e) => Self::smih_to_canonical(s@) is None && e.is_internal(Origin::SMIH, s@),
            },
    {
        if text_eq(s, "Vattenföring (15 min)") {
            Ok(Self::FLOW)
        } else if text_eq(s, "Vattenstånd") {
            Ok(Self::WATERLEVEL)
        } else if text_eq(s, "Vattendragstemperatur") {
            Ok(Self::TEMPERATURE)
        } else {
            Err(Error::InternalMappingError(Origin::SMIH, s.to_owned()))
        }
    }

    /// Writes the parameter as SMIH's numeric id. Rainfall, and only
    /// rainfall, is an external mapping error.
    pub fn to_smih_id(&self) -> (native: Result<i32, Error>)
        ensures
            match native {
                Ok(id) => self.smih_id() == Some(id),
                Err(e) => self.smih_id() is None && e == Error::ExternalMappingError(
                    Origin::SMIH,
                    *self,
                ),
            },
            native is Err <==> *self == Self::RAINFALL,
    {
        match self {
            Self::FLOW => Ok(2),
            Self::WATERLEVEL => Ok(3),
            Self::TEMPERATURE => Ok(4),
            Self::RAINFALL => Err(Error::ExternalMappingError(Origin::SMIH, Self::RAINFALL)),
        }
    }

    /// Writes the parameter as CANADA's id. Rainfall, and only rainfall, is
    /// an external mapping error.
    pub fn to_canada_id(&self) -> (native: Result<&'static str, Error>)
        ensures
            match native {
                Ok(id) => self.canada_id() == Some(id@),
                Err(e) => self.canada_id() is None && e == Error::ExternalMappingError(
                    Origin::CANADA,
                    *self,
                ),
            },
            native is Err <==> *self == Self::RAINFALL,
    {
        match self {
            Self::FLOW => Ok("flow"),
            Self::WATERLEVEL => Ok("primaryLevel"),
            Self::TEMPERATURE => Ok("temperature"),
            Self::RAINFALL => Err(Error::ExternalMappingError(Origin::CANADA, Self::RAINFALL)),
        }
    }

    /// Every parameter is read back unchanged from its NVE code.
    pub proof fn lemma_nve_round_trip(parameter: Self)
        ensures
            Self::nve_to_canonical(parameter.nve_code()) == Some(parameter),
    {
    }

    /// Every parameter is read back unchanged from its UKGOV name.
    pub proof fn lemma_uk_round_trip(parameter: Self)
        ensures
            Self::uk_to_canonical(parameter.uk_name()) == Some(parameter),
    {
        reveal_strlit("flow");
        reveal_strlit("level");
        reveal_strlit("temperature");
        reveal_strlit("rainfall");
        assert("flow"@.len() == 4 && "level"@.len() == 5);
        assert("temperature"@.len() == 11 && "rainfall"@.len() == 8);
    }

    /// Of the four providers only SMIH and CANADA lack an encoding for some
    /// parameter, and each of them lacks it for rainfall alone.
    pub proof fn lemma_unsupported_is_rainfall(parameter: Self)
        ensures
            parameter.smih_id() is None <==> parameter == Self::RAINFALL,
            parameter.canada_id() is None <==> parameter == Self::RAINFALL,
    {
    }
}

/// The decimal texts of the four NVE parameter codes.
proof fn lemma_decimal_of_nve_codes()
    ensures
        decimal_text(1001) == "1001"@,
        decimal_text(1000) == "1000"@,
        decimal_text(1003) == "1003"@,
        decimal_text(0) == "0"@,
{
    reveal_strlit("1001");
    reveal_strlit("1000");
    reveal_strlit("1003");
    reveal_strlit("0");
    reveal_with_fuel(crate::text::decimal_digits, 5);
    assert(decimal_text(1001) =~= "1001"@);
    assert(decimal_text(1000) =~= "1000"@);
    assert(decimal_text(1003) =~= "1003"@);
    assert(decimal_text(0) =~= "0"@);
}

/// A data provider.
#[derive(Debug, Copy, Clone, Hash, PartialEq, Eq, Structural, PartialOrd, Ord)]
pub enum Origin {
    NVE,
    SMIH,
    UKGOV,
    CANADA,
}

/// A nation whose waters are monitored.
#[derive(Debug, Copy, Clone, Hash, PartialEq, Eq, Structural, PartialOrd, Ord)]
pub enum Nation {
    Norway,
    Sweden,
    Uk,
    Canada,
}

impl Origin {
    /// The one nation that a provider serves.
    pub open spec fn nation(self) -> Nation {
        match self {
            Origin::NVE => Nation::Norway,
            Origin::SMIH => Nation::Sweden,
            Origin::UKGOV => Nation::Uk,
            Origin::CANADA => Nation::Canada,
        }
    }

    /// The nation that the provider serves.
    pub fn to_nation(&self) -> (nation: Nation)
        ensures
            nation == self.nation(),
    {
        match self {
            Origin::NVE => Nation::Norway,
            Origin::SMIH => Nation::Sweden,
            Origin::UKGOV => Nation::Uk,
            Origin::CANADA => Nation::Canada,
        }
    }
}

impl Nation {
    /// The providers that serve a nation.
    pub open spec fn origins(self) -> Seq<Origin> {
        match self {
            Nation::Norway => seq![Origin::NVE],
            Nation::Sweden => seq![Origin::SMIH],
            Nation::Uk => seq![Origin::UKGOV],
            Nation::Canada => seq![Origin::CANADA],
        }
    }

    /// The providers that serve the nation.
    pub fn to_origin(&self) -> (origins: &'static [Origin])
        ensures
            origins@ == self.origins(),
    {
        match self {
            Nation::Norway => &[Origin::NVE],
            Nation::Sweden => &[Origin::SMIH],
            Nation::Uk => &[Origin::UKGOV],
            Nation::Canada => &[Origin::CANADA],
        }
    }

    /// A provider serves a nation exactly when the nation lists the
    /// provider: each provider has one nation, and each nation at least one
    /// provider.
    pub proof fn lemma_origins_match_nation(nation: Self, origin: Origin)
        ensures
            nation.origins().contains(origin) <==> origin.nation() == nation,
            nation.origins().len() >= 1,
    {
        let listed = nation.origins();
        assert(listed.len() == 1);
        if origin.nation() == nation {
            assert(listed[0] == origin);
        }
    }
}

/// Whether the flow at a station is regulated.
#[derive(Debug, Copy, Clone, Hash, PartialEq, Eq, Structural, PartialOrd, Ord)]
pub enum Regulation {
    REGULATED,
    UNKNOWN,
    UNREGULATED,
    NOTDOWNLOADED,
}

impl Regulation {
    /// The regulation status that a provider's wording stands for, for the
    /// wordings on record.
    pub open spec fn external_to_internal(wording: Seq<char>) -> Option<Self> {
        if wording == "regulert m/magasinregulering"@ {
            Some(Self::REGULATED)
        } else if wording == "Regulert m/magasinregulering og overføringer"@ {
            Some(Self::REGULATED)
        } else if wording == "regulert m/magasin og uregulert restfelt"@ {
            Some(Self::REGULATED)
        } else if wording == ""@ {
            Some(Self::UNKNOWN)
        } else if wording == "Uregulert"@ {
            Some(Self::UNREGULATED)
        } else if wording == "Regulated"@ {
            Some(Self::REGULATED)
        } else if wording == "Unregulated"@ {
            Some(Self::UNREGULATED)
        } else {
            None
        }
    }

    /// Looks a provider's wording up in the table of known wordings.
    pub fn from_external(wording: &str) -> (regulation: Option<Self>)
        ensures
            regulation == Self::external_to_internal(wording@),
    {
        if text_eq(wording, "regulert m/magasinregulering") {
            Some(Self::REGULATED)
        } else if text_eq(wording, "Regulert m/magasinregulering og overføringer") {
            Some(Self::REGULATED)
        } else if text_eq(wording, "regulert m/magasin og uregulert restfelt") {
            Some(Self::REGULATED)
        } else if text_eq(wording, "") {
            Some(Self::UNKNOWN)
        } else if text_eq(wording, "Uregulert") {
            Some(Self::UNREGULATED)
        } else if text_eq(wording, "Regulated") {
            Some(Self::REGULATED)
        } else if text_eq(wording, "Unregulated") {
            Some(Self::UNREGULATED)
        } else {
            None
        }
    }
}

/// How far a provider vouches for an observation.
#[derive(Debug, Copy, Clone, PartialEq, Eq, Structural, PartialOrd, Ord)]
pub enum Quality {
    UNKNOWN,
    UNCONTROLLED,
    UNAVAILABLE,
    ESTIMATED,
    GOOD,
    CONTROLLED,
    SUSPECT,
    NOTPROVIDED,
}

impl Quality {
    /// The fixed partition of the qualities: an observation counts only
    /// when its quality is good, estimated, controlled or not provided.
    pub open spec fn good(self) -> bool {
        self == Self::GOOD || self == Self::ESTIMATED || self == Self::CONTROLLED || self
            == Self::NOTPROVIDED
    }

    /// Quality of an NVE quality code.
    pub open spec fn nve_to_canonical(code: i64) -> Self {
        if code == 1 {
            Self::UNCONTROLLED
        } else if code == 2 || code == 3 {
            Self::CONTROLLED
        } else {
            Self::UNKNOWN
        }
    }

    /// Quality of a UKGOV quality word.
    pub open spec fn uk_to_canonical(word: Seq<char>) -> Self {
        if word == "Good"@ {
            Self::GOOD
        } else if word == "Estimated"@ {
            Self::ESTIMATED
        } else if word == "Suspect"@ {
            Self::SUSPECT
        } else if word == "Unchecked"@ {
            Self::UNCONTROLLED
        } else if word == "Missing"@ {
            Self::UNAVAILABLE
        } else {
            Self::UNKNOWN
        }
    }

    /// Whether an observation of this quality counts.
    pub fn is_good(&self) -> (good: bool)
        ensures
            good == self.good(),
    {
        match self {
            Self::UNKNOWN => false,
            Self::UNCONTROLLED => false,
            Self::UNAVAILABLE => false,
            Self::ESTIMATED => true,
            Self::GOOD => true,
            Self::CONTROLLED => true,
            Self::SUSPECT => false,
            Self::NOTPROVIDED => true,
        }
    }

    /// Reads an NVE quality code; it never fails, and a code that NVE does
    /// not document is `UNKNOWN`.
    pub fn from_nve(quality: &i64) -> (canonical: Self)
        ensures
            canonical == Self::nve_to_canonical(*quality),
            !(0 <= *quality <= 3) ==> canonical == Self::UNKNOWN,
    {
        let code: i64 = *quality;
        if code == 1 {
            Self::UNCONTROLLED
        } else if code == 2 || code == 3 {
            Self::CONTROLLED
        } else {
            Self::UNKNOWN
        }
    }

    /// Reads a UKGOV quality word; it never fails, and a word that UKGOV
    /// does not document is `UNKNOWN`.
    pub fn from_uk(quality: &str) -> (canonical: Self)
        ensures
            canonical == Self::uk_to_canonical(quality@),
            quality@ != "Good"@ && quality@ != "Estimated"@ && quality@ != "Suspect"@ && quality@
                != "Unchecked"@ && quality@ != "Missing"@ ==> canonical == Self::UNKNOWN,
    {
        if text_eq(quality, "Good") {
            Self::GOOD
        } else if text_eq(quality, "Estimated") {
            Self::ESTIMATED
        } else if text_eq(quality, "Suspect") {
            Self::SUSPECT
        } else if text_eq(quality, "Unchecked") {
            Self::UNCONTROLLED
        } else if text_eq(quality, "Missing") {
            Self::UNAVAILABLE
        } else {
            Self::UNKNOWN
        }
    }

    /// The partition is total: each quality is on exactly one side, the four
    /// named in `good` on the good side and the other four on the other.
    pub proof fn lemma_good_partition(quality: Self)
        ensures
            !quality.good() <==> (quality == Self::UNKNOWN || quality == Self::UNCONTROLLED
                || quality == Self::UNAVAILABLE || quality == Self::SUSPECT),
    {
    }
}

impl ParameterResolutionDefinitions {
    /// The canonical tag of the resolution: its name, letter for letter.
    pub open spec fn tag(self) -> Seq<char> {
        match self {
            Self::INSTANT => "INSTANT"@,
            Self::QUARTERLY => "QUARTERLY"@,
            Self::HOURLY => "HOURLY"@,
            Self::DAILY => "DAILY"@,
            Self::UNKNOWN => "UNKNOWN"@,
        }
    }

    /// The canonical tag of the resolution, under which it is written out.
    pub fn name(&self) -> (name: &'static str)
        ensures
            name@ == self.tag(),
    {
        match self {
            Self::INSTANT => "INSTANT",
            Self::QUARTERLY => "QUARTERLY",
            Self::HOURLY => "HOURLY",
            Self::DAILY => "DAILY",
            Self::UNKNOWN => "UNKNOWN",
        }
    }
}

impl ParameterDefinitions {
    /// The canonical tag of the parameter: its name, letter for letter.
    pub open spec fn tag(self) -> Seq<char> {
        match self {
            Self::FLOW => "FLOW"@,
            Self::WATERLEVEL => "WATERLEVEL"@,
            Self::TEMPERATURE => "TEMPERATURE"@,
            Self::RAINFALL => "RAINFALL"@,
        }
    }

    /// The canonical tag of the parameter, under which it is written out.
    pub fn name(&self) -> (name: &'static str)
        ensures
            name@ == self.tag(),
    {
        match self {
            Self::FLOW => "FLOW",
            Self::WATERLEVEL => "WATERLEVEL",
            Self::TEMPERATURE => "TEMPERATURE",
            Self::RAINFALL => "RAINFALL",
        }
    }
}

impl Origin {
    /// The canonical tag of the provider: its name, letter for letter.
    pub open spec fn tag(self) -> Seq<char> {
        match self {
            Self::NVE => "NVE"@,
            Self::SMIH => "SMIH"@,
            Self::UKGOV => "UKGOV"@,
            Self::CANADA => "CANADA"@,
        }
    }

    /// The canonical tag of the provider, under which it is written out.
    pub fn name(&self) -> (name: &'static str)
        ensures
            name@ == self.tag(),
    {
        match self {
            Self::NVE => "NVE",
            Self::SMIH => "SMIH",
            Self::UKGOV => "UKGOV",
            Self::CANADA => "CANADA",
        }
    }
}

impl Nation {
    /// The canonical tag of the nation: its name, letter for letter.
    pub open spec fn tag(self) -> Seq<char> {
        match self {
            Self::Norway => "Norway"@,
            Self::Sweden => "Sweden"@,
            Self::Uk => "Uk"@,
            Self::Canada => "Canada"@,
        }
    }

    /// The canonical tag of the nation, under which it is written out.
    pub fn name(&self) -> (name: &'static str)
        ensures
            name@ == self.tag(),
    {
        match self {
            Self::Norway => "Norway",
            Self::Sweden => "Sweden",
            Self::Uk => "Uk",
            Self::Canada => "Canada",
        }
    }
}

impl Regulation {
    /// The canonical tag of the regulation status: its name, letter for letter.
    pub open spec fn tag(self) -> Seq<char> {
        match self {
            Self::REGULATED => "REGULATED"@,
            Self::UNKNOWN => "UNKNOWN"@,
            Self::UNREGULATED => "UNREGULATED"@,
            Self::NOTDOWNLOADED => "NOTDOWNLOADED"@,
        }
    }

    /// The canonical tag of the regulation status, under which it is written out.
    pub fn name(&self) -> (name: &'static str)
        ensures
            name@ == self.tag(),
    {
        match self {
            Self::REGULATED => "REGULATED",
            Self::UNKNOWN => "UNKNOWN",
            Self::UNREGULATED => "UNREGULATED",
            Self::NOTDOWNLOADED => "NOTDOWNLOADED",
        }
    }
}

impl Quality {
    /// The canonical tag of the quality: its name, letter for letter.
    pub open spec fn tag(self) -> Seq<char> {
        match self {
            Self::UNKNOWN => "UNKNOWN"@,
            Self::UNCONTROLLED => "UNCONTROLLED"@,
            Self::UNAVAILABLE => "UNAVAILABLE"@,
            Self::ESTIMATED => "ESTIMATED"@,
            Self::GOOD => "GOOD"@,
            Self::CONTROLLED => "CONTROLLED"@,
            Self::SUSPECT => "SUSPECT"@,
            Self::NOTPROVIDED => "NOTPROVIDED"@,
        }
    }

    /// The canonical tag of the quality, under which it is written out.
    pub fn name(&self) -> (name: &'static str)
        ensures
            name@ == self.tag(),
    {
        match self {
            Self::UNKNOWN => "UNKNOWN",
            Self::UNCONTROLLED => "UNCONTROLLED",
            Self::UNAVAILABLE => "UNAVAILABLE",
            Self::ESTIMATED => "ESTIMATED",
            Self::GOOD => "GOOD",
            Self::CONTROLLED => "CONTROLLED",
            Self::SUSPECT => "SUSPECT",
            Self::NOTPROVIDED => "NOTPROVIDED",
        }
    }
}

/// How a value was acquired.
pub enum Method {
    Qualified,
    Instantaneous,
    Minimum,
    Maximum,
}

} // verus!
