//! Monitoring stations: their identifier, their filter and their record.

use vstd::prelude::*;
use vstd::std_specs::cmp::PartialEqSpec;

use crate::location::Location;
use crate::mapping::{
    Nation, Origin, ParameterDefinitions, ParameterResolutionDefinitions, Regulation,
};
use crate::time::Timestamp;
use crate::timeseries_metadata::TimeseriesMetaData;
use crate::DataTable;
use crate::text::{ascii_lower, replace, to_ascii_lowercase};

verus! {

/// The normal form of one character of a native id: separators become an
/// underscore, ASCII letters lower case.
pub open spec fn normalized_char(c: char) -> char {
    if c == '-' || c == '.' {
        '_'
    } else {
        ascii_lower(c)
    }
}

/// The normal form of a native id: character by character.
pub open spec fn normalized(raw: Seq<char>) -> Seq<char> {
    raw.map_values(|c: char| normalized_char(c))
}

/// Brings a provider's native id into its normal form, so that ids which
/// differ only in case or in the separator used compare equal.
pub fn normalize(raw: &str) -> (id: String)
    ensures
        id@ == normalized(raw@),
{
    let lower = to_ascii_lowercase(raw);
    proof {
        reveal_strlit("-");
        reveal_strlit(".");
        reveal_strlit("_");
    }
    let dashed = replace(lower.as_str(), "-", "_");
    let dotted = replace(dashed.as_str(), ".", "_");
    assert(dotted@ =~= normalized(raw@));
    dotted
}

/// A normal form is its own normal form.
pub proof fn lemma_normalized_idempotent(raw: Seq<char>)
    ensures
        normalized(normalized(raw)) == normalized(raw),
{
    assert forall|c: char| normalized_char(normalized_char(c)) == normalized_char(c) by {
        lemma_normalized_char_idempotent(c);
    }
    assert(normalized(normalized(raw)) =~= normalized(raw));
}

/// The normal form of a character is its own normal form.
pub proof fn lemma_normalized_char_idempotent(c: char)
    ensures
        normalized_char(normalized_char(c)) == normalized_char(c),
{
    if 'A' <= c <= 'Z' {
        let lower = ascii_lower(c);
        assert('a' <= lower <= 'z');
    }
}

/// Which stations a request asks for.
#[derive(Debug, Clone, Hash, PartialEq, Eq, Structural)]
pub struct StationFilter {
    pub nations: Nation,
    pub include_activity_status_inactive: bool,
}

impl crate::Filter for StationFilter {

}

/// Identifier of a station: the provider and the provider's id in normal
/// form.
#[derive(Debug, Clone, Eq, PartialOrd, Ord, Hash)]
pub struct StationId(pub Origin, pub String);

impl PartialEq for StationId {
    fn eq(&self, other: &Self) -> (same: bool) {
        self.0 == other.0 && self.1 == other.1
    }
}

impl vstd::std_specs::cmp::PartialEqSpecImpl for StationId {
    open spec fn obeys_eq_spec() -> bool {
        true
    }

    /// Two identifiers are equal when they name the same provider and
    /// hold the same text.
    open spec fn eq_spec(&self, other: &Self) -> bool {
        self.0 == other.0 && self.1@ == other.1@
    }
}

impl StationId {
    /// The identifier of a provider's station, from the provider's own
    /// spelling of the id.
    pub fn from(origin: Origin, id: String) -> (station: Self)
        ensures
            station.0 == origin,
            station.1@ == normalized(id@),
    {
        StationId(origin, normalize(id.as_str()))
    }
}

/// Two identifiers that `StationId::from` builds for one provider are
/// equal exactly when the spellings they were built from have the same
/// normal form.
pub proof fn lemma_station_ids_equal_by_normal_form(
    a: StationId,
    b: StationId,
    origin: Origin,
    first: Seq<char>,
    second: Seq<char>,
)
    requires
        a.0 == origin && a.1@ == normalized(first),
        b.0 == origin && b.1@ == normalized(second),
    ensures
        a.eq_spec(&b) <==> normalized(first) == normalized(second),
{
}

/// A monitoring station.
#[derive(Debug, Clone, PartialEq)]
pub struct Station {
    pub id: StationId,
    pub source_id: String,
    pub status: bool,
    pub status_description: Vec<String>,
    pub river_name: Vec<String>,
    pub parental_hierarchy: Vec<String>,
    pub last_update: Timestamp,
    pub origin: Origin,
    pub measuring_authority_id: Option<String>,
    pub station_type: Option<String>,
    pub regulation_status: Regulation,
    pub station_parameters: Vec<StationParameterMetaData>,
    pub location: Location,
}

/// What is served beside a station: for each parameter the finest
/// resolution with more than a year of samples.
#[derive(Debug, Clone, PartialEq, PartialOrd)]
pub struct StationMetaData {
    max_resolution_with_more_than_one_year: Vec<
        (ParameterDefinitions, ParameterResolutionDefinitions),
    >,
}

impl StationMetaData {
    /// The finest resolutions, parameter by parameter.
    pub closed spec fn resolutions(self) -> Seq<
        (ParameterDefinitions, ParameterResolutionDefinitions),
    > {
        self.max_resolution_with_more_than_one_year@
    }

    /// The metadata that holds these resolutions.
    pub fn new(
        max_resolution_with_more_than_one_year: Vec<
            (ParameterDefinitions, ParameterResolutionDefinitions),
        >,
    ) -> (metadata: Self)
        ensures
            metadata.resolutions() == max_resolution_with_more_than_one_year@,
    {
        StationMetaData { max_resolution_with_more_than_one_year }
    }

    /// The finest resolutions, parameter by parameter.
    pub fn max_resolutions(&self) -> (held: &Vec<
        (ParameterDefinitions, ParameterResolutionDefinitions),
    >)
        ensures
            held@ == self.resolutions(),
    {
        &self.max_resolution_with_more_than_one_year
    }
}

impl DataTable for Station {
    type DataType = Station;

    type PrimaryId = StationId;

    type FilterType = StationFilter;

    type MetaDataType = StationMetaData;

    open spec fn endpoint_path() -> Seq<char> {
        "/station"@
    }

    fn endpoint() -> (path: &'static str) {
        "/station"
    }
}

/// What a station measures of one parameter.
#[derive(Debug, Clone, PartialEq)]
pub struct StationParameterMetaData {
    pub parameter: ParameterDefinitions,
    pub resolutions: Vec<StationParameterResolution>,
    pub metadata: Option<TimeseriesMetaData>,
    pub unit: String,
}

/// One resolution at which a station measures a parameter, and where it
/// comes from.
#[derive(Debug, Clone, PartialEq)]
pub struct StationParameterResolution {
    pub source_resolution: String,
    pub internal_resolution: Option<i64>,
    pub resolution: ParameterResolutionDefinitions,
    pub from: Option<Timestamp>,
    pub to: Option<Timestamp>,
    pub method: String,
}

} // verus!
