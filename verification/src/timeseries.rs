//! Observations and the series that hold them.

use vstd::prelude::*;

use crate::mapping::{Origin, ParameterDefinitions, ParameterResolutionDefinitions, Quality};
use crate::station::StationId;
use crate::time::Timestamp;
use crate::value::Value;
use crate::timeseries_metadata::OrdinateTimeSeriesMetadata;
use crate::{DataTable, Error};

verus! {

/// One raw sample: when it was taken, what was measured, if anything, and
/// how far the provider vouches for it.
#[derive(Debug, Clone, Copy, PartialEq)]
pub struct Observation {
    pub datetime: Timestamp,
    pub value: Option<Value>,
    pub quality: Quality,
}

impl Observation {
    /// Whether the sample enters the statistics: its quality is on the good
    /// side and it holds a value.
    pub open spec fn counts(self) -> bool {
        self.quality.good() && self.value is Some
    }

    /// Whether the quality of the sample is on the good side.
    pub fn is_good_quality(&self) -> (good: bool)
        ensures
            good == self.quality.good(),
    {
        self.quality.is_good()
    }
}

/// A sample that holds a value.
#[derive(Debug, Clone, Copy, PartialEq)]
pub struct ValidatedObservation {
    pub datetime: Timestamp,
    pub value: Value,
    pub quality: Quality,
}

impl ValidatedObservation {
    /// The validated form of a sample: the same instant, value and quality
    /// where the sample holds a value, and nothing where it holds none.
    pub open spec fn validated(observation: Observation) -> Option<Self> {
        match observation.value {
            Some(value) => Some(
                ValidatedObservation {
                    datetime: observation.datetime,
                    value,
                    quality: observation.quality,
                },
            ),
            None => None,
        }
    }

    /// Validates a sample: `None` exactly when it holds no value.
    pub fn from_observation(observation: &Observation) -> (validated: Option<Self>)
        ensures
            validated == Self::validated(*observation),
    {
        match observation.value {
            Some(value) => Some(
                ValidatedObservation {
                    datetime: observation.datetime,
                    value,
                    quality: observation.quality,
                },
            ),
            None => None,
        }
    }
}

/// Identifier of a series: the station, what is measured, and how often.
#[derive(Debug, Clone, PartialOrd)]
pub struct TimeSeriesId(
    pub StationId,
    pub ParameterDefinitions,
    pub ParameterResolutionDefinitions,
);

impl PartialEq for TimeSeriesId {
    fn eq(&self, other: &Self) -> (same: bool) {
        self.0 == other.0 && self.1 == other.1 && self.2 == other.2
    }
}

impl vstd::std_specs::cmp::PartialEqSpecImpl for TimeSeriesId {
    open spec fn obeys_eq_spec() -> bool {
        true
    }

    /// Two identifiers are equal when they name the same station, the
    /// same parameter and the same resolution.
    open spec fn eq_spec(&self, other: &Self) -> bool {
        self.0.0 == other.0.0 && self.0.1@ == other.0.1@ && self.1 == other.1 && self.2
            == other.2
    }
}

/// A series: its samples in the order the provider gave them, and when they
/// were last asked for.
#[derive(Debug, Clone, PartialEq)]
pub struct TimeSeries {
    pub timseries_id: TimeSeriesId,
    pub observations: Vec<Observation>,
    pub last_update_request: Timestamp,
}

impl DataTable for TimeSeries {
    type DataType = TimeSeries;

    type PrimaryId = TimeSeriesId;

    type FilterType = TimeSeriesFilter;

    type MetaDataType = OrdinateTimeSeriesMetadata;

    open spec fn endpoint_path() -> Seq<char> {
        "/timeseries"@
    }

    fn endpoint() -> (path: &'static str) {
        "/timeseries"
    }
}

/// Which series a request asks for.
#[derive(Debug, Clone, Hash, PartialEq, Eq)]
pub struct TimeSeriesFilter {
    pub station_id: Vec<StationId>,
    pub origin: Origin,
    pub resolution: Option<ParameterResolutionDefinitions>,
    pub parameters: Vec<ParameterDefinitions>,
}

impl crate::Filter for TimeSeriesFilter {

}

impl TimeSeriesFilter {
    /// Checks the filter. As the rule stands, a filter is valid exactly
    /// when it names no station; one that names any is an invalid filter
    /// error.
    pub fn is_valid(&self) -> (checked: Result<(), Error>)
        ensures
            checked is Ok <==> self.station_id@.len() == 0,
            checked matches Err(e) ==> e == Error::InvalidFilterFError,
    {
        if self.station_id.len() == 0 {
            Ok(())
        } else {
            Err(Error::InvalidFilterFError)
        }
    }
}

} // verus!
