//! Locations: their identifier, their filter and their record.

use vstd::prelude::*;

use crate::mapping::{Nation, Origin};
use crate::station::{normalize, normalized};
use crate::value::Value;
use crate::DataTable;

verus! {

/// Which locations a request asks for.
#[derive(Debug, Clone, Hash, PartialEq, Eq)]
pub struct LocationFilter {
    pub origin: Vec<Origin>,
    pub nation: Vec<Nation>,
    pub loc_type: Vec<LocationType>,
}

impl crate::Filter for LocationFilter {

}

/// Identifier of a location: the provider and the provider's id in normal
/// form.
#[derive(Debug, Clone, Eq, PartialOrd, Ord, Hash)]
pub struct LocationId(pub Origin, pub String);

impl PartialEq for LocationId {
    fn eq(&self, other: &Self) -> (same: bool) {
        self.0 == other.0 && self.1 == other.1
    }
}

impl vstd::std_specs::cmp::PartialEqSpecImpl for LocationId {
    open spec fn obeys_eq_spec() -> bool {
        true
    }

    /// Two identifiers are equal when they name the same provider and
    /// hold the same text.
    open spec fn eq_spec(&self, other: &Self) -> bool {
        self.0 == other.0 && self.1@ == other.1@
    }
}

impl LocationId {
    /// The identifier of a provider's location, from the provider's own
    /// spelling of the id.
    pub fn from(origin: Origin, id: String) -> (location: Self)
        ensures
            location.0 == origin,
            location.1@ == normalized(id@),
    {
        LocationId(origin, normalize(id.as_str()))
    }
}

/// What kind of place a location is.
#[derive(Debug, Clone, Copy, Hash, PartialEq, Eq, Structural, PartialOrd, Ord)]
pub enum LocationType {
    MeasuringStation,
}

impl LocationType {
    /// The canonical tag of the kind: its name, letter for letter.
    pub open spec fn tag(self) -> Seq<char> {
        match self {
            Self::MeasuringStation => "MeasuringStation"@,
        }
    }

    /// The canonical tag of the kind, under which it is written out.
    pub fn name(&self) -> (name: &'static str)
        ensures
            name@ == self.tag(),
    {
        match self {
            Self::MeasuringStation => "MeasuringStation",
        }
    }
}

/// A place where something is measured.
#[derive(Debug, PartialEq)]
pub struct Location {
    pub id: LocationId,
    pub name: String,
    pub description: String,
    /// The two coordinates of the place, in the order the provider gave
    /// them.
    pub coordinates: (Value, Value),
    pub location_type: LocationType,
    pub origin: Origin,
    pub source: String,
    pub source_id: String,
    pub nation: Nation,
}

impl Clone for Location {
    fn clone(&self) -> (copy: Self)
        ensures
            copy.coordinates == self.coordinates,
            copy.location_type == self.location_type,
            copy.origin == self.origin,
            copy.nation == self.nation,
    {
        Location {
            id: self.id.clone(),
            name: self.name.clone(),
            description: self.description.clone(),
            coordinates: (self.coordinates.0, self.coordinates.1),
            location_type: self.location_type,
            origin: self.origin,
            source: self.source.clone(),
            source_id: self.source_id.clone(),
            nation: self.nation,
        }
    }
}

/// What is served beside a location; nothing so far.
#[derive(Debug, Clone, PartialEq, PartialOrd)]
pub struct LocationMetaData {}

impl DataTable for Location {
    type DataType = Location;

    type PrimaryId = LocationId;

    type FilterType = LocationFilter;

    type MetaDataType = LocationMetaData;

    open spec fn endpoint_path() -> Seq<char> {
        "/location"@
    }

    fn endpoint() -> (path: &'static str) {
        "/location"
    }
}

/// A named point.
#[derive(Debug, Clone, PartialEq)]
pub struct Position {
    pub name: String,
    pub description: String,
    pub coordinate: Coordinates,
}

/// Longitude and latitude of a point.
#[derive(Debug, Clone, Copy, PartialEq)]
pub struct Coordinates {
    pub longitude: Value,
    pub latitude: Value,
}

} // verus!
