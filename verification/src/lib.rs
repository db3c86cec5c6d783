//! Canonical vocabulary, identifiers and time-series analytics for
//! hydrological monitoring data gathered from several national providers.

use vstd::prelude::*;

pub mod defaults;
pub mod location;
pub mod mapping;
pub mod order;
pub mod station;
pub mod text;
pub mod time;
pub mod timeseries;
pub mod timeseries_metadata;
pub mod value;

use crate::mapping::{Origin, ParameterDefinitions};

verus! {

/// What can go wrong when a value crosses the boundary between a provider's
/// vocabulary and the canonical one, or when a request is malformed.
#[derive(Debug, Clone, PartialEq, Eq)]
#[non_exhaustive]
pub enum Error {
    /// The provider's raw value has no canonical counterpart.
    InternalMappingError(Origin, String),
    /// The canonical value cannot be expressed in the provider's vocabulary.
    ExternalMappingError(Origin, ParameterDefinitions),
    /// A filter failed its validity rule.
    InvalidFilterFError,
}

/// How far the service can be relied on.
#[derive(Debug, Clone, PartialEq, PartialOrd)]
pub enum ServiceStatus {
    Good,
    Compromised(String),
    Unavailable,
}

impl ServiceStatus {
    /// The canonical tag of the status: the name of its kind, without the
    /// reason that a compromised status carries.
    pub open spec fn tag(self) -> Seq<char> {
        match self {
            Self::Good => "Good"@,
            Self::Compromised(_) => "Compromised"@,
            Self::Unavailable => "Unavailable"@,
        }
    }

    /// The canonical tag of the status, under which it is written out.
    pub fn name(&self) -> (name: &'static str)
        ensures
            name@ == self.tag(),
    {
        match self {
            Self::Good => "Good",
            Self::Compromised(_) => "Compromised",
            Self::Unavailable => "Unavailable",
        }
    }
}

/// The state of the service that answers a request.
#[derive(Debug, Clone, PartialEq, PartialOrd)]
pub struct Status {
    version: String,
    service: ServiceStatus,
}

impl Status {
    /// The status of a service of the given version.
    pub fn new(version: String, service: ServiceStatus) -> (status: Self)
        ensures
            status.version() == version,
            status.service() == service,
    {
        Status { version, service }
    }

    /// The version of the service.
    pub closed spec fn version(self) -> String {
        self.version
    }

    /// How far the service can be relied on.
    pub closed spec fn service(self) -> ServiceStatus {
        self.service
    }

    /// The version of the service.
    pub fn get_version(&self) -> (version: &String)
        ensures
            *version == self.version(),
    {
        &self.version
    }

    /// How far the service can be relied on.
    pub fn get_service(&self) -> (service: &ServiceStatus)
        ensures
            *service == self.service(),
    {
        &self.service
    }
}

/// Marks the descriptors that say which records a request asks for.
pub trait Filter {

}

/// Describes one kind of record: what identifies it, what filters it, what
/// is served beside it, and the path under which it is served.
pub trait DataTable: Sized {
    type DataType;

    type PrimaryId;

    type FilterType: Filter;

    type MetaDataType;

    /// The path under which records of this kind are served.
    spec fn endpoint_path() -> Seq<char>;

    /// The path under which records of this kind are served.
    fn endpoint() -> (path: &'static str)
        ensures
            path@ == Self::endpoint_path(),
    ;
}

/// A response: the records asked for, what is served beside them, and the
/// state of the service that answers.
pub struct Data<T> where T: DataTable {
    service: Status,
    data: T,
    metadata: T::MetaDataType,
}

impl<T: DataTable> Data<T> {
    /// A response of these three parts.
    pub fn new(service: Status, data: T, metadata: T::MetaDataType) -> (response: Self)
        ensures
            response.service() == service,
            response.data() == data,
            response.metadata() == metadata,
    {
        Data { service, data, metadata }
    }

    /// The state of the service.
    pub closed spec fn service(self) -> Status {
        self.service
    }

    /// The records.
    pub closed spec fn data(self) -> T {
        self.data
    }

    /// What is served beside the records.
    pub closed spec fn metadata(self) -> T::MetaDataType {
        self.metadata
    }

    /// Takes the response apart.
    pub fn into_parts(self) -> (parts: (Status, T, T::MetaDataType))
        ensures
            parts == (self.service(), self.data(), self.metadata()),
    {
        (self.service, self.data, self.metadata)
    }
}

impl Error {
    /// Whether this is the internal mapping error for the given provider
    /// and raw text.
    pub open spec fn is_internal(self, origin: Origin, raw: Seq<char>) -> bool {
        self matches Error::InternalMappingError(o, r) && o == origin && r@ == raw
    }

    /// The text of the error: what went wrong, then, for a mapping error,
    /// the provider and the value that could not be mapped.
    pub open spec fn message_text(self) -> Seq<char> {
        match self {
            Error::InternalMappingError(origin, raw) =>
                "The data observation type provided by the data source doesnt exist internally for the provided data origin -> "@
                    + origin.tag() + " + "@ + raw@,
            Error::ExternalMappingError(origin, parameter) =>
                "The provided data observation type doesnt provide an external defintion for the data origin -> "@
                    + origin.tag() + " + "@ + parameter.tag(),
            Error::InvalidFilterFError =>
                "An empty filter is not valid. For all data, input the all parameters"@,
        }
    }

    /// The text of the error, for a reader.
    pub fn message(&self) -> (text: String)
        ensures
            text@ == self.message_text(),
    {
        match self {
            Error::InternalMappingError(origin, raw) => {
                let mut text = String::from_str(
                    "The data observation type provided by the data source doesnt exist internally for the provided data origin -> ",
                );
                text.append(origin.name());
                text.append(" + ");
                text.append(raw.as_str());
                text
            },
            Error::ExternalMappingError(origin, parameter) => {
                let mut text = String::from_str(
                    "The provided data observation type doesnt provide an external defintion for the data origin -> ",
                );
                text.append(origin.name());
                text.append(" + ");
                text.append(parameter.name());
                text
            },
            Error::InvalidFilterFError => String::from_str(
                "An empty filter is not valid. For all data, input the all parameters",
            ),
        }
    }
}

} // verus!
