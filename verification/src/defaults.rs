//! The default of each vocabulary and of each filter, and the sample
//! identifiers and filters that trials against the providers use.

use vstd::prelude::*;

use crate::location::{LocationFilter, LocationId};
use crate::mapping::{
    Nation, Origin, ParameterDefinitions, ParameterResolutionDefinitions, Quality, Regulation,
};
use crate::station::{StationFilter, StationId};
use crate::timeseries::TimeSeriesFilter;

verus! {

/// Five station ids of NVE.
pub open spec fn nve_test_station_id() -> Seq<Seq<char>> {
    seq!["2_13_0"@, "2_39_0"@, "2_595_0"@, "2_661_0"@, "2_284_0"@]
}

/// Five station ids of UKGOV.
pub open spec fn uk_test_station_id() -> Seq<Seq<char>> {
    seq![
        "052d0819_2a32_47df_9b99_c243c9c8235b"@,
        "0a8b3311_f905_40e3_9516_823b7eb8a946"@,
        "0b2ad98d_d131_4233_9edc_f57be0b4ae31"@,
        "127b5107_82fb_4e10_a15d_77ac7766422d"@,
        "15eae722_7f1f_41cb_a93e_2acdeca10a0a"@,
    ]
}

/// Five station ids of CANADA.
pub open spec fn canada_test_station_id() -> Seq<Seq<char>> {
    seq!["02gh003"@, "02ge009"@, "02gh002"@, "02gh016"@, "02gh011"@]
}

/// Five river names.
pub open spec fn river_test_names() -> Seq<Seq<char>> {
    seq!["Sjoa"@, "Etna"@, "Lysakerelva"@, "Lomma"@, "River Thames"@]
}

/// The texts of the strings, in their order.
pub open spec fn texts(strings: Seq<String>) -> Seq<Seq<char>> {
    strings.map_values(|s: String| s@)
}

/// The five station ids of NVE.
pub fn nve_test_station_ids() -> (ids: Vec<String>)
    ensures
        texts(ids@) == nve_test_station_id(),
{
    let mut ids: Vec<String> = Vec::new();
    ids.push("2_13_0".to_owned());
    ids.push("2_39_0".to_owned());
    ids.push("2_595_0".to_owned());
    ids.push("2_661_0".to_owned());
    ids.push("2_284_0".to_owned());
    assert(texts(ids@) =~= nve_test_station_id());
    ids
}

/// The five station ids of UKGOV.
pub fn uk_test_station_ids() -> (ids: Vec<String>)
    ensures
        texts(ids@) == uk_test_station_id(),
{
    let mut ids: Vec<String> = Vec::new();
    ids.push("052d0819_2a32_47df_9b99_c243c9c8235b".to_owned());
    ids.push("0a8b3311_f905_40e3_9516_823b7eb8a946".to_owned());
    ids.push("0b2ad98d_d131_4233_9edc_f57be0b4ae31".to_owned());
    ids.push("127b5107_82fb_4e10_a15d_77ac7766422d".to_owned());
    ids.push("15eae722_7f1f_41cb_a93e_2acdeca10a0a".to_owned());
    assert(texts(ids@) =~= uk_test_station_id());
    ids
}

/// The five station ids of CANADA.
pub fn canada_test_station_ids() -> (ids: Vec<String>)
    ensures
        texts(ids@) == canada_test_station_id(),
{
    let mut ids: Vec<String> = Vec::new();
    ids.push("02gh003".to_owned());
    ids.push("02ge009".to_owned());
    ids.push("02gh002".to_owned());
    ids.push("02gh016".to_owned());
    ids.push("02gh011".to_owned());
    assert(texts(ids@) =~= canada_test_station_id());
    ids
}

/// Ten station ids as text: the five of UKGOV, then the five of NVE.
pub fn test_station_strings() -> (ids: Vec<String>)
    ensures
        texts(ids@) == uk_test_station_id() + nve_test_station_id(),
{
    let mut ids = uk_test_station_ids();
    let mut nve = nve_test_station_ids();
    let ghost first = ids@;
    let ghost second = nve@;
    ids.append(&mut nve);
    assert(texts(ids@) =~= texts(first) + texts(second));
    ids
}

/// Whether the identifiers pair the provider with each of the texts, in
/// their order.
pub open spec fn are_station_ids(ids: Seq<StationId>, origin: Origin, native: Seq<Seq<char>>) -> bool {
    &&& ids.len() == native.len()
    &&& forall|i: int| 0 <= i < ids.len() ==> (#[trigger] ids[i]).0 == origin && ids[i].1@ == native[i]
}

/// Ten station identifiers: the five ids of UKGOV under UKGOV, then the
/// same five ids under NVE. The ids are taken as they are.
pub fn test_station_ids() -> (ids: Vec<StationId>)
    ensures
        ids@.len() == 10,
        are_station_ids(ids@.subrange(0, 5), Origin::UKGOV, uk_test_station_id()),
        are_station_ids(ids@.subrange(5, 10), Origin::NVE, uk_test_station_id()),
{
    let native = uk_test_station_ids();
    assert(native@.len() == texts(native@).len());
    let mut ids: Vec<StationId> = Vec::new();
    let mut i: usize = 0;
    while i < 10
        invariant
            i <= 10,
            native@.len() == 5,
            texts(native@) == uk_test_station_id(),
            ids@.len() == i,
            forall|j: int|
                0 <= j < i ==> (#[trigger] ids@[j]).0 == (if j < 5 {
                    Origin::UKGOV
                } else {
                    Origin::NVE
                }) && ids@[j].1@ == uk_test_station_id()[j % 5],
        decreases 10 - i,
    {
        let origin = if i < 5 {
            Origin::UKGOV
        } else {
            Origin::NVE
        };
        let text = native[i % 5].clone();
        assert(text@ == texts(native@)[(i % 5) as int]);
        ids.push(StationId(origin, text));
        i += 1;
    }
    ids
}

/// Five location identifiers: the five ids of CANADA under CANADA. The
/// ids are taken as they are.
pub fn test_location_ids() -> (ids: Vec<LocationId>)
    ensures
        ids@.len() == 5,
        forall|i: int|
            0 <= i < 5 ==> (#[trigger] ids@[i]).0 == Origin::CANADA && ids@[i].1@
                == canada_test_station_id()[i],
{
    let native = canada_test_station_ids();
    assert(native@.len() == texts(native@).len());
    let mut ids: Vec<LocationId> = Vec::new();
    let mut i: usize = 0;
    while i < 5
        invariant
            i <= 5,
            native@.len() == 5,
            texts(native@) == canada_test_station_id(),
            ids@.len() == i,
            forall|j: int|
                0 <= j < i ==> (#[trigger] ids@[j]).0 == Origin::CANADA && ids@[j].1@
                    == canada_test_station_id()[j],
        decreases 5 - i,
    {
        let text = native[i].clone();
        assert(text@ == texts(native@)[i as int]);
        ids.push(LocationId(Origin::CANADA, text));
        i += 1;
    }
    ids
}

/// The five river names.
pub fn test_river_names() -> (names: Vec<String>)
    ensures
        texts(names@) == river_test_names(),
{
    let mut names: Vec<String> = Vec::new();
    names.push("Sjoa".to_owned());
    names.push("Etna".to_owned());
    names.push("Lysakerelva".to_owned());
    names.push("Lomma".to_owned());
    names.push("River Thames".to_owned());
    assert(texts(names@) =~= river_test_names());
    names
}

impl StationFilter {
    /// The filter that trials use: as the default.
    pub fn test_default() -> (filter: Self)
        ensures
            filter.nations == Nation::Norway,
            filter.include_activity_status_inactive,
    {
        StationFilter { nations: Nation::Norway, include_activity_status_inactive: true }
    }
}

impl Default for StationFilter {
    /// Stations of Norway, the inactive ones included.
    fn default() -> (filter: Self)
        ensures
            filter.nations == Nation::Norway,
            filter.include_activity_status_inactive,
    {
        StationFilter { nations: Nation::Norway, include_activity_status_inactive: true }
    }
}

impl LocationFilter {
    /// The filter that trials use: the locations of CANADA.
    pub fn test_default() -> (filter: Self)
        ensures
            filter.origin@ == seq![Origin::CANADA],
            filter.nation@.len() == 0,
            filter.loc_type@.len() == 0,
    {
        LocationFilter { origin: vec![Origin::CANADA], nation: Vec::new(), loc_type: Vec::new() }
    }
}

impl Default for LocationFilter {
    /// Locations of Norway.
    fn default() -> (filter: Self)
        ensures
            filter.origin@.len() == 0,
            filter.nation@ == seq![Nation::Norway],
            filter.loc_type@.len() == 0,
    {
        LocationFilter { origin: Vec::new(), nation: vec![Nation::Norway], loc_type: Vec::new() }
    }
}

impl TimeSeriesFilter {
    /// The filter that trials use: the ten sample stations, no parameter.
    pub fn test_default() -> (filter: Self)
        ensures
            filter.station_id@.len() == 10,
            are_station_ids(
                filter.station_id@.subrange(0, 5),
                Origin::UKGOV,
                uk_test_station_id(),
            ),
            are_station_ids(filter.station_id@.subrange(5, 10), Origin::NVE, uk_test_station_id()),
            filter.origin == Origin::NVE,
            filter.resolution is None,
            filter.parameters@.len() == 0,
    {
        TimeSeriesFilter {
            station_id: test_station_ids(),
            origin: Origin::NVE,
            resolution: None,
            parameters: Vec::new(),
        }
    }
}

impl Default for TimeSeriesFilter {
    /// The flow at no station in particular, from NVE.
    fn default() -> (filter: Self)
        ensures
            filter.station_id@.len() == 0,
            filter.origin == Origin::NVE,
            filter.resolution is None,
            filter.parameters@ == seq![ParameterDefinitions::FLOW],
    {
        TimeSeriesFilter {
            station_id: Vec::new(),
            origin: Origin::NVE,
            resolution: None,
            parameters: vec![ParameterDefinitions::FLOW],
        }
    }
}

impl Default for Origin {
    fn default() -> (origin: Self)
        ensures
            origin == Origin::NVE,
    {
        Origin::NVE
    }
}

impl Default for Nation {
    fn default() -> (nation: Self)
        ensures
            nation == Nation::Norway,
    {
        Nation::Norway
    }
}

impl Default for Regulation {
    fn default() -> (regulation: Self)
        ensures
            regulation == Regulation::UNKNOWN,
    {
        Regulation::UNKNOWN
    }
}

impl Default for ParameterDefinitions {
    fn default() -> (parameter: Self)
        ensures
            parameter == ParameterDefinitions::FLOW,
    {
        ParameterDefinitions::FLOW
    }
}

impl Default for ParameterResolutionDefinitions {
    fn default() -> (resolution: Self)
        ensures
            resolution == ParameterResolutionDefinitions::UNKNOWN,
    {
        ParameterResolutionDefinitions::UNKNOWN
    }
}

impl Default for Quality {
    fn default() -> (quality: Self)
        ensures
            quality == Quality::UNKNOWN,
    {
        Quality::UNKNOWN
    }
}

} // verus!
