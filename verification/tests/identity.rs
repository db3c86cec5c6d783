use wwn_definitions::defaults::{
    test_location_ids, test_river_names, test_station_ids, test_station_strings,
};
use wwn_definitions::location::{Location, LocationFilter, LocationId, LocationType};
use wwn_definitions::mapping::{
    Nation, Origin, ParameterDefinitions, ParameterResolutionDefinitions, Quality, Regulation,
};
use wwn_definitions::station::{normalize, Station, StationFilter, StationId};
use wwn_definitions::timeseries::{TimeSeries, TimeSeriesFilter, TimeSeriesId};
use wwn_definitions::{DataTable, Error, ServiceStatus, Status};

#[test]
fn station_id_is_normalized() {
    let id = StationId::from(Origin::NVE, "ABC-1.2".to_string());
    assert_eq!(id.0, Origin::NVE);
    assert_eq!(id.1, "abc_1_2");
}

#[test]
fn station_ids_that_differ_in_case_or_separator_are_equal() {
    for origin in [Origin::NVE, Origin::SMIH, Origin::UKGOV, Origin::CANADA] {
        assert_eq!(
            StationId::from(origin, "ABC-1.2".to_string()),
            StationId::from(origin, "abc_1_2".to_string())
        );
    }
    assert_ne!(
        StationId::from(Origin::NVE, "abc_1_2".to_string()),
        StationId::from(Origin::UKGOV, "abc_1_2".to_string())
    );
    assert_ne!(
        StationId::from(Origin::NVE, "abc_1_2".to_string()),
        StationId::from(Origin::NVE, "abc_1_3".to_string())
    );
}

#[test]
fn location_ids_that_differ_in_case_or_separator_are_equal() {
    let a = LocationId::from(Origin::CANADA, "02GH003".to_string());
    let b = LocationId::from(Origin::CANADA, "02gh003".to_string());
    assert_eq!(a, b);
    assert_eq!(a.1, "02gh003");
    assert_eq!(
        LocationId::from(Origin::UKGOV, "ABC-1.2".to_string()),
        LocationId::from(Origin::UKGOV, "abc_1_2".to_string())
    );
}

#[test]
fn normalize_touches_only_ascii_letters_and_the_two_separators() {
    assert_eq!(normalize(""), "");
    assert_eq!(normalize("A-Z.a_z"), "a_z_a_z");
    assert_eq!(normalize("Å-É.ß"), "Å_É_ß");
    assert_eq!(normalize("x,y:z 1+2"), "x,y:z 1+2");
    assert_eq!(normalize("..--"), "____");
    assert_eq!(normalize("@[`{"), "@[`{");
}

#[test]
fn normalize_is_idempotent() {
    for raw in ["ABC-1.2", "052D0819-2a32", "Ål.Vik-3", "", "__"] {
        let once = normalize(raw);
        assert_eq!(normalize(&once), once);
    }
}

#[test]
fn identifiers_are_ordered_by_provider_then_id() {
    let a = StationId::from(Origin::NVE, "B".to_string());
    let b = StationId::from(Origin::NVE, "c".to_string());
    let c = StationId::from(Origin::SMIH, "A".to_string());
    assert!(a < b);
    assert!(b < c);
}

#[test]
fn station_filter_default_is_norway_with_inactive() {
    let filter = StationFilter::default();
    assert_eq!(filter.nations, Nation::Norway);
    assert!(filter.include_activity_status_inactive);
    assert_eq!(StationFilter::test_default(), filter);
}

#[test]
fn location_filter_defaults() {
    let filter = LocationFilter::default();
    assert!(filter.origin.is_empty());
    assert_eq!(filter.nation, vec![Nation::Norway]);
    assert!(filter.loc_type.is_empty());
    let trial = LocationFilter::test_default();
    assert_eq!(trial.origin, vec![Origin::CANADA]);
    assert!(trial.nation.is_empty());
    assert!(trial.loc_type.is_empty());
}

#[test]
fn timeseries_filter_default_asks_for_flow() {
    let filter = TimeSeriesFilter::default();
    assert!(filter.station_id.is_empty());
    assert_eq!(filter.origin, Origin::NVE);
    assert_eq!(filter.resolution, None);
    assert_eq!(filter.parameters, vec![ParameterDefinitions::FLOW]);
}

#[test]
fn timeseries_filter_trial_names_the_sample_stations() {
    let filter = TimeSeriesFilter::test_default();
    assert_eq!(filter.station_id, test_station_ids());
    assert_eq!(filter.origin, Origin::NVE);
    assert_eq!(filter.resolution, None);
    assert!(filter.parameters.is_empty());
}

#[test]
fn timeseries_filter_is_valid_only_without_stations() {
    assert_eq!(TimeSeriesFilter::default().is_valid(), Ok(()));
    assert_eq!(TimeSeriesFilter::test_default().is_valid(), Err(Error::InvalidFilterFError));
    let mut one = TimeSeriesFilter::default();
    one.station_id.push(StationId::from(Origin::NVE, "2.13.0".to_string()));
    assert_eq!(one.is_valid(), Err(Error::InvalidFilterFError));
}

#[test]
fn vocabulary_defaults() {
    assert_eq!(Origin::default(), Origin::NVE);
    assert_eq!(Nation::default(), Nation::Norway);
    assert_eq!(Regulation::default(), Regulation::UNKNOWN);
    assert_eq!(ParameterDefinitions::default(), ParameterDefinitions::FLOW);
    assert_eq!(ParameterResolutionDefinitions::default(), ParameterResolutionDefinitions::UNKNOWN);
    assert_eq!(Quality::default(), Quality::UNKNOWN);
}

#[test]
fn sample_station_strings_are_uk_then_nve() {
    let ids = test_station_strings();
    assert_eq!(
        ids,
        vec![
            "052d0819_2a32_47df_9b99_c243c9c8235b",
            "0a8b3311_f905_40e3_9516_823b7eb8a946",
            "0b2ad98d_d131_4233_9edc_f57be0b4ae31",
            "127b5107_82fb_4e10_a15d_77ac7766422d",
            "15eae722_7f1f_41cb_a93e_2acdeca10a0a",
            "2_13_0",
            "2_39_0",
            "2_595_0",
            "2_661_0",
            "2_284_0",
        ]
    );
}

#[test]
fn sample_station_ids_pair_the_uk_ids_with_two_providers() {
    let ids = test_station_ids();
    assert_eq!(ids.len(), 10);
    let strings = test_station_strings();
    for i in 0..5 {
        assert_eq!(ids[i], StationId(Origin::UKGOV, strings[i].clone()));
        assert_eq!(ids[i + 5], StationId(Origin::NVE, strings[i].clone()));
    }
}

#[test]
fn sample_ids_are_already_normal() {
    for id in test_station_ids() {
        assert_eq!(StationId::from(id.0, id.1.clone()), id);
    }
    for id in test_location_ids() {
        assert_eq!(LocationId::from(id.0, id.1.clone()), id);
    }
}

#[test]
fn sample_location_ids_are_those_of_canada() {
    let ids = test_location_ids();
    let expected = ["02gh003", "02ge009", "02gh002", "02gh016", "02gh011"];
    assert_eq!(ids.len(), 5);
    for i in 0..5 {
        assert_eq!(ids[i], LocationId(Origin::CANADA, expected[i].to_string()));
    }
}

#[test]
fn sample_river_names() {
    assert_eq!(test_river_names(), vec!["Sjoa", "Etna", "Lysakerelva", "Lomma", "River Thames"]);
}

#[test]
fn resource_paths_are_stable() {
    assert_eq!(<Location as DataTable>::endpoint(), "/location");
    assert_eq!(<Station as DataTable>::endpoint(), "/station");
    assert_eq!(<TimeSeries as DataTable>::endpoint(), "/timeseries");
}

#[test]
fn status_keeps_its_parts() {
    let status = Status::new("1.2".to_string(), ServiceStatus::Compromised("slow".to_string()));
    assert_eq!(status.get_version(), "1.2");
    assert_eq!(status.get_service(), &ServiceStatus::Compromised("slow".to_string()));
    assert!(ServiceStatus::Good < ServiceStatus::Unavailable);
}

#[test]
fn location_type_has_one_kind() {
    assert_eq!(LocationType::MeasuringStation.name(), "MeasuringStation");
}

#[test]
fn service_status_tags_leave_the_reason_out() {
    assert_eq!(ServiceStatus::Good.name(), "Good");
    assert_eq!(ServiceStatus::Compromised("slow".to_string()).name(), "Compromised");
    assert_eq!(ServiceStatus::Unavailable.name(), "Unavailable");
}

#[test]
fn series_ids_are_equal_by_their_three_parts() {
    let id = |native: &str, parameter, resolution| {
        TimeSeriesId(StationId::from(Origin::NVE, native.to_string()), parameter, resolution)
    };
    let a = id("2.13.0", ParameterDefinitions::FLOW, ParameterResolutionDefinitions::HOURLY);
    assert_eq!(a, id("2-13-0", ParameterDefinitions::FLOW, ParameterResolutionDefinitions::HOURLY));
    assert_ne!(a, id("2.13.1", ParameterDefinitions::FLOW, ParameterResolutionDefinitions::HOURLY));
    assert_ne!(a, id("2.13.0", ParameterDefinitions::RAINFALL, ParameterResolutionDefinitions::HOURLY));
    assert_ne!(a, id("2.13.0", ParameterDefinitions::FLOW, ParameterResolutionDefinitions::DAILY));
}
