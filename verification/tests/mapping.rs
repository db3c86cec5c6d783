use wwn_definitions::mapping::{
    Nation, Origin, ParameterDefinitions, ParameterResolutionDefinitions, Quality, Regulation,
};
use wwn_definitions::Error;

const PARAMETERS: [ParameterDefinitions; 4] = [
    ParameterDefinitions::FLOW,
    ParameterDefinitions::WATERLEVEL,
    ParameterDefinitions::TEMPERATURE,
    ParameterDefinitions::RAINFALL,
];

const RESOLUTIONS: [ParameterResolutionDefinitions; 5] = [
    ParameterResolutionDefinitions::INSTANT,
    ParameterResolutionDefinitions::QUARTERLY,
    ParameterResolutionDefinitions::HOURLY,
    ParameterResolutionDefinitions::DAILY,
    ParameterResolutionDefinitions::UNKNOWN,
];

#[test]
fn resolution_from_nve_reads_the_documented_minutes() {
    assert_eq!(ParameterResolutionDefinitions::from_nve(&0), ParameterResolutionDefinitions::INSTANT);
    assert_eq!(ParameterResolutionDefinitions::from_nve(&60), ParameterResolutionDefinitions::HOURLY);
    assert_eq!(ParameterResolutionDefinitions::from_nve(&1440), ParameterResolutionDefinitions::DAILY);
}

#[test]
fn resolution_from_nve_falls_back_to_unknown() {
    for code in [-1i64, 1, 15, 59, 61, 1439, 86400, i64::MIN, i64::MAX] {
        assert_eq!(
            ParameterResolutionDefinitions::from_nve(&code),
            ParameterResolutionDefinitions::UNKNOWN
        );
    }
}

#[test]
fn resolution_to_nve_is_partial() {
    assert_eq!(ParameterResolutionDefinitions::INSTANT.to_nve(), Some(0));
    assert_eq!(ParameterResolutionDefinitions::QUARTERLY.to_nve(), None);
    assert_eq!(ParameterResolutionDefinitions::HOURLY.to_nve(), Some(60));
    assert_eq!(ParameterResolutionDefinitions::DAILY.to_nve(), Some(1440));
    assert_eq!(ParameterResolutionDefinitions::UNKNOWN.to_nve(), None);
}

#[test]
fn resolution_round_trips_through_nve() {
    for resolution in RESOLUTIONS {
        if let Some(native) = resolution.to_nve() {
            assert_eq!(ParameterResolutionDefinitions::from_nve(&native), resolution);
        }
    }
}

#[test]
fn resolution_from_uk_reads_the_documented_codes() {
    assert_eq!(
        ParameterResolutionDefinitions::from_uk(&Some(86400)),
        ParameterResolutionDefinitions::INSTANT
    );
    assert_eq!(
        ParameterResolutionDefinitions::from_uk(&Some(900)),
        ParameterResolutionDefinitions::QUARTERLY
    );
    assert_eq!(ParameterResolutionDefinitions::from_uk(&Some(1)), ParameterResolutionDefinitions::DAILY);
}

#[test]
fn resolution_from_uk_falls_back_to_unknown() {
    assert_eq!(ParameterResolutionDefinitions::from_uk(&None), ParameterResolutionDefinitions::UNKNOWN);
    for code in [0i64, 2, 15, 60, 899, 901, 1440, 86399, -900] {
        assert_eq!(
            ParameterResolutionDefinitions::from_uk(&Some(code)),
            ParameterResolutionDefinitions::UNKNOWN
        );
    }
}

#[test]
fn resolution_from_uk_to_internal_gives_minutes() {
    assert_eq!(ParameterResolutionDefinitions::from_uk_to_internal(&Some(86400)), Some(0));
    assert_eq!(ParameterResolutionDefinitions::from_uk_to_internal(&Some(900)), Some(15));
    assert_eq!(ParameterResolutionDefinitions::from_uk_to_internal(&Some(1)), Some(1440));
    assert_eq!(ParameterResolutionDefinitions::from_uk_to_internal(&Some(60)), None);
    assert_eq!(ParameterResolutionDefinitions::from_uk_to_internal(&None), None);
}

#[test]
fn resolution_to_uk_gives_minutes() {
    assert_eq!(ParameterResolutionDefinitions::INSTANT.to_uk(), Some(0));
    assert_eq!(ParameterResolutionDefinitions::QUARTERLY.to_uk(), Some(15));
    assert_eq!(ParameterResolutionDefinitions::HOURLY.to_uk(), Some(60));
    assert_eq!(ParameterResolutionDefinitions::DAILY.to_uk(), Some(1440));
    assert_eq!(ParameterResolutionDefinitions::UNKNOWN.to_uk(), None);
}

#[test]
fn resolution_to_uk_period_is_partial() {
    assert_eq!(ParameterResolutionDefinitions::INSTANT.to_uk_external_period_definition(), Some(86400));
    assert_eq!(ParameterResolutionDefinitions::QUARTERLY.to_uk_external_period_definition(), Some(900));
    assert_eq!(ParameterResolutionDefinitions::HOURLY.to_uk_external_period_definition(), None);
    assert_eq!(ParameterResolutionDefinitions::DAILY.to_uk_external_period_definition(), Some(1));
    assert_eq!(ParameterResolutionDefinitions::UNKNOWN.to_uk_external_period_definition(), None);
}

#[test]
fn uk_minutes_agree_with_the_categorical_reading() {
    for code in [Some(86400i64), Some(900), Some(1)] {
        let minutes = ParameterResolutionDefinitions::from_uk_to_internal(&code);
        assert!(minutes.is_some());
        assert_eq!(ParameterResolutionDefinitions::from_uk(&code).to_uk(), minutes);
    }
}

#[test]
fn resolution_round_trips_through_uk() {
    let mut supported = Vec::new();
    for resolution in RESOLUTIONS {
        let code = resolution.to_uk_external_period_definition();
        if code.is_some() {
            assert_eq!(ParameterResolutionDefinitions::from_uk(&code), resolution);
            assert_eq!(ParameterResolutionDefinitions::from_uk_to_internal(&code), resolution.to_uk());
            supported.push(resolution);
        }
    }
    assert_eq!(
        supported,
        vec![
            ParameterResolutionDefinitions::INSTANT,
            ParameterResolutionDefinitions::QUARTERLY,
            ParameterResolutionDefinitions::DAILY,
        ]
    );
}

#[test]
fn parameter_from_nve_reads_the_documented_codes() {
    assert_eq!(ParameterDefinitions::from_nve(&1001), Ok(ParameterDefinitions::FLOW));
    assert_eq!(ParameterDefinitions::from_nve(&1000), Ok(ParameterDefinitions::WATERLEVEL));
    assert_eq!(ParameterDefinitions::from_nve(&1003), Ok(ParameterDefinitions::TEMPERATURE));
    assert_eq!(ParameterDefinitions::from_nve(&0), Ok(ParameterDefinitions::RAINFALL));
}

#[test]
fn parameter_from_nve_rejects_other_codes_with_their_decimal_text() {
    assert_eq!(
        ParameterDefinitions::from_nve(&1002),
        Err(Error::InternalMappingError(Origin::NVE, "1002".to_string()))
    );
    assert_eq!(
        ParameterDefinitions::from_nve(&-17),
        Err(Error::InternalMappingError(Origin::NVE, "-17".to_string()))
    );
    assert_eq!(
        ParameterDefinitions::from_nve(&i64::MIN),
        Err(Error::InternalMappingError(Origin::NVE, "-9223372036854775808".to_string()))
    );
    assert_eq!(
        ParameterDefinitions::from_nve(&10),
        Err(Error::InternalMappingError(Origin::NVE, "10".to_string()))
    );
}

#[test]
fn parameter_to_nve_is_the_decimal_text_of_the_code() {
    assert_eq!(ParameterDefinitions::FLOW.to_nve(), "1001");
    assert_eq!(ParameterDefinitions::WATERLEVEL.to_nve(), "1000");
    assert_eq!(ParameterDefinitions::TEMPERATURE.to_nve(), "1003");
    assert_eq!(ParameterDefinitions::RAINFALL.to_nve(), "0");
}

#[test]
fn parameter_round_trips_through_nve() {
    for parameter in PARAMETERS {
        let code: i64 = parameter.to_nve().parse().unwrap();
        assert_eq!(ParameterDefinitions::from_nve(&code), Ok(parameter));
    }
}

#[test]
fn parameter_round_trips_through_uk() {
    for parameter in PARAMETERS {
        assert_eq!(ParameterDefinitions::from_uk(parameter.to_uk()), Ok(parameter));
    }
    assert_eq!(ParameterDefinitions::FLOW.to_uk(), "flow");
    assert_eq!(ParameterDefinitions::WATERLEVEL.to_uk(), "level");
    assert_eq!(ParameterDefinitions::TEMPERATURE.to_uk(), "temperature");
    assert_eq!(ParameterDefinitions::RAINFALL.to_uk(), "rainfall");
}

#[test]
fn parameter_from_uk_rejects_other_names() {
    for name in ["", "Flow", "flow ", "levels", "FLOW", "rain"] {
        assert_eq!(
            ParameterDefinitions::from_uk(name),
            Err(Error::InternalMappingError(Origin::UKGOV, name.to_string()))
        );
    }
}

#[test]
fn parameter_from_smih_name_reads_the_documented_names() {
    assert_eq!(
        ParameterDefinitions::from_smih_name("Vattenföring (15 min)"),
        Ok(ParameterDefinitions::FLOW)
    );
    assert_eq!(ParameterDefinitions::from_smih_name("Vattenstånd"), Ok(ParameterDefinitions::WATERLEVEL));
    assert_eq!(
        ParameterDefinitions::from_smih_name("Vattendragstemperatur"),
        Ok(ParameterDefinitions::TEMPERATURE)
    );
}

#[test]
fn parameter_from_smih_name_rejects_other_names() {
    for name in ["", "Vattenforing (15 min)", "vattenstånd", "Nederbörd"] {
        assert_eq!(
            ParameterDefinitions::from_smih_name(name),
            Err(Error::InternalMappingError(Origin::SMIH, name.to_string()))
        );
    }
}

#[test]
fn parameter_to_smih_id_fails_exactly_for_rainfall() {
    assert_eq!(ParameterDefinitions::FLOW.to_smih_id(), Ok(2));
    assert_eq!(ParameterDefinitions::WATERLEVEL.to_smih_id(), Ok(3));
    assert_eq!(ParameterDefinitions::TEMPERATURE.to_smih_id(), Ok(4));
    assert_eq!(
        ParameterDefinitions::RAINFALL.to_smih_id(),
        Err(Error::ExternalMappingError(Origin::SMIH, ParameterDefinitions::RAINFALL))
    );
}

#[test]
fn parameter_to_canada_id_fails_exactly_for_rainfall() {
    assert_eq!(ParameterDefinitions::FLOW.to_canada_id(), Ok("flow"));
    assert_eq!(ParameterDefinitions::WATERLEVEL.to_canada_id(), Ok("primaryLevel"));
    assert_eq!(ParameterDefinitions::TEMPERATURE.to_canada_id(), Ok("temperature"));
    assert_eq!(
        ParameterDefinitions::RAINFALL.to_canada_id(),
        Err(Error::ExternalMappingError(Origin::CANADA, ParameterDefinitions::RAINFALL))
    );
}

#[test]
fn every_parameter_has_an_answer_for_every_provider() {
    for parameter in PARAMETERS {
        let unsupported = parameter == ParameterDefinitions::RAINFALL;
        assert!(!parameter.to_nve().is_empty());
        assert!(!parameter.to_uk().is_empty());
        assert_eq!(parameter.to_smih_id().is_err(), unsupported);
        assert_eq!(parameter.to_canada_id().is_err(), unsupported);
    }
}

#[test]
fn origin_and_nation_agree() {
    let origins = [Origin::NVE, Origin::SMIH, Origin::UKGOV, Origin::CANADA];
    let nations = [Nation::Norway, Nation::Sweden, Nation::Uk, Nation::Canada];
    for (origin, nation) in origins.iter().zip(nations.iter()) {
        assert_eq!(origin.to_nation(), *nation);
        assert_eq!(nation.to_origin(), &[*origin]);
    }
    for nation in nations {
        for origin in origins {
            assert_eq!(nation.to_origin().contains(&origin), origin.to_nation() == nation);
        }
    }
}

#[test]
fn quality_from_nve_never_fails() {
    assert_eq!(Quality::from_nve(&0), Quality::UNKNOWN);
    assert_eq!(Quality::from_nve(&1), Quality::UNCONTROLLED);
    assert_eq!(Quality::from_nve(&2), Quality::CONTROLLED);
    assert_eq!(Quality::from_nve(&3), Quality::CONTROLLED);
    for code in [-1i64, 4, 5, 100, i64::MAX, i64::MIN] {
        assert_eq!(Quality::from_nve(&code), Quality::UNKNOWN);
    }
}

#[test]
fn quality_from_uk_never_fails() {
    assert_eq!(Quality::from_uk("Good"), Quality::GOOD);
    assert_eq!(Quality::from_uk("Estimated"), Quality::ESTIMATED);
    assert_eq!(Quality::from_uk("Suspect"), Quality::SUSPECT);
    assert_eq!(Quality::from_uk("Unchecked"), Quality::UNCONTROLLED);
    assert_eq!(Quality::from_uk("Missing"), Quality::UNAVAILABLE);
    for word in ["", "good", "GOOD", "Good ", "Controlled", "anything else"] {
        assert_eq!(Quality::from_uk(word), Quality::UNKNOWN);
    }
}

#[test]
fn quality_partition_is_fixed() {
    for quality in [Quality::GOOD, Quality::ESTIMATED, Quality::CONTROLLED, Quality::NOTPROVIDED] {
        assert!(quality.is_good());
    }
    for quality in [Quality::UNKNOWN, Quality::UNCONTROLLED, Quality::UNAVAILABLE, Quality::SUSPECT] {
        assert!(!quality.is_good());
    }
}

#[test]
fn regulation_table_holds_the_seven_wordings() {
    assert_eq!(Regulation::from_external("regulert m/magasinregulering"), Some(Regulation::REGULATED));
    assert_eq!(
        Regulation::from_external("Regulert m/magasinregulering og overføringer"),
        Some(Regulation::REGULATED)
    );
    assert_eq!(
        Regulation::from_external("regulert m/magasin og uregulert restfelt"),
        Some(Regulation::REGULATED)
    );
    assert_eq!(Regulation::from_external(""), Some(Regulation::UNKNOWN));
    assert_eq!(Regulation::from_external("Uregulert"), Some(Regulation::UNREGULATED));
    assert_eq!(Regulation::from_external("Regulated"), Some(Regulation::REGULATED));
    assert_eq!(Regulation::from_external("Unregulated"), Some(Regulation::UNREGULATED));
    assert_eq!(Regulation::from_external("regulated"), None);
    assert_eq!(Regulation::from_external("uregulert"), None);
}

#[test]
fn tags_are_the_names_of_the_variants() {
    assert_eq!(ParameterResolutionDefinitions::INSTANT.name(), "INSTANT");
    assert_eq!(ParameterResolutionDefinitions::QUARTERLY.name(), "QUARTERLY");
    assert_eq!(ParameterResolutionDefinitions::HOURLY.name(), "HOURLY");
    assert_eq!(ParameterResolutionDefinitions::DAILY.name(), "DAILY");
    assert_eq!(ParameterResolutionDefinitions::UNKNOWN.name(), "UNKNOWN");
    assert_eq!(ParameterDefinitions::FLOW.name(), "FLOW");
    assert_eq!(ParameterDefinitions::WATERLEVEL.name(), "WATERLEVEL");
    assert_eq!(ParameterDefinitions::TEMPERATURE.name(), "TEMPERATURE");
    assert_eq!(ParameterDefinitions::RAINFALL.name(), "RAINFALL");
    assert_eq!(Origin::NVE.name(), "NVE");
    assert_eq!(Origin::SMIH.name(), "SMIH");
    assert_eq!(Origin::UKGOV.name(), "UKGOV");
    assert_eq!(Origin::CANADA.name(), "CANADA");
    assert_eq!(Nation::Norway.name(), "Norway");
    assert_eq!(Nation::Sweden.name(), "Sweden");
    assert_eq!(Nation::Uk.name(), "Uk");
    assert_eq!(Nation::Canada.name(), "Canada");
    assert_eq!(Regulation::REGULATED.name(), "REGULATED");
    assert_eq!(Regulation::UNKNOWN.name(), "UNKNOWN");
    assert_eq!(Regulation::UNREGULATED.name(), "UNREGULATED");
    assert_eq!(Regulation::NOTDOWNLOADED.name(), "NOTDOWNLOADED");
    assert_eq!(Quality::UNKNOWN.name(), "UNKNOWN");
    assert_eq!(Quality::UNCONTROLLED.name(), "UNCONTROLLED");
    assert_eq!(Quality::UNAVAILABLE.name(), "UNAVAILABLE");
    assert_eq!(Quality::ESTIMATED.name(), "ESTIMATED");
    assert_eq!(Quality::GOOD.name(), "GOOD");
    assert_eq!(Quality::CONTROLLED.name(), "CONTROLLED");
    assert_eq!(Quality::SUSPECT.name(), "SUSPECT");
    assert_eq!(Quality::NOTPROVIDED.name(), "NOTPROVIDED");
}

#[test]
fn error_messages_name_the_provider_and_the_value() {
    assert_eq!(
        Error::InternalMappingError(Origin::UKGOV, "rain".to_string()).message(),
        "The data observation type provided by the data source doesnt exist internally for the provided data origin -> UKGOV + rain"
    );
    assert_eq!(
        ParameterDefinitions::from_nve(&-5).unwrap_err().message(),
        "The data observation type provided by the data source doesnt exist internally for the provided data origin -> NVE + -5"
    );
    assert_eq!(
        ParameterDefinitions::RAINFALL.to_canada_id().unwrap_err().message(),
        "The provided data observation type doesnt provide an external defintion for the data origin -> CANADA + RAINFALL"
    );
    assert_eq!(
        Error::InvalidFilterFError.message(),
        "An empty filter is not valid. For all data, input the all parameters"
    );
}
