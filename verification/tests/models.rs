use hrdf_parser::models::{
    Coordinate, CoordinateType, Date, JourneyPlatform, Language, Platform, Stop, TimetableKeyData,
    Translations,
};
use hrdf_parser::parsing::{ColumnDefinition, ExpectedType, ParseError};

#[test]
fn journey_platform_hands_back_what_it_was_made_of() {
    let journey_platform =
        JourneyPlatform::new(12, 8500010 << 32, "000011".to_string(), Some(815), None);
    assert_eq!(journey_platform.journey_id(), 12);
    assert_eq!(journey_platform.platform_id(), 8500010 << 32);
    assert_eq!(journey_platform.unknown1(), "000011");
    assert_eq!(journey_platform.hour(), &Some(815));
    assert_eq!(journey_platform.bit_field_id(), &None);
}

#[test]
fn platform_identifier_has_the_stop_in_its_upper_half() {
    assert_eq!(Platform::create_id(8500010, 3), (8500010i64 << 32) + 3);
    assert_eq!(Platform::create_id(0, 0), 0);
    assert_eq!(Platform::create_id(1, -1), (1i64 << 32) - 1);
    assert_eq!(Platform::create_id(-1, 0), -(1i64 << 32));
    let mut platform = Platform::new(7, "12".to_string(), Some("AB".to_string()));
    assert_eq!(platform.id(), 7);
    assert_eq!(platform.number(), "12");
    assert_eq!(platform.sectors().as_deref(), Some("AB"));
    assert_eq!(platform.sloid(), "");
    assert_eq!(platform.lv95_coordinate().easting(), "0");
    platform.set_sloid("ch:1:sloid:7".to_string());
    platform.set_wgs84_coordinate(Coordinate::new(
        CoordinateType::WGS84,
        "46.9".to_string(),
        "7.4".to_string(),
        540,
    ));
    assert_eq!(platform.sloid(), "ch:1:sloid:7");
    assert_eq!(platform.wgs84_coordinate().latitude(), "46.9");
    assert_eq!(platform.wgs84_coordinate().longitude(), "7.4");
    assert_eq!(platform.wgs84_coordinate().altitude(), 540);
}

#[test]
fn stop_starts_without_positions() {
    let mut stop = Stop::new(8507000, "Bern".to_string(), None, Some("BN".to_string()), None);
    assert_eq!(stop.id(), 8507000);
    assert_eq!(stop.name(), "Bern");
    assert_eq!(stop.abbreviation().as_deref(), Some("BN"));
    assert!(stop.lv95_coordinate().is_none());
    stop.set_lv95_coordinate(Coordinate::new(
        CoordinateType::LV95,
        "2600000".to_string(),
        "1200000".to_string(),
        540,
    ));
    assert_eq!(stop.lv95_coordinate().as_ref().unwrap().northing(), "1200000");
    stop.add_boarding_area("a".to_string());
    stop.add_boarding_area("b".to_string());
    assert_eq!(stop.boarding_areas(), &vec!["a".to_string(), "b".to_string()]);
}

#[test]
fn timetable_key_data_hands_back_what_it_was_made_of() {
    let start = Date { year: 2023, month: 12, day: 10 };
    let end = Date { year: 2024, month: 12, day: 14 };
    let key_data = TimetableKeyData::new(start, end, vec!["Fahrplan 2024".to_string()]);
    assert_eq!(key_data.start_date(), &start);
    assert_eq!(key_data.end_date(), &end);
    assert_eq!(key_data.metadata(), &vec!["Fahrplan 2024".to_string()]);
}

#[test]
fn language_codes_are_read() {
    assert_eq!(Language::from_str("deu").unwrap(), Language::German);
    assert_eq!(Language::from_str("eng").unwrap(), Language::English);
    assert_eq!(Language::from_str("fra").unwrap(), Language::French);
    assert_eq!(Language::from_str("ita").unwrap(), Language::Italian);
    assert!(matches!(Language::from_str("DEU"), Err(ParseError::UnknownLanguage)));
    assert!(matches!(Language::from_str("de"), Err(ParseError::UnknownLanguage)));
    assert_eq!(Language::default(), Language::German);
    let mut texts = Translations::new();
    texts.set(Language::French, "un".to_string());
    texts.set(Language::French, "deux".to_string());
    assert_eq!(texts.get(Language::French).as_deref(), Some("deux"));
    assert_eq!(texts.get(Language::German), &None);
}

#[test]
fn column_definition_keeps_its_kind() {
    assert_eq!(ColumnDefinition::new(ExpectedType::Float).expected(), ExpectedType::Float);
    assert_eq!(
        ColumnDefinition::new(ExpectedType::OptionInteger32).expected(),
        ExpectedType::OptionInteger32
    );
}
