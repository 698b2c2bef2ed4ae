use hrdf_parser::models::{CoordinateType, Version};
use hrdf_parser::parsing::file_parser::FileParser;
use hrdf_parser::parsing::platform_parser::{
    create_hour_from_value, parse, parse_platform_data, parse_position, PlatformParser,
    ROW_COORD, ROW_JOURNEY_PLATFORM, ROW_PLATFORM, ROW_SECTION, ROW_SLOID,
};
use hrdf_parser::parsing::ParseError;
use rustc_hash::FxHashSet;

const JOURNEY: &str = "8500010 000003 000011#0000001 1234 053751";

fn journeys() -> FxHashSet<(i32, String)> {
    let mut set = FxHashSet::default();
    set.insert((3, "000011".to_string()));
    set
}

fn file(lines: &[&str]) -> Vec<u8> {
    let mut content = String::new();
    for line in lines {
        content.push_str(line);
        content.push_str("\r\n");
    }
    content.into_bytes()
}

#[test]
fn platform_rows_are_told_apart_by_shape() {
    let platform_parser = PlatformParser::new(Version::V_5_40_41_2_0_7);
    let rows = vec![
        JOURNEY.to_string(),
        "8500010#0000001G G '1' ".to_string(),
        "8500010#0000001A A 'AB'".to_string(),
        "8500010#0000001g A ch:1:s".to_string(),
        "8500010#0000001k 2.5 47".to_string(),
    ];
    let parser = FileParser::from_rows(rows, platform_parser.row_parser());
    let mut stream = parser.parse();
    let mut kinds = Vec::new();
    while let Some(record) = stream.next() {
        kinds.push(record.unwrap().0);
    }
    assert_eq!(kinds, vec![ROW_JOURNEY_PLATFORM, ROW_PLATFORM, ROW_SECTION, ROW_SLOID, ROW_COORD]);
    let old = PlatformParser::new(Version::V_5_40_41_2_0_4);
    assert_eq!(old.row_parser().len(), 4);
    assert!(matches!(
        old.row_parser().parse("8500010#0000001g A ch:1:s"),
        Err(ParseError::RowTypeNotFound { .. })
    ));
    assert_eq!(old.row_parser().parse("8500010#0000001I A ch:1:s").unwrap().0, ROW_SLOID);
    assert_eq!(old.row_parser().parse("8500010#0000001K 2.5 47").unwrap().0, ROW_COORD);
}

#[test]
fn platform_files_are_read_in_two_passes() {
    let main = file(&[
        JOURNEY,
        "8500010#0000001G G '1' ",
        "8500010#0000001g A ch:1:s",
        "8500010#0000001k 2.5 47",
    ]);
    // The rows of journeys are skipped by their byte count in the second
    // file: a line of the same length that no grammar accepts stands there.
    let filler = "X".repeat(JOURNEY.len());
    let wgs84 = file(&[&filler, "8500010#0000001k 7.5 46"]);
    let (journey_platforms, platforms) =
        parse(Version::V_5_40_41_2_0_7, &main, &main, &wgs84, &journeys()).unwrap();
    assert_eq!(journey_platforms.len(), 1);
    let journey_platform = &journey_platforms[0];
    assert_eq!(journey_platform.journey_id(), 3);
    assert_eq!(journey_platform.platform_id(), 1);
    assert_eq!(journey_platform.unknown1(), "000011");
    assert_eq!(journey_platform.hour(), &Some(1234));
    assert_eq!(journey_platform.bit_field_id(), &Some(53751));
    assert_eq!(platforms.len(), 1);
    let platform = platforms.get(&1).unwrap();
    assert_eq!(platform.id(), 1);
    assert_eq!(platform.number(), "1");
    assert_eq!(platform.sectors(), &None);
    assert_eq!(platform.sloid(), "ch:1:s");
    assert_eq!(platform.lv95_coordinate().easting(), "2.5");
    assert_eq!(platform.lv95_coordinate().northing(), "47");
    assert_eq!(platform.wgs84_coordinate().latitude(), "46");
    assert_eq!(platform.wgs84_coordinate().longitude(), "7.5");
}

#[test]
fn platform_journey_that_is_not_known_fails() {
    let main = file(&[JOURNEY, "8500010#0000001G G '1' "]);
    let none = FxHashSet::default();
    assert!(matches!(
        parse(Version::V_5_40_41_2_0_7, &main, &main, &main, &none),
        Err(ParseError::UnknownLegacyId)
    ));
    let no_platform = file(&[JOURNEY]);
    assert!(matches!(
        parse(Version::V_5_40_41_2_0_7, &no_platform, &no_platform, &no_platform, &journeys()),
        Err(ParseError::UnknownLegacyId)
    ));
}

#[test]
fn platform_rows_of_a_later_release_are_not_expected_in_an_earlier_one() {
    let main = file(&[JOURNEY, "8500010#0000001G G '1' ", "8500010#0000001K 2.5 47"]);
    assert!(matches!(
        parse(Version::V_5_40_41_2_0_5, &main, &main, &main, &journeys()),
        Err(ParseError::UnexpectedRow)
    ));
    let first = file(&[JOURNEY, "8500010#0000001G G '1' "]);
    let second = file(&[JOURNEY, "8500010#0000001K 2.5 47"]);
    let (_, platforms) =
        parse(Version::V_5_40_41_2_0_5, &first, &second, &second, &journeys()).unwrap();
    assert_eq!(platforms.get(&1).unwrap().lv95_coordinate().easting(), "2.5");
    assert_eq!(platforms.get(&1).unwrap().wgs84_coordinate().latitude(), "47");
}

#[test]
fn platform_description_gives_code_and_sectors() {
    let (code, sectors) = parse_platform_data("G '1' A 'AB'".to_string()).unwrap();
    assert_eq!(code, "1");
    assert_eq!(sectors.as_deref(), Some("AB"));
    let (code, sectors) = parse_platform_data("G '12'".to_string()).unwrap();
    assert_eq!(code, "12");
    assert_eq!(sectors, None);
    let (code, _) = parse_platform_data("G '1' G '2'".to_string()).unwrap();
    assert_eq!(code, "2");
    assert!(matches!(parse_platform_data("A 'AB'".to_string()), Err(ParseError::MissingPart)));
    assert!(matches!(parse_platform_data("'1'".to_string()), Err(ParseError::MissingPart)));
    assert!(matches!(parse_platform_data("".to_string()), Err(ParseError::MissingPart)));
}

#[test]
fn position_keeps_the_order_of_the_grid_and_swaps_that_of_the_globe() {
    let grid = parse_position(" 2600000.5   1200000.25 ", CoordinateType::LV95).unwrap();
    assert_eq!(grid.coordinate_type(), CoordinateType::LV95);
    assert_eq!(grid.easting(), "2600000.5");
    assert_eq!(grid.northing(), "1200000.25");
    assert_eq!(grid.altitude(), 0);
    let globe = parse_position(" 2600000.5   1200000.25 ", CoordinateType::WGS84).unwrap();
    assert_eq!(globe.latitude(), "1200000.25");
    assert_eq!(globe.longitude(), "2600000.5");
    assert!(matches!(
        parse_position("7.5", CoordinateType::LV95),
        Err(ParseError::MissingValue)
    ));
    match parse_position("7.5 north 3", CoordinateType::LV95) {
        Err(ParseError::InvalidValue { column, text }) => {
            assert_eq!(column, 2);
            assert_eq!(text, "north");
        }
        other => panic!("unexpected {:?}", other),
    }
}

#[test]
fn hour_is_kept_where_it_fits() {
    assert_eq!(create_hour_from_value(Some(2359)), Some(2359));
    assert_eq!(create_hour_from_value(Some(40000)), None);
    assert_eq!(create_hour_from_value(None), None);
}
