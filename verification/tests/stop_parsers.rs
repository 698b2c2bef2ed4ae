use hrdf_parser::models::{CoordinateType, Stop, Version};
use hrdf_parser::parsing::file_parser::FileParser;
use hrdf_parser::parsing::stop_parser::{parse_designations, row_converter, StopFiles, StopParser};
use hrdf_parser::parsing::{
    coordinate_parser, description_parser, exchange_priority_parser, exchange_time_parser,
    stop_parser, ParseError,
};
use rustc_hash::FxHashMap;

fn stops() -> FxHashMap<i32, Stop> {
    let rows = vec![
        "8500010     Basel SBB$<1>$BS$<3>$Bâle$<4>$Basilea$<4>".to_string(),
        "8507000     Bern$<1>$Bern Hauptbahnhof$<2>".to_string(),
    ];
    let stop_parser = StopParser::new();
    let parser = FileParser::from_rows(rows, stop_parser.row_parser());
    row_converter(parser).unwrap()
}

#[test]
fn stop_designations_are_read_by_kind() {
    let data = stops();
    let basel = data.get(&8500010).unwrap();
    assert_eq!(basel.id(), 8500010);
    assert_eq!(basel.name(), "Basel SBB");
    assert_eq!(basel.long_name(), &None);
    assert_eq!(basel.abbreviation().as_deref(), Some("BS"));
    assert_eq!(basel.synonyms(), &Some(vec!["Bâle".to_string(), "Basilea".to_string()]));
    let bern = data.get(&8507000).unwrap();
    assert_eq!(bern.name(), "Bern");
    assert_eq!(bern.long_name().as_deref(), Some("Bern Hauptbahnhof"));
    assert_eq!(bern.synonyms(), &None);
    assert!(bern.lv95_coordinate().is_none());
    assert_eq!(bern.exchange_time(), None);
}

#[test]
fn stop_designations_need_a_name_and_numbered_kinds() {
    assert!(matches!(parse_designations("BS$<3>".to_string()), Err(ParseError::MissingPart)));
    assert!(matches!(parse_designations("Basel".to_string()), Err(ParseError::MissingPart)));
    assert!(matches!(
        parse_designations("Basel$<x>".to_string()),
        Err(ParseError::InvalidValue { column: 1, .. })
    ));
    let (name, long_name, abbreviation, synonyms) =
        parse_designations("One$<1>$Two$<1>$Other$<9>".to_string()).unwrap();
    assert_eq!(name, "One");
    assert_eq!((long_name, abbreviation, synonyms), (None, None, None));
}

#[test]
fn stop_coordinates_keep_grid_order_and_swap_globe_order() {
    let line = "8500010 2611363.000 1266310.000 0000277\r\n";
    let mut data = stops();
    coordinate_parser::parse(
        Version::V_5_40_41_2_0_7,
        line.as_bytes(),
        CoordinateType::LV95,
        &mut data,
    )
    .unwrap();
    coordinate_parser::parse(
        Version::V_5_40_41_2_0_7,
        line.as_bytes(),
        CoordinateType::WGS84,
        &mut data,
    )
    .unwrap();
    let basel = data.get(&8500010).unwrap();
    let grid = basel.lv95_coordinate().as_ref().unwrap();
    assert_eq!(grid.easting(), "2611363.000");
    assert_eq!(grid.northing(), "1266310.000");
    assert_eq!(grid.altitude(), 277);
    assert_eq!(grid.easting().parse::<f64>().unwrap(), 2611363.0);
    let globe = basel.wgs84_coordinate().as_ref().unwrap();
    assert_eq!(globe.latitude(), "1266310.000");
    assert_eq!(globe.longitude(), "2611363.000");
    assert!(data.get(&8507000).unwrap().wgs84_coordinate().is_none());
}

#[test]
fn stop_coordinates_of_the_first_release_are_narrower() {
    let line = "8500010 2611363.00 1266310.00 000277\r\n";
    let mut data = stops();
    coordinate_parser::parse(
        Version::V_5_40_41_2_0_4,
        line.as_bytes(),
        CoordinateType::LV95,
        &mut data,
    )
    .unwrap();
    let basel = data.get(&8500010).unwrap();
    assert_eq!(basel.lv95_coordinate().as_ref().unwrap().easting(), "2611363.00");
    assert!(matches!(
        coordinate_parser::parse(
            Version::V_5_40_41_2_0_7,
            line.as_bytes(),
            CoordinateType::LV95,
            &mut data,
        ),
        Err(ParseError::RowTypeNotFound { .. })
    ));
}

#[test]
fn stop_coordinates_of_a_stop_that_is_not_known_fail() {
    let line = "8599999 2611363.000 1266310.000 0000277\r\n";
    let mut data = stops();
    assert!(matches!(
        coordinate_parser::parse(
            Version::V_5_40_41_2_0_7,
            line.as_bytes(),
            CoordinateType::LV95,
            &mut data,
        ),
        Err(ParseError::UnknownId)
    ));
    let no_number = "8500010 2611363.00x 1266310.000 0000277\r\n";
    assert!(matches!(
        coordinate_parser::parse(
            Version::V_5_40_41_2_0_7,
            no_number.as_bytes(),
            CoordinateType::LV95,
            &mut data,
        ),
        Err(ParseError::InvalidValue { column: 1, .. })
    ));
}

#[test]
fn stop_exchange_priorities_and_times_are_set() {
    let mut data = stops();
    exchange_priority_parser::parse("8500010  4 Basel SBB\r\n".as_bytes(), &mut data).unwrap();
    assert_eq!(data.get(&8500010).unwrap().exchange_priority(), 4);
    assert_eq!(data.get(&8507000).unwrap().exchange_priority(), 8);
    assert!(matches!(
        exchange_priority_parser::parse("8599999  4 Nowhere\r\n".as_bytes(), &mut data),
        Err(ParseError::UnknownId)
    ));
    let times = "9999999 02 03 STANDARD\r\n8500010 05 06 Basel SBB\r\n";
    let default = exchange_time_parser::parse(times.as_bytes(), &mut data).unwrap();
    assert_eq!(default, (2, 3));
    assert_eq!(data.get(&8500010).unwrap().exchange_time(), Some((5, 6)));
    assert_eq!(data.get(&8507000).unwrap().exchange_time(), None);
    let none = exchange_time_parser::parse("8507000 01 01\r\n".as_bytes(), &mut data).unwrap();
    assert_eq!(none, (0, 0));
    assert!(matches!(
        exchange_time_parser::parse("8599999 01 01\r\n".as_bytes(), &mut data),
        Err(ParseError::UnknownId)
    ));
}

#[test]
fn stop_descriptions_are_set_and_unknown_stops_are_passed_over() {
    let mut data = stops();
    let content = "% a comment\r\n\
                   8500010 B 03\r\n\
                   8500010 G A ch:1:sloid:10\r\n\
                   8500010 G a ch:1:sloid:10:1:1\r\n\
                   8500010 G a ch:1:sloid:10:1:2\r\n\
                   8500010 L CH\r\n\
                   8500010 I KT 000000026\r\n\
                   8599999 B 03\r\n\
                   8599999 G A ch:1:sloid:99\r\n\
                   8599999 G a ch:1:sloid:99:1\r\n";
    description_parser::parse(Version::V_5_40_41_2_0_7, content.as_bytes(), &mut data).unwrap();
    let basel = data.get(&8500010).unwrap();
    assert_eq!(basel.restrictions(), 3);
    assert_eq!(basel.sloid(), "ch:1:sloid:10");
    assert_eq!(
        basel.boarding_areas(),
        &vec!["ch:1:sloid:10:1:1".to_string(), "ch:1:sloid:10:1:2".to_string()]
    );
    assert_eq!(data.len(), 2);
    assert_eq!(data.get(&8507000).unwrap().sloid(), "");
    assert_eq!(description_parser::DescriptionParser::new(Version::V_5_40_41_2_0_7).file(), "BHFART");
    assert_eq!(
        description_parser::DescriptionParser::new(Version::V_5_40_41_2_0_6).file(),
        "BHFART_60"
    );
}

#[test]
fn stop_files_are_decoded_together() {
    let files = StopFiles {
        stops: "8500010     Basel SBB$<1>\r\n".as_bytes().to_vec(),
        lv95: "8500010 2611363.000 1266310.000 0000277\r\n".as_bytes().to_vec(),
        wgs84: "8500010 7.589551000 47.54741200 0000277\r\n".as_bytes().to_vec(),
        priorities: "8500010  4 Basel SBB\r\n".as_bytes().to_vec(),
        exchange_times: "9999999 02 02 STANDARD\r\n".as_bytes().to_vec(),
        descriptions: "8500010 G A ch:1:sloid:10\r\n".as_bytes().to_vec(),
    };
    let (data, default_exchange_time) = stop_parser::parse(Version::V_5_40_41_2_0_7, &files).unwrap();
    assert_eq!(default_exchange_time, (2, 2));
    let basel = data.get(&8500010).unwrap();
    assert_eq!(basel.wgs84_coordinate().as_ref().unwrap().latitude(), "47.54741200");
    assert_eq!(basel.wgs84_coordinate().as_ref().unwrap().longitude(), "7.589551000");
    assert_eq!(basel.exchange_priority(), 4);
    assert_eq!(basel.sloid(), "ch:1:sloid:10");
}
