use hrdf_parser::models::{Color, Date, Language};
use hrdf_parser::parsing::file_parser::FileParser;
use hrdf_parser::parsing::timetable_metadata_parser::{create_entries, create_entries_from_texts};
use hrdf_parser::parsing::transport_company_parser::{
    designations_from_parts, parse_administrations, parse_designations,
};
use hrdf_parser::parsing::{
    line_parser, stop_connection_parser, through_service_parser, timetable_metadata_parser,
    transport_company_parser, transport_type_parser, ParseError,
};
use hrdf_parser::utils::AutoIncrement;
use rustc_hash::{FxHashMap, FxHashSet};

#[test]
fn line_rows_are_applied_to_the_line_under_the_number_of_their_kind() {
    let content = "0000002K Two\r\nN T S2\r\nF 255 000 010\r\nB 001 002 003\r\nL T Long two\r\n";
    let data = line_parser::parse(content.as_bytes()).unwrap();
    assert_eq!(data.len(), 1);
    let line = data.get(&2).unwrap();
    assert_eq!(line.id(), 2);
    assert_eq!(line.name(), "Two");
    assert_eq!(line.short_name(), "S2");
    assert_eq!(line.long_name(), "");
    assert_eq!(line.text_color(), Color { r: 0, g: 0, b: 0 });
    let content = "0000003K Three\r\nN T S3\r\nB 001 002 003\r\nF 255 000 010\r\n";
    let data = line_parser::parse(content.as_bytes()).unwrap();
    let line = data.get(&3).unwrap();
    assert_eq!(line.short_name(), "");
    assert_eq!(line.text_color(), Color { r: 255, g: 0, b: 10 });
    assert_eq!(line.background_color(), Color::black());
    let content = "0000004K Four\r\nB 001 002 003\r\n";
    let data = line_parser::parse(content.as_bytes()).unwrap();
    assert_eq!(data.get(&4).unwrap().background_color(), Color::new(1, 2, 3));
    let content = "0000005K Five\r\nL T Long five\r\n";
    let data = line_parser::parse(content.as_bytes()).unwrap();
    assert_eq!(data.get(&5).unwrap().long_name(), "Long five");
}

#[test]
fn line_row_of_the_first_kind_is_not_expected_for_a_line_that_is_there() {
    let content = "0000001K One\r\n0000007K Seven\r\n";
    assert!(matches!(line_parser::parse(content.as_bytes()), Err(ParseError::UnexpectedRow)));
}

#[test]
fn stop_connections_get_the_attributes_that_follow_them() {
    let mut attributes = FxHashMap::default();
    attributes.insert("Y".to_string(), 7);
    attributes.insert("YB".to_string(), 9);
    let content = "8500010 8578143 009\r\n# Y \r\n8500010: 8500090\r\n8500090 8500010 004\r\n# YB\r\n";
    let data = stop_connection_parser::parse(content.as_bytes(), &attributes).unwrap();
    assert_eq!(data.len(), 2);
    let first = data.get(&1).unwrap();
    assert_eq!(first.stop_id_1(), 8500010);
    assert_eq!(first.stop_id_2(), 8578143);
    assert_eq!(first.duration(), 9);
    assert_eq!(first.attribute(), 7);
    assert_eq!(data.get(&2).unwrap().attribute(), 9);
    assert!(matches!(
        stop_connection_parser::parse("# Y \r\n".as_bytes(), &attributes),
        Err(ParseError::MissingParentRow)
    ));
    assert!(matches!(
        stop_connection_parser::parse("8500010 8578143 009\r\n# ZZ\r\n".as_bytes(), &attributes),
        Err(ParseError::UnknownLegacyId)
    ));
}

#[test]
fn through_services_need_known_journeys() {
    let mut journeys = FxHashSet::default();
    journeys.insert((1, "000871".to_string()));
    journeys.insert((24064, "000871".to_string()));
    let content = "000001 000871 8576671 024064 000871 000001 8576671\r\n";
    let data = through_service_parser::parse(content.as_bytes(), &journeys).unwrap();
    let through_service = data.get(&1).unwrap();
    assert_eq!(through_service.journey_1_id(), &(1, "000871".to_string()));
    assert_eq!(through_service.journey_1_stop_id(), 8576671);
    assert_eq!(through_service.journey_2_id(), &(24064, "000871".to_string()));
    assert_eq!(through_service.journey_2_stop_id(), 8576671);
    assert_eq!(through_service.bit_field_id(), 1);
    journeys.remove(&(24064, "000871".to_string()));
    assert!(matches!(
        through_service_parser::parse(content.as_bytes(), &journeys),
        Err(ParseError::UnknownLegacyId)
    ));
}

#[test]
fn key_data_become_six_entries() {
    let content = "10.12.2023\r\n14.12.2024\r\nFahrplan 2024$10.12.2023 22:11:48$5.40.41$INFO+\r\n";
    let data = timetable_metadata_parser::parse(content.as_bytes()).unwrap();
    assert_eq!(data.len(), 6);
    let expected = [
        (1, "start_date", "2023-12-10"),
        (2, "end_date", "2024-12-14"),
        (3, "name", "Fahrplan 2024"),
        (4, "created_at", "10.12.2023 22:11:48"),
        (5, "version", "5.40.41"),
        (6, "provider", "INFO+"),
    ];
    for (id, key, value) in expected {
        let entry = data.get(&id).unwrap();
        assert_eq!(entry.id(), id);
        assert_eq!(entry.key(), key);
        assert_eq!(entry.value(), value);
    }
}

#[test]
fn key_data_need_two_days_and_four_parts() {
    let content = "10.12.2023\r\n14.12.2024\r\nFahrplan 2024$10.12.2023\r\n";
    assert!(matches!(
        timetable_metadata_parser::parse(content.as_bytes()),
        Err(ParseError::MissingPart)
    ));
    let content = "10.12.2023\r\n32.12.2024\r\na$b$c$d\r\n";
    assert!(matches!(
        timetable_metadata_parser::parse(content.as_bytes()),
        Err(ParseError::InvalidDate)
    ));
    let content = "10.12.2023\r\n";
    assert!(matches!(
        timetable_metadata_parser::parse(content.as_bytes()),
        Err(ParseError::MissingValue)
    ));
    let mut counter = AutoIncrement::new();
    assert!(matches!(
        create_entries(None, Some(Date { year: 2024, month: 1, day: 1 }), "a$b$c$d".to_string(), &mut counter),
        Err(ParseError::InvalidDate)
    ));
    assert!(matches!(
        create_entries(
            Some(Date { year: 2024, month: 2, day: 30 }),
            Some(Date { year: 2024, month: 1, day: 1 }),
            "a$b$c$d".to_string(),
            &mut counter
        ),
        Err(ParseError::InvalidDate)
    ));
    let entries = create_entries_from_texts(
        Some("first".to_string()),
        Some("last".to_string()),
        "a$b$c$d$e".to_string(),
        &mut counter,
    )
    .unwrap();
    assert_eq!(entries.len(), 6);
    assert_eq!(entries[0].value(), "first");
    assert_eq!(entries[5].value(), "d");
    assert_eq!(entries[5].id(), 6);
}

#[test]
fn transport_company_names_are_cut_at_their_letters() {
    let (short_name, long_name, full_name) = parse_designations(
        "\"SBB\" L \"SBB\" V \"Schweizerische Bundesbahnen SBB\"".to_string(),
    )
    .unwrap();
    assert_eq!(short_name, "SBB");
    assert_eq!(long_name, "SBB");
    assert_eq!(full_name, "Schweizerische Bundesbahnen SBB");
    assert!(matches!(
        parse_designations("\"SBB\" L \"SBB\"".to_string()),
        Err(ParseError::MissingPart)
    ));
    assert!(matches!(designations_from_parts(None), Err(ParseError::InvalidPattern)));
    let picked = designations_from_parts(Some(vec![
        "\"a\"".to_string(),
        "b\"\"".to_string(),
        "c".to_string(),
        "d".to_string(),
    ]))
    .unwrap();
    assert_eq!(picked, ("a".to_string(), "b".to_string(), "c".to_string()));
}

#[test]
fn transport_company_administrations_are_the_words() {
    assert_eq!(
        parse_administrations(" 000011  000065\t000099 ".to_string()),
        vec!["000011".to_string(), "000065".to_string(), "000099".to_string()]
    );
    assert!(parse_administrations("   ".to_string()).is_empty());
}

#[test]
fn transport_companies_are_decoded_from_four_files() {
    let german = "0379 K \"SBB\" L \"SBB\" V \"Schweizerische Bundesbahnen SBB\"\r\n0379 : 000011 000065\r\n";
    let french = "0379 K \"CFF\" L \"CFF\" V \"Chemins de fer fédéraux suisses CFF\"\r\n0379 : 000011\r\n";
    let data = transport_company_parser::parse(
        german.as_bytes(),
        "".as_bytes(),
        french.as_bytes(),
        "".as_bytes(),
    )
    .unwrap();
    let company = data.get(&379).unwrap();
    assert_eq!(company.id(), 379);
    assert_eq!(company.administrations(), &vec!["000011".to_string(), "000065".to_string()]);
    assert_eq!(company.short_name().get(Language::German).as_deref(), Some("SBB"));
    assert_eq!(company.short_name().get(Language::French).as_deref(), Some("CFF"));
    assert_eq!(
        company.full_name().get(Language::French).as_deref(),
        Some("Chemins de fer fédéraux suisses CFF")
    );
    assert_eq!(company.long_name().get(Language::English), &None);
    let unknown = "0999 K \"X\" L \"X\" V \"X\"\r\n";
    assert!(matches!(
        transport_company_parser::parse(
            german.as_bytes(),
            unknown.as_bytes(),
            "".as_bytes(),
            "".as_bytes()
        ),
        Err(ParseError::UnknownId)
    ));
}

#[test]
fn transport_company_row_with_a_business_identifier_has_no_number() {
    let company_parser = transport_company_parser::TransportCompanyParser::new();
    let (id, _, values) =
        company_parser.row_parser().parse("00379N ch:1:sboid:100001").unwrap();
    assert_eq!(id, transport_company_parser::ROW_B);
    assert_eq!(values.len(), 1);
    let rows = vec!["00379N ch:1:sboid:100001".to_string()];
    let parser = FileParser::from_rows(rows, company_parser.row_parser());
    let mut stream = parser.parse();
    let (_, _, values) = stream.next().unwrap().unwrap();
    assert!(matches!(company_parser.create_instance(values), Err(ParseError::VariantMismatch)));
}

fn transport_type_row(designation: &str, class: &str, short_name: &str) -> String {
    format!("{:<3} {:0>2} A 0 {:<8} 0 B", designation, class, short_name)
}

#[test]
fn transport_types_get_names_by_class_and_category() {
    let content = [
        transport_type_row("IC", "1", "IC"),
        transport_type_row("IR", "2", "IR"),
        transport_type_row("ICE", "1", "ICE"),
        "<text>".to_string(),
        "<Deutsch>".to_string(),
        "class01 Fernverkehr".to_string(),
        "option10 something".to_string(),
        "category001 Hochgeschwindigkeit".to_string(),
        "<Franzoesisch>".to_string(),
        "class02 Interrégional".to_string(),
        "*I nm0000000 000000001".to_string(),
    ]
    .join("\r\n");
    let (data, ids) = transport_type_parser::parse(content.as_bytes()).unwrap();
    assert_eq!(ids.get("IC"), Some(&1));
    assert_eq!(ids.get("IR"), Some(&2));
    assert_eq!(ids.get("ICE"), Some(&3));
    let ic = data.get(&1).unwrap();
    assert_eq!(ic.designation(), "IC");
    assert_eq!(ic.product_class_id(), 1);
    assert_eq!(ic.tarrif_group(), "A");
    assert_eq!(ic.output_control(), 0);
    assert_eq!(ic.short_name(), "IC");
    assert_eq!(ic.surchage(), 0);
    assert_eq!(ic.flag(), "B");
    assert_eq!(ic.product_class_name().get(Language::German).as_deref(), Some("Fernverkehr"));
    assert_eq!(ic.category_name().get(Language::German), &None);
    let ir = data.get(&2).unwrap();
    assert_eq!(ir.product_class_name().get(Language::German), &None);
    assert_eq!(ir.product_class_name().get(Language::French).as_deref(), Some("Interrégional"));
    let ice = data.get(&3).unwrap();
    assert_eq!(ice.product_class_name().get(Language::German).as_deref(), Some("Fernverkehr"));
    assert_eq!(
        ice.category_name().get(Language::German).as_deref(),
        Some("Hochgeschwindigkeit")
    );
}

#[test]
fn transport_type_names_need_a_kind_and_a_known_language() {
    assert!(matches!(
        transport_type_parser::parse("<Deutsch>\r\n".as_bytes()),
        Err(ParseError::MissingParentRow)
    ));
    let content = [transport_type_row("IC", "1", "IC"), "<Spanisch>".to_string()].join("\r\n");
    assert!(matches!(
        transport_type_parser::parse(content.as_bytes()),
        Err(ParseError::UnknownLanguage)
    ));
    let content = [transport_type_row("IC", "1", "IC"), "<".to_string()].join("\r\n");
    assert!(matches!(
        transport_type_parser::parse(content.as_bytes()),
        Err(ParseError::UnknownLanguage)
    ));
}
