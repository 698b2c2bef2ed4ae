use hrdf_parser::models::Language;
use hrdf_parser::parsing::attribute_parser::{
    row_a_from_parsed_values, row_c_from_parsed_values, row_converter, row_d_from_parsed_values,
    update_current_language, AttributeParser, ROW_A, ROW_B, ROW_C, ROW_D,
};
use hrdf_parser::parsing::file_parser::FileParser;
use hrdf_parser::parsing::ParseError;

#[test]
fn description_row_d_v206() {
    let rows = vec![
        "VR VELOS: Reservation obligatory".to_string(),
        "2  2nd class only".to_string(),
    ];
    let attribute_parser = AttributeParser::new();
    let parser = FileParser::from_rows(rows.clone(), attribute_parser.row_parser());
    let mut parser_iterator = parser.parse();

    let (id, _, parsed_values) = parser_iterator.next().unwrap().unwrap();
    assert_eq!(id, ROW_D);
    let (legacy_id, description) = row_d_from_parsed_values(&parsed_values).unwrap();
    assert_eq!("VR", &legacy_id);
    assert_eq!("VELOS: Reservation obligatory", &description);
    let (id, _, parsed_values) = parser_iterator.next().unwrap().unwrap();
    assert_eq!(id, ROW_D);
    let (legacy_id, description) = row_d_from_parsed_values(&parsed_values).unwrap();
    assert_eq!("2", &legacy_id);
    assert_eq!("2nd class only", &description);
}

#[test]
fn parser_row_d_v207() {
    let rows = vec![
        "VR  VELOS: Reservation obligatory".to_string(),
        "2   2nd class only".to_string(),
    ];
    let attribute_parser = AttributeParser::new();
    let parser = FileParser::from_rows(rows.clone(), attribute_parser.row_parser());
    let mut parser_iterator = parser.parse();
    let (id, _, parsed_values) = parser_iterator.next().unwrap().unwrap();
    assert_eq!(id, ROW_D);
    let (legacy_id, description) = row_d_from_parsed_values(&parsed_values).unwrap();
    assert_eq!("VR", &legacy_id);
    assert_eq!("VELOS: Reservation obligatory", &description);
    let (id, _, parsed_values) = parser_iterator.next().unwrap().unwrap();
    assert_eq!(id, ROW_D);
    let (legacy_id, description) = row_d_from_parsed_values(&parsed_values).unwrap();
    assert_eq!("2", &legacy_id);
    assert_eq!("2nd class only", &description);
}

#[test]
fn parser_row_a_v207() {
    let rows = vec!["1  0   1  5".to_string(), "GR 0   6  3".to_string()];
    let attribute_parser = AttributeParser::new();
    let parser = FileParser::from_rows(rows.clone(), attribute_parser.row_parser());
    let mut parser_iterator = parser.parse();
    let (id, _, parsed_values) = parser_iterator.next().unwrap().unwrap();
    assert_eq!(id, ROW_A);
    let (designation, stop_scope, main_sorting_priority, secondary_sorting_priority) =
        row_a_from_parsed_values(&parsed_values).unwrap();
    assert_eq!("1", &designation);
    assert_eq!(0, stop_scope);
    assert_eq!(1, main_sorting_priority);
    assert_eq!(5, secondary_sorting_priority);
    let (id, _, parsed_values) = parser_iterator.next().unwrap().unwrap();
    assert_eq!(id, ROW_A);
    let (designation, stop_scope, main_sorting_priority, secondary_sorting_priority) =
        row_a_from_parsed_values(&parsed_values).unwrap();
    assert_eq!("GR", &designation);
    assert_eq!(0, stop_scope);
    assert_eq!(6, main_sorting_priority);
    assert_eq!(3, secondary_sorting_priority);
}

#[test]
fn type_converter_row_a_v207() {
    let rows = vec![
        "GK 0   4  5".to_string(),
        "<deu>".to_string(),
        "GK  Zollkontrolle möglich, mehr Zeit einrechnen".to_string(),
        "<fra>".to_string(),
        "GK  Contrôle douanier possible, prévoir davantage de temps".to_string(),
        "<ita>".to_string(),
        "GK  Possibile controllo doganale, prevedere più tempo".to_string(),
        "<eng>".to_string(),
        "GK  Possible customs check, please allow extra time".to_string(),
    ];
    let attribute_parser = AttributeParser::new();
    let parser = FileParser::from_rows(rows.clone(), attribute_parser.row_parser());

    let (data, pk_type_converter) = row_converter(parser).unwrap();
    assert_eq!(*pk_type_converter.get("GK").unwrap(), 1);
    let attribute = data.get(&1).unwrap();
    assert_eq!(attribute.id(), 1);
    assert_eq!(attribute.designation(), "GK");
    assert_eq!(attribute.stop_scope(), 0);
    assert_eq!(attribute.main_sorting_priority(), 4);
    assert_eq!(attribute.secondary_sorting_priority(), 5);
    let description = attribute.description();
    assert_eq!(
        description.get(Language::German).as_deref(),
        Some("Zollkontrolle möglich, mehr Zeit einrechnen")
    );
    assert_eq!(
        description.get(Language::English).as_deref(),
        Some("Possible customs check, please allow extra time")
    );
    assert_eq!(
        description.get(Language::French).as_deref(),
        Some("Contrôle douanier possible, prévoir davantage de temps")
    );
    assert_eq!(
        description.get(Language::Italian).as_deref(),
        Some("Possibile controllo doganale, prevedere più tempo")
    );
}

#[test]
fn parser_row_b_v207() {
    let rows = vec!["# PG PG PG".to_string()];
    let attribute_parser = AttributeParser::new();
    let parser = FileParser::from_rows(rows.clone(), attribute_parser.row_parser());
    let mut parser_iterator = parser.parse();
    let (id, _, mut parsed_values) = parser_iterator.next().unwrap().unwrap();
    assert_eq!(id, ROW_B);
    let description: String = parsed_values.remove(0).into_string().unwrap();
    assert_eq!(&description, "# PG PG PG");
}

#[test]
fn parser_row_c_v207() {
    let rows = vec![
        "<ita>".to_string(),
        "<fra>".to_string(),
        "<deu>".to_string(),
        "<eng>".to_string(),
        "<text>".to_string(),
    ];
    let attribute_parser = AttributeParser::new();
    let parser = FileParser::from_rows(rows.clone(), attribute_parser.row_parser());
    let mut parser_iterator = parser.parse();
    let (id, _, parsed_values) = parser_iterator.next().unwrap().unwrap();
    assert_eq!(id, ROW_C);
    let lang = row_c_from_parsed_values(&parsed_values).unwrap();
    assert_eq!(&lang, "<ita>");
    let (id, _, parsed_values) = parser_iterator.next().unwrap().unwrap();
    assert_eq!(id, ROW_C);
    let mut current_language = Language::default();
    update_current_language(parsed_values, &mut current_language).unwrap();
    assert_eq!(current_language, Language::French);
    let (id, _, parsed_values) = parser_iterator.next().unwrap().unwrap();
    assert_eq!(id, ROW_C);
    update_current_language(parsed_values, &mut current_language).unwrap();
    assert_eq!(current_language, Language::German);
    let (id, _, parsed_values) = parser_iterator.next().unwrap().unwrap();
    assert_eq!(id, ROW_C);
    update_current_language(parsed_values, &mut current_language).unwrap();
    assert_eq!(current_language, Language::English);
    let (id, _, parsed_values) = parser_iterator.next().unwrap().unwrap();
    assert_eq!(id, ROW_C);
    update_current_language(parsed_values, &mut current_language).unwrap();
    assert_eq!(current_language, Language::English);
}

#[test]
fn attribute_description_of_unknown_code_fails() {
    let rows = vec!["GK 0   4  5".to_string(), "XX  unknown".to_string()];
    let attribute_parser = AttributeParser::new();
    let parser = FileParser::from_rows(rows, attribute_parser.row_parser());
    assert!(matches!(row_converter(parser), Err(ParseError::UnknownLegacyId)));
}

#[test]
fn attribute_unknown_language_fails() {
    let rows = vec!["<xyz>".to_string()];
    let attribute_parser = AttributeParser::new();
    let parser = FileParser::from_rows(rows, attribute_parser.row_parser());
    assert!(matches!(row_converter(parser), Err(ParseError::UnknownLanguage)));
}

#[test]
fn attribute_code_registered_twice_resolves_to_the_later_attribute() {
    let rows = vec!["GK 0   4  5".to_string(), "GK 1   2  3".to_string()];
    let attribute_parser = AttributeParser::new();
    let parser = FileParser::from_rows(rows, attribute_parser.row_parser());
    let (data, ids) = row_converter(parser).unwrap();
    assert_eq!(ids.get("GK"), Some(&2));
    assert_eq!(data.len(), 2);
    assert_eq!(data.get(&2).unwrap().stop_scope(), 1);
}

#[test]
fn attribute_file_is_decoded_from_bytes() {
    let content = "Y  0   5  5\r\n# Y  Y  Y\r\n<text>\r\n<deu>\r\nY  Zu Fuss\r\n<fra>\r\nY  A pied\r\n";
    let (data, ids) = hrdf_parser::parsing::attribute_parser::parse(content.as_bytes()).unwrap();
    let id = *ids.get("Y").unwrap();
    assert_eq!(id, 1);
    let attribute = data.get(&id).unwrap();
    assert_eq!(attribute.description().get(Language::German).as_deref(), Some("Zu Fuss"));
    assert_eq!(attribute.description().get(Language::French).as_deref(), Some("A pied"));
    assert_eq!(attribute.description().get(Language::Italian), &None);
}
