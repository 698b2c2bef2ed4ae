use hrdf_parser::parsing::direction_parser::{
    remove_first_char, row_converter, row_from_parsed_values, DirectionParser,
};
use hrdf_parser::parsing::file_parser::FileParser;
use hrdf_parser::parsing::ParseError;

#[test]
fn direction_parser_row_parser_v207() {
    let rows = vec![
        "R000008 Winterthur".to_string(),
        "R000192 Saas-Fee, Parkhaus".to_string(),
        "R002609 Hégenheim - Collège des Trois Pays".to_string(),
    ];
    let direction_parser = DirectionParser::new();
    let parser = FileParser::from_rows(rows, direction_parser.row_parser());
    let mut parser_iterator = parser.parse();
    let (_, _, parsed_values) = parser_iterator.next().unwrap().unwrap();
    let (legacy_id, name) = row_from_parsed_values(&parsed_values).unwrap();
    assert_eq!("R000008", &legacy_id);
    assert_eq!("Winterthur", &name);
    let (_, _, parsed_values) = parser_iterator.next().unwrap().unwrap();
    let (legacy_id, name) = row_from_parsed_values(&parsed_values).unwrap();
    assert_eq!("R000192", &legacy_id);
    assert_eq!("Saas-Fee, Parkhaus", &name);
    let (_, _, parsed_values) = parser_iterator.next().unwrap().unwrap();
    let (legacy_id, name) = row_from_parsed_values(&parsed_values).unwrap();
    assert_eq!("R002609", &legacy_id);
    assert_eq!("Hégenheim - Collège des Trois Pays", &name);
}

#[test]
fn direction_parser_type_converter_v207() {
    let rows = vec![
        "R000008 Winterthur".to_string(),
        "R000192 Saas-Fee, Parkhaus".to_string(),
        "R002609 Hégenheim - Collège des Trois Pays".to_string(),
    ];
    let direction_parser = DirectionParser::new();
    let parser = FileParser::from_rows(rows, direction_parser.row_parser());
    let (data, pk_type_converter) = row_converter(parser).unwrap();
    assert_eq!(*pk_type_converter.get("R000008").unwrap(), 8);
    assert_eq!(*pk_type_converter.get("R000192").unwrap(), 192);
    assert_eq!(*pk_type_converter.get("R002609").unwrap(), 2609);
    let attribute = data.get(&8).unwrap();
    assert_eq!(attribute.id(), 8);
    assert_eq!(attribute.name(), "Winterthur");
    let attribute = data.get(&192).unwrap();
    assert_eq!(attribute.id(), 192);
    assert_eq!(attribute.name(), "Saas-Fee, Parkhaus");
    let attribute = data.get(&2609).unwrap();
    assert_eq!(attribute.id(), 2609);
    assert_eq!(attribute.name(), "Hégenheim - Collège des Trois Pays");
}

#[test]
fn direction_first_character_is_removed() {
    assert_eq!(remove_first_char("R000008"), "000008");
    assert_eq!(remove_first_char("é1"), "1");
    assert_eq!(remove_first_char(""), "");
}

#[test]
fn direction_key_without_number_fails() {
    let rows = vec!["RABCDEF Nowhere".to_string()];
    let direction_parser = DirectionParser::new();
    let parser = FileParser::from_rows(rows, direction_parser.row_parser());
    match row_converter(parser) {
        Err(ParseError::InvalidValue { column, text }) => {
            assert_eq!(column, 0);
            assert_eq!(text, "ABCDEF");
        }
        other => panic!("unexpected {:?}", other.map(|_| ())),
    }
}

#[test]
fn direction_later_row_replaces_earlier_one_with_the_same_key() {
    let rows = vec!["R000008 Winterthur".to_string(), "R000008 Basel".to_string()];
    let direction_parser = DirectionParser::new();
    let parser = FileParser::from_rows(rows, direction_parser.row_parser());
    let (data, ids) = row_converter(parser).unwrap();
    assert_eq!(data.len(), 1);
    assert_eq!(data.get(&8).unwrap().name(), "Basel");
    assert_eq!(ids.get("R000008"), Some(&8));
}
