use hrdf_parser::models::Language;
use hrdf_parser::parsing::file_parser::FileParser;
use hrdf_parser::parsing::information_text_parser::{
    id_row_converter, infotext_row_converter, InformationTextParser,
};
use hrdf_parser::parsing::ParseError;

#[test]
fn id_row_parser_v207() {
    let rows = vec![
        "000001921 ch:1:sjyid:100001:3995-001".to_string(),
        "000003459 2518".to_string(),
    ];
    let information_text_parser = InformationTextParser::new();
    let parser = FileParser::from_rows(rows, information_text_parser.id_row_parser());
    let mut parser_iterator = parser.parse();
    let (_, _, mut parsed_values) = parser_iterator.next().unwrap().unwrap();
    let id: i32 = parsed_values.remove(0).into_i32().unwrap();
    assert_eq!(1921, id);
    let (_, _, mut parsed_values) = parser_iterator.next().unwrap().unwrap();
    let id: i32 = parsed_values.remove(0).into_i32().unwrap();
    assert_eq!(3459, id);
}

#[test]
fn id_type_converter_v207() {
    let rows = vec![
        "000001921 ch:1:sjyid:100001:3995-001".to_string(),
        "000003459 2518".to_string(),
    ];
    let information_text_parser = InformationTextParser::new();
    let parser = FileParser::from_rows(rows, information_text_parser.id_row_parser());
    let data = id_row_converter(parser).unwrap();
    // First row (id: 1)
    let attribute = data.get(&1921).unwrap();
    assert_eq!(attribute.id(), 1921);
    for language in information_text_parser.languages().iter() {
        assert_eq!(attribute.content().get(*language), &None);
    }
    // Second row (id: 2)
    let attribute = data.get(&3459).unwrap();
    assert_eq!(attribute.id(), 3459);
    for language in information_text_parser.languages().iter() {
        assert_eq!(attribute.content().get(*language), &None);
    }
}

#[test]
fn infotext_row_parser_v207() {
    let rows = vec![
        "000001921 ch:1:sjyid:100001:3995-001".to_string(),
        "000003459 2518".to_string(),
    ];
    let information_text_parser = InformationTextParser::new();
    let parser = FileParser::from_rows(rows, information_text_parser.infotext_row_parser());
    let mut parser_iterator = parser.parse();
    let (_, _, mut parsed_values) = parser_iterator.next().unwrap().unwrap();
    let id: i32 = parsed_values.remove(0).into_i32().unwrap();
    assert_eq!(1921, id);
    let content: String = parsed_values.remove(0).into_string().unwrap();
    assert_eq!("ch:1:sjyid:100001:3995-001", &content);
    let (_, _, mut parsed_values) = parser_iterator.next().unwrap().unwrap();
    let id: i32 = parsed_values.remove(0).into_i32().unwrap();
    assert_eq!(3459, id);
    let content: String = parsed_values.remove(0).into_string().unwrap();
    assert_eq!("2518", &content);
}

#[test]
fn infotext_type_converter_v207() {
    let rows = vec![
        "000001921 ch:1:sjyid:100001:3995-001".to_string(),
        "000003459 2518".to_string(),
    ];
    let information_text_parser = InformationTextParser::new();
    let parser = FileParser::from_rows(rows.clone(), information_text_parser.infotext_row_parser());
    let mut data = id_row_converter(parser).unwrap();

    for language in information_text_parser.languages().iter() {
        let parser =
            FileParser::from_rows(rows.clone(), information_text_parser.infotext_row_parser());
        infotext_row_converter(parser, &mut data, *language).unwrap();
    }

    // First row (id: 1)
    let attribute = data.get(&1921).unwrap();
    assert_eq!(attribute.id(), 1921);
    for language in [Language::French, Language::Italian, Language::German, Language::English] {
        assert_eq!(
            attribute.content().get(language).as_deref(),
            Some("ch:1:sjyid:100001:3995-001")
        );
    }
    // Second row (id: 2)
    let attribute = data.get(&3459).unwrap();
    assert_eq!(attribute.id(), 3459);
    for language in [Language::French, Language::Italian, Language::German, Language::English] {
        assert_eq!(attribute.content().get(language).as_deref(), Some("2518"));
    }
}

#[test]
fn information_texts_are_decoded_from_four_files() {
    let german = "000001921 Hinweis\r\n000003459 2518\r\n";
    let english = "000001921 Notice\r\n";
    let french = "000003459 2519\r\n";
    let italian = "";
    let data = hrdf_parser::parsing::information_text_parser::parse(
        german.as_bytes(),
        english.as_bytes(),
        french.as_bytes(),
        italian.as_bytes(),
    )
    .unwrap();
    let first = data.get(&1921).unwrap();
    assert_eq!(first.content().get(Language::German).as_deref(), Some("Hinweis"));
    assert_eq!(first.content().get(Language::English).as_deref(), Some("Notice"));
    assert_eq!(first.content().get(Language::French), &None);
    let second = data.get(&3459).unwrap();
    assert_eq!(second.content().get(Language::French).as_deref(), Some("2519"));
    let unknown = "000009999 Unknown\r\n";
    assert!(matches!(
        hrdf_parser::parsing::information_text_parser::parse(
            german.as_bytes(),
            unknown.as_bytes(),
            french.as_bytes(),
            italian.as_bytes(),
        ),
        Err(ParseError::UnknownId)
    ));
}
