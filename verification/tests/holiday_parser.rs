use hrdf_parser::models::{Date, Language};
use hrdf_parser::parsing::file_parser::FileParser;
use hrdf_parser::parsing::holiday_parser::{
    holiday_from, parse_name_translations, row_converter, HolidayParser,
};
use hrdf_parser::parsing::ParseError;
use hrdf_parser::utils::AutoIncrement;

#[test]
fn holiday_parser_row_parser_v207() {
    let rows = vec![
        "25.12.2024 Weihnachtstag<deu>Noël<fra>Natale<ita>Christmas Day<eng>".to_string(),
        "26.12.2024 Stephanstag<deu>Saint Etienne<fra>Santo Stefano<ita>Boxing Day<eng>"
            .to_string(),
    ];
    let holiday_parser = HolidayParser::new();
    let parser = FileParser::from_rows(rows, holiday_parser.row_parser());
    let mut parser_iterator = parser.parse();
    let (_, _, mut parsed_values) = parser_iterator.next().unwrap().unwrap();
    let date: String = parsed_values.remove(0).into_string().unwrap();
    assert_eq!("25.12.2024", &date);
    let name_translations: String = parsed_values.remove(0).into_string().unwrap();
    assert_eq!(
        "Weihnachtstag<deu>Noël<fra>Natale<ita>Christmas Day<eng>",
        &name_translations
    );
}

#[test]
fn holiday_parser_type_converter_v207() {
    let rows = vec![
        "25.12.2024 Weihnachtstag<deu>Noël<fra>Natale<ita>Christmas Day<eng>".to_string(),
        "26.12.2024 Stephanstag<deu>Saint Etienne<fra>Santo Stefano<ita>Boxing Day<eng>"
            .to_string(),
    ];
    let holiday_parser = HolidayParser::new();
    let parser = FileParser::from_rows(rows, holiday_parser.row_parser());
    let data = row_converter(parser).unwrap();
    // First row (id: 1)
    let attribute = data.get(&1).unwrap();
    assert_eq!(attribute.id(), 1);
    assert_eq!(attribute.date(), Date { year: 2024, month: 12, day: 25 });
    assert_eq!(attribute.name().get(Language::German).as_deref(), Some("Weihnachtstag"));
    assert_eq!(attribute.name().get(Language::English).as_deref(), Some("Christmas Day"));
    assert_eq!(attribute.name().get(Language::French).as_deref(), Some("Noël"));
    assert_eq!(attribute.name().get(Language::Italian).as_deref(), Some("Natale"));
    // Second row (id: 2)
    let attribute = data.get(&2).unwrap();
    assert_eq!(attribute.id(), 2);
    assert_eq!(attribute.date(), Date { year: 2024, month: 12, day: 26 });
    assert_eq!(attribute.name().get(Language::German).as_deref(), Some("Stephanstag"));
    assert_eq!(attribute.name().get(Language::English).as_deref(), Some("Boxing Day"));
    assert_eq!(attribute.name().get(Language::French).as_deref(), Some("Saint Etienne"));
    assert_eq!(attribute.name().get(Language::Italian).as_deref(), Some("Santo Stefano"));
}

#[test]
fn holiday_with_a_day_that_is_none_fails() {
    let rows = vec!["31.02.2024 Nie<deu>".to_string()];
    let holiday_parser = HolidayParser::new();
    let parser = FileParser::from_rows(rows, holiday_parser.row_parser());
    assert!(matches!(row_converter(parser), Err(ParseError::InvalidDate)));
    let rows = vec!["2024-12-25 Weihnachtstag<deu>".to_string()];
    let parser = FileParser::from_rows(rows, holiday_parser.row_parser());
    assert!(matches!(row_converter(parser), Err(ParseError::InvalidDate)));
}

#[test]
fn holiday_names_are_read_by_language() {
    let names = parse_name_translations("A<deu>B<eng>>C<deu>".to_string()).unwrap();
    assert_eq!(names.get(Language::German).as_deref(), Some("C"));
    assert_eq!(names.get(Language::English).as_deref(), Some("B"));
    assert_eq!(names.get(Language::French), &None);
    assert!(matches!(
        parse_name_translations("A<xyz>".to_string()),
        Err(ParseError::UnknownLanguage)
    ));
    assert!(matches!(
        parse_name_translations("A<deu>B".to_string()),
        Err(ParseError::MissingPart)
    ));
    let none = parse_name_translations("".to_string()).unwrap();
    assert_eq!(none.get(Language::German), &None);
}

#[test]
fn holiday_is_built_from_a_given_date() {
    let mut counter = AutoIncrement::new();
    counter.next();
    let holiday = holiday_from(
        Some(Date { year: 2025, month: 8, day: 1 }),
        "Bundesfeier<deu>".to_string(),
        &mut counter,
    )
    .unwrap();
    assert_eq!(holiday.id(), 2);
    assert_eq!(holiday.date(), Date { year: 2025, month: 8, day: 1 });
    assert!(matches!(
        holiday_from(None, "Bundesfeier<deu>".to_string(), &mut counter),
        Err(ParseError::InvalidDate)
    ));
}
