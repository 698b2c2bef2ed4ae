use hrdf_parser::parsing::exchange_administration_parser::{
    row_from_parsed_values, ExchangeTimeAdministrationParser,
};
use hrdf_parser::parsing::file_parser::FileParser;

#[test]
fn exchange_administration_parser_row_parser_v207() {
    let rows = vec![
        "1111135 sbg034 sbg034 01 Waldshut, Busbahnhof".to_string(),
        "8501008 085000 000011 10 Genève".to_string(),
        "@@@@@@@ 000793 000873 02".to_string(),
        "8101236 81____ 007000 02 Feldkirch".to_string(),
    ];
    let exchange_time_administration_parser = ExchangeTimeAdministrationParser::new();
    let parser = FileParser::from_rows(rows, exchange_time_administration_parser.row_parser());
    let mut parser_iterator = parser.parse();
    // First row
    let (_, _, parsed_values) = parser_iterator.next().unwrap().unwrap();
    let (stop_id, administration_1, administration_2, duration) =
        row_from_parsed_values(&parsed_values).unwrap();
    assert_eq!(Some(1111135), stop_id);
    assert_eq!("sbg034", &administration_1);
    assert_eq!("sbg034", &administration_2);
    assert_eq!(1, duration);
    // second row
    let (_, _, parsed_values) = parser_iterator.next().unwrap().unwrap();
    let (stop_id, administration_1, administration_2, duration) =
        row_from_parsed_values(&parsed_values).unwrap();
    assert_eq!(Some(8501008), stop_id);
    assert_eq!("085000", &administration_1);
    assert_eq!("000011", &administration_2);
    assert_eq!(10, duration);
    // third row
    let (_, _, parsed_values) = parser_iterator.next().unwrap().unwrap();
    let (stop_id, administration_1, administration_2, duration) =
        row_from_parsed_values(&parsed_values).unwrap();
    assert_eq!(None, stop_id);
    assert_eq!("000793", &administration_1);
    assert_eq!("000873", &administration_2);
    assert_eq!(2, duration);
    // Third row
    let (_, _, parsed_values) = parser_iterator.next().unwrap().unwrap();
    let (stop_id, administration_1, administration_2, duration) =
        row_from_parsed_values(&parsed_values).unwrap();
    assert_eq!(Some(8101236), stop_id);
    assert_eq!("81____", &administration_1);
    assert_eq!("007000", &administration_2);
    assert_eq!(2, duration);
}

#[test]
fn exchange_administration_parser_type_converter_v207() {
    let rows = vec![
        "1111135 sbg034 sbg034 01 Waldshut, Busbahnhof".to_string(),
        "8501008 085000 000011 10 Genève".to_string(),
        "@@@@@@@ 000793 000873 02".to_string(),
        "8101236 81____ 007000 02 Feldkirch".to_string(),
    ];
    let exchange_time_administration_parser = ExchangeTimeAdministrationParser::new();
    let parser = FileParser::from_rows(rows, exchange_time_administration_parser.row_parser());
    let data = exchange_time_administration_parser.row_converter(parser).unwrap();
    // First row
    let attribute = data.get(&1).unwrap();
    assert_eq!(attribute.id(), 1);
    assert_eq!(attribute.stop_id(), Some(1111135));
    assert_eq!(attribute.administration_1(), "sbg034");
    assert_eq!(attribute.administration_2(), "sbg034");
    assert_eq!(attribute.duration(), 1);
    // Second row
    let attribute = data.get(&2).unwrap();
    assert_eq!(attribute.id(), 2);
    assert_eq!(attribute.stop_id(), Some(8501008));
    assert_eq!(attribute.administration_1(), "085000");
    assert_eq!(attribute.administration_2(), "000011");
    assert_eq!(attribute.duration(), 10);
    // Third row
    let attribute = data.get(&3).unwrap();
    assert_eq!(attribute.id(), 3);
    assert_eq!(attribute.stop_id(), None);
    assert_eq!(attribute.administration_1(), "000793");
    assert_eq!(attribute.administration_2(), "000873");
    assert_eq!(attribute.duration(), 2);
    // Fourth row
    let attribute = data.get(&4).unwrap();
    assert_eq!(attribute.id(), 4);
    assert_eq!(attribute.stop_id(), Some(8101236));
    assert_eq!(attribute.administration_1(), "81____");
    assert_eq!(attribute.administration_2(), "007000");
    assert_eq!(attribute.duration(), 2);
}

#[test]
fn exchange_administration_file_is_decoded_from_bytes() {
    let content = "8101236 007000 085000 02 Feldkirch\r\n\r\n8500065 000037 000037 00 Ettingen, Dorf\r\n";
    let data =
        hrdf_parser::parsing::exchange_administration_parser::parse(content.as_bytes()).unwrap();
    assert_eq!(data.len(), 2);
    assert_eq!(data.get(&2).unwrap().stop_id(), Some(8500065));
    assert_eq!(data.get(&2).unwrap().duration(), 0);
}
