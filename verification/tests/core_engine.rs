use hrdf_parser::grammar::{Grammar, Step, Token};
use hrdf_parser::parsing::file_parser::FileParser;
use hrdf_parser::parsing::{
    ColumnDefinition, ExpectedType, ParseError, ParsedValue, RowDefinition, RowParser,
};
use hrdf_parser::utils::{AutoIncrement, IdentityResolver};

fn capture(token: Token) -> Step {
    Step { token, capture: true }
}

fn skip(token: Token) -> Step {
    Step { token, capture: false }
}

fn code_then_text() -> Grammar {
    Grammar::new(vec![capture(Token::Take(7)), skip(Token::Space1), capture(Token::Rest)])
}

fn comment_line() -> Grammar {
    Grammar::recognize(vec![skip(Token::Tag("#")), skip(Token::Rest)])
}

fn two_shapes() -> RowParser {
    RowParser::new(vec![
        RowDefinition::new(
            1,
            vec![ColumnDefinition::new(ExpectedType::String)],
            comment_line(),
        ),
        RowDefinition::new(
            2,
            vec![
                ColumnDefinition::new(ExpectedType::String),
                ColumnDefinition::new(ExpectedType::String),
            ],
            code_then_text(),
        ),
    ])
}

#[test]
fn grammar_splits_code_and_text() {
    let fields = code_then_text().parse("R000008 Winterthur").unwrap();
    assert_eq!(fields, vec!["R000008".to_string(), "Winterthur".to_string()]);
}

#[test]
fn grammar_rejects_short_line() {
    assert!(code_then_text().parse("R0008").is_none());
}

#[test]
fn grammar_counts_characters_not_bytes() {
    let fields = code_then_text().parse("Hégenhe Collège").unwrap();
    assert_eq!(fields, vec!["Hégenhe".to_string(), "Collège".to_string()]);
}

#[test]
fn first_accepting_definition_wins() {
    let parser = two_shapes();
    let (id, _, values) = parser.parse("# PG PG PG and more").unwrap();
    assert_eq!(id, 1);
    assert_eq!(values, vec![ParsedValue::String("# PG PG PG and more".to_string())]);
    let (id, _, values) = parser.parse("R000008 Winterthur").unwrap();
    assert_eq!(id, 2);
    assert_eq!(
        values,
        vec![
            ParsedValue::String("R000008".to_string()),
            ParsedValue::String("Winterthur".to_string())
        ]
    );
}

#[test]
fn bytes_consumed_counts_utf8_bytes_and_terminator() {
    let parser = two_shapes();
    let line = "R002609 Hégenheim - Collège des Trois Pays";
    let (_, bytes, _) = parser.parse(line).unwrap();
    assert_eq!(bytes, line.len() as u64 + 2);
    assert_eq!(bytes, 46);
}

#[test]
fn unclassified_line_carries_the_line() {
    let parser = two_shapes();
    match parser.parse("short") {
        Err(ParseError::RowTypeNotFound { row }) => assert_eq!(row, "short"),
        other => panic!("unexpected {:?}", other),
    }
}

#[test]
fn invalid_integer_names_column_and_text() {
    let parser = RowParser::new(vec![RowDefinition::new(
        0,
        vec![
            ColumnDefinition::new(ExpectedType::Integer32),
            ColumnDefinition::new(ExpectedType::Integer16),
        ],
        code_then_text(),
    )]);
    match parser.parse("0000012 12x") {
        Err(ParseError::InvalidValue { column, text }) => {
            assert_eq!(column, 1);
            assert_eq!(text, "12x");
        }
        other => panic!("unexpected {:?}", other),
    }
    let (_, _, values) = parser.parse("0000012  -7 ").unwrap();
    assert_eq!(values, vec![ParsedValue::Integer32(12), ParsedValue::Integer16(-7)]);
    assert!(matches!(
        parser.parse("0000012 40000"),
        Err(ParseError::InvalidValue { column: 1, .. })
    ));
    let digits = RowParser::new(vec![RowDefinition::new(
        0,
        vec![ColumnDefinition::new(ExpectedType::Integer32)],
        Grammar::new(vec![capture(Token::Digit1)]),
    )]);
    assert!(matches!(
        digits.parse("99999999999999999999999"),
        Err(ParseError::InvalidValue { column: 0, .. })
    ));
    assert!(matches!(digits.parse("2147483648"), Err(ParseError::InvalidValue { .. })));
    assert_eq!(digits.parse("2147483647").unwrap().2, vec![ParsedValue::Integer32(2147483647)]);
    assert_eq!(digits.parse("0000000000000000000012").unwrap().2, vec![ParsedValue::Integer32(12)]);
}

#[test]
fn column_count_mismatch_is_an_error() {
    let parser = RowParser::new(vec![RowDefinition::new(
        0,
        vec![ColumnDefinition::new(ExpectedType::String)],
        code_then_text(),
    )]);
    assert!(matches!(
        parser.parse("R000008 Winterthur"),
        Err(ParseError::ColumnCountMismatch { expected: 1, found: 2 })
    ));
}

#[test]
fn optional_integer_never_fails() {
    let parser = RowParser::new(vec![RowDefinition::new(
        0,
        vec![
            ColumnDefinition::new(ExpectedType::OptionInteger32),
            ColumnDefinition::new(ExpectedType::String),
        ],
        code_then_text(),
    )]);
    let (_, _, values) = parser.parse("@@@@@@@ text").unwrap();
    assert_eq!(
        values,
        vec![ParsedValue::OptionInteger32(None), ParsedValue::String("text".to_string())]
    );
    let (_, _, values) = parser.parse("0008500 text").unwrap();
    assert_eq!(values[0], ParsedValue::OptionInteger32(Some(8500)));
}

#[test]
fn float_column_keeps_checked_text() {
    let parser = RowParser::new(vec![RowDefinition::new(
        0,
        vec![
            ColumnDefinition::new(ExpectedType::Integer32),
            ColumnDefinition::new(ExpectedType::Float),
        ],
        code_then_text(),
    )]);
    for text in ["2600000.5", "-1.5e3", "7.", ".5", "+inf", "NaN", "1E-2", "46.948"] {
        let (_, _, mut values) = parser.parse(&format!("0000001 {}", text)).unwrap();
        let kept = values.remove(1).into_float_text().unwrap();
        assert_eq!(kept, text);
        assert!(kept.parse::<f64>().is_ok());
    }
    for text in ["1.2.3", "e5", ".", "1e", "abc", "1 2", "0x10", "-"] {
        let result = parser.parse(&format!("0000001 {}", text));
        assert!(matches!(result, Err(ParseError::InvalidValue { column: 1, .. })), "{}", text);
        assert!(text.parse::<f64>().is_err());
    }
}

#[test]
fn accessor_of_the_wrong_variant_is_reported() {
    assert!(matches!(
        ParsedValue::Integer32(4).into_string(),
        Err(ParseError::VariantMismatch)
    ));
    assert!(matches!(
        ParsedValue::String("a".to_string()).into_i32(),
        Err(ParseError::VariantMismatch)
    ));
    assert_eq!(ParsedValue::Integer16(4).into_i16().unwrap(), 4);
    assert_eq!(ParsedValue::OptionInteger32(None).into_option_i32().unwrap(), None);
    assert_eq!(ParsedValue::OptionInteger16(Some(3)).into_option_i16().unwrap(), Some(3));
}

#[test]
fn stream_skips_blank_lines() {
    let parser = two_shapes();
    let rows = vec![
        "".to_string(),
        "R000008 Winterthur".to_string(),
        "   ".to_string(),
        "# note".to_string(),
    ];
    let file = FileParser::from_rows(rows, &parser);
    let mut stream = file.parse();
    assert_eq!(stream.next().unwrap().unwrap().0, 2);
    assert_eq!(stream.next().unwrap().unwrap().0, 1);
    assert!(stream.next().is_none());
    assert!(stream.next().is_none());
}

#[test]
fn lines_are_split_like_text_lines() {
    let parser = two_shapes();
    let content = "R000008 Winterthur\r\nR000192 Saas-Fee, Parkhaus\n\r\nR002609 Hégenheim";
    let file = FileParser::new(content.as_bytes(), &parser).unwrap();
    let mut stream = file.parse();
    let mut names = Vec::new();
    while let Some(record) = stream.next() {
        let (_, _, mut values) = record.unwrap();
        names.push(values.remove(1).into_string().unwrap());
    }
    assert_eq!(names, vec!["Winterthur", "Saas-Fee, Parkhaus", "Hégenheim"]);
}

#[test]
fn invalid_encoding_is_refused() {
    let parser = two_shapes();
    let content: Vec<u8> = vec![b'R', 0xFF, b'\n'];
    assert!(matches!(FileParser::new(&content, &parser), Err(ParseError::InvalidEncoding)));
}

#[test]
fn resuming_at_the_consumed_offset_continues_with_the_next_record() {
    let parser = two_shapes();
    let content = "R000008 Winterthur\r\nR002609 Hégenheim\r\n# later\r\nR000192 Saas-Fee\r\n";
    let fresh = FileParser::new(content.as_bytes(), &parser).unwrap();
    let mut stream = fresh.parse();
    let mut offset = 0;
    for _ in 0..2 {
        let (_, bytes, _) = stream.next().unwrap().unwrap();
        offset += bytes;
    }
    let third = stream.next().unwrap().unwrap();
    let resumed = FileParser::new_with_bytes_offset(content.as_bytes(), &parser, offset).unwrap();
    let mut resumed_stream = resumed.parse();
    assert_eq!(resumed_stream.next().unwrap().unwrap(), third);
    assert_eq!(resumed_stream.next().unwrap().unwrap(), stream.next().unwrap().unwrap());
    assert!(resumed_stream.next().is_none());
    let beyond = FileParser::new_with_bytes_offset(content.as_bytes(), &parser, 10_000).unwrap();
    assert!(beyond.parse().next().is_none());
}

#[test]
fn identifiers_count_up_from_one() {
    let mut counter = AutoIncrement::new();
    assert_eq!(counter.next(), 1);
    assert_eq!(counter.next(), 2);
    assert!(counter.has_next());
    let mut resolver = IdentityResolver::new();
    let mut ids = Vec::new();
    for n in 0..5 {
        resolver.register(format!("key{}", n), 100 + n);
        ids.push(resolver.next());
    }
    assert_eq!(ids, vec![1, 2, 3, 4, 5]);
}

#[test]
fn last_registration_of_a_key_wins() {
    let mut resolver = IdentityResolver::new();
    assert_eq!(resolver.register("VR".to_string(), 1), None);
    assert_eq!(resolver.register("VR".to_string(), 2), Some(1));
    assert_eq!(resolver.resolve("VR"), Some(2));
    assert_eq!(resolver.resolve("XX"), None);
    let table = resolver.into_table();
    assert_eq!(table.get("VR"), Some(&2));
}
