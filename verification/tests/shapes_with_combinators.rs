//! The shapes of row of every decoder, written a second time with parser
//! combinators, and held against the row parsers of the library on sample
//! lines and on many small changes of them.

use hrdf_parser::models::Version;
use hrdf_parser::parsing::{
    attribute_parser::AttributeParser, coordinate_parser::CoordinateParser,
    description_parser::DescriptionParser, direction_parser::DirectionParser,
    exchange_administration_parser::ExchangeTimeAdministrationParser,
    exchange_priority_parser::ExchangePriorityParser, exchange_time_parser::ExchangeTimeParser,
    holiday_parser::HolidayParser, information_text_parser::InformationTextParser,
    line_parser::LineParser, platform_parser::PlatformParser,
    stop_connection_parser::StopConnectionParser, stop_parser::StopParser,
    through_service_parser::ThroughServiceParser,
    timetable_metadata_parser::TimetableMetadataParser,
    transport_company_parser::TransportCompanyParser,
    transport_type_parser::TransportTypeParser, ExpectedType, ParsedValue, RowParser,
};
use nom::bytes::complete::{tag, take, take_till};
use nom::character::complete::{char, digit1, space1};
use nom::combinator::{opt, recognize, rest};
use nom::sequence::preceded;
use nom::{IResult, Parser};

type Fields<'a> = IResult<&'a str, Vec<&'a str>>;
type Shape = for<'a> fn(&'a str) -> Fields<'a>;

struct Definition {
    id: i32,
    kinds: Vec<ExpectedType>,
    shape: Shape,
}

fn definition(id: i32, kinds: &[ExpectedType], shape: Shape) -> Definition {
    Definition { id, kinds: kinds.to_vec(), shape }
}

fn classify(definitions: &[Definition], row: &str) -> Option<(i32, u64, Vec<ParsedValue>)> {
    for definition in definitions {
        if let Ok((_, fields)) = (definition.shape)(row) {
            let mut values = Vec::new();
            for (field, kind) in fields.iter().map(|x| x.trim()).zip(definition.kinds.iter()) {
                values.push(match kind {
                    ExpectedType::Float => {
                        field.parse::<f64>().ok()?;
                        ParsedValue::Float(field.to_string())
                    }
                    ExpectedType::Integer16 => ParsedValue::Integer16(field.parse().ok()?),
                    ExpectedType::Integer32 => ParsedValue::Integer32(field.parse().ok()?),
                    ExpectedType::String => ParsedValue::String(field.to_string()),
                    ExpectedType::OptionInteger32 => {
                        ParsedValue::OptionInteger32(field.parse().ok())
                    }
                });
            }
            return Some((definition.id, row.len() as u64 + 2, values));
        }
    }
    None
}

fn changes_of(line: &str) -> Vec<String> {
    let chars: Vec<char> = line.chars().collect();
    let others = [' ', '\t', '0', 'A', 'a', '#', '<', '.', ':', '\'', 'é', '@', '-'];
    let mut all = vec![line.to_string()];
    for i in 0..=chars.len() {
        all.push(chars[..i].iter().collect());
        all.push(chars[i..].iter().collect());
        for c in others {
            let mut inserted = chars.clone();
            inserted.insert(i, c);
            all.push(inserted.iter().collect());
            if i < chars.len() {
                let mut replaced = chars.clone();
                replaced[i] = c;
                all.push(replaced.iter().collect());
            }
        }
        if i < chars.len() {
            let mut removed = chars.clone();
            removed.remove(i);
            all.push(removed.iter().collect());
        }
    }
    all
}

fn hold_against(parser: &RowParser, definitions: &[Definition], samples: &[&str]) {
    for sample in samples {
        assert!(classify(definitions, sample).is_some(), "{:?}", sample);
        for row in changes_of(sample) {
            assert_eq!(parser.parse(&row).ok(), classify(definitions, &row), "{:?}", row);
        }
    }
}

use ExpectedType::{Float, Integer16, Integer32, OptionInteger32, String as Text};

fn attribute_1(input: &str) -> Fields<'_> {
    let mut parser = (
        take(2usize),
        preceded(space1, digit1),
        preceded(space1, digit1),
        preceded(space1, digit1),
    );
    let (input, data) = parser.parse(input)?;
    Ok((input, vec![data.0, data.1, data.2, data.3]))
}

fn starts_with_hash(input: &str) -> Fields<'_> {
    let mut parser = recognize((char('#'), rest));
    let (input, data) = parser.parse(input)?;
    Ok((input, vec![data]))
}

fn starts_with_angle(input: &str) -> Fields<'_> {
    let mut parser = recognize((char('<'), rest));
    let (input, data) = parser.parse(input)?;
    Ok((input, vec![data]))
}

fn attribute_4(input: &str) -> Fields<'_> {
    let mut parser = (take_till(|c| c == ' '), (space1, rest));
    let (input, data) = parser.parse(input)?;
    Ok((input, vec![data.0, data.1 .1]))
}

#[test]
fn attribute_shapes_agree() {
    let definitions = [
        definition(1, &[Text, Integer16, Integer16, Integer16], attribute_1),
        definition(2, &[Text], starts_with_hash),
        definition(3, &[Text], starts_with_angle),
        definition(4, &[Text, Text], attribute_4),
    ];
    let samples =
        ["Y  0   5  5", "GR 0   6  3", "# Y  Y  Y", "<deu>", "<text>", "Y  Zu Fuss", "VR VELOS: x"];
    hold_against(AttributeParser::new().row_parser(), &definitions, &samples);
}

fn code_7_then_rest(input: &str) -> Fields<'_> {
    let mut parser = (take(7usize), preceded(space1, rest));
    let (i2, data) = parser.parse(input)?;
    Ok((i2, vec![data.0, data.1]))
}

#[test]
fn direction_and_stop_shapes_agree() {
    let definitions = [definition(0, &[Text, Text], code_7_then_rest)];
    let samples = ["R000008 Winterthur", "R002609 Hégenheim - Collège"];
    hold_against(DirectionParser::new().row_parser(), &definitions, &samples);
    let definitions = [definition(0, &[Integer32, Text], code_7_then_rest)];
    let samples = ["8507000     Bern$<1>$BN$<3>"];
    hold_against(StopParser::new().row_parser(), &definitions, &samples);
}

fn exchange_administration_1(input: &str) -> Fields<'_> {
    let mut parser = (
        opt(take(7usize)),
        preceded(space1, take(6usize)),
        preceded(space1, take(6usize)),
        preceded(space1, take(2usize)),
    );
    let (i2, data) = parser.parse(input)?;
    Ok((i2, vec![data.0.unwrap_or(""), data.1, data.2, data.3]))
}

#[test]
fn exchange_administration_shape_agrees() {
    let definitions =
        [definition(0, &[OptionInteger32, Text, Text, Integer16], exchange_administration_1)];
    let samples = [
        "8101236 007000 085000 02 Feldkirch",
        "@@@@@@@ 000793 000873 02",
        "1111135 sbg034 sbg034 01 Waldshut, Busbahnhof",
    ];
    hold_against(ExchangeTimeAdministrationParser::new().row_parser(), &definitions, &samples);
}

fn holiday_1(input: &str) -> Fields<'_> {
    let mut parser = (take(10usize), preceded(space1, rest));
    let (i2, data) = parser.parse(input)?;
    Ok((i2, vec![data.0, data.1]))
}

#[test]
fn holiday_shape_agrees() {
    let definitions = [definition(0, &[Text, Text], holiday_1)];
    let samples = ["25.12.2024 Weihnachtstag<deu>Noël<fra>"];
    hold_against(HolidayParser::new().row_parser(), &definitions, &samples);
}

fn information_text_1(input: &str) -> Fields<'_> {
    let mut parser = take(9usize);
    let (i2, data) = parser.parse(input)?;
    Ok((i2, vec![data]))
}

fn information_text_2(input: &str) -> Fields<'_> {
    let mut parser = (take(9usize), preceded(space1, rest));
    let (i2, data) = parser.parse(input)?;
    Ok((i2, vec![data.0, data.1]))
}

#[test]
fn information_text_shapes_agree() {
    let information_text_parser = InformationTextParser::new();
    let samples = ["000001921 ch:1:sjyid:100001:3995-001", "000003459 2518"];
    let definitions = [definition(0, &[Integer32], information_text_1)];
    hold_against(information_text_parser.id_row_parser(), &definitions, &samples);
    let definitions = [definition(0, &[Integer32, Text], information_text_2)];
    hold_against(information_text_parser.infotext_row_parser(), &definitions, &samples);
}

fn line_1(input: &str) -> Fields<'_> {
    let mut parser = (take(7usize), preceded(tag("K"), preceded(space1, rest)));
    let (i2, data) = parser.parse(input)?;
    Ok((i2, vec![data.0, data.1]))
}

fn line_2(input: &str) -> Fields<'_> {
    let mut parser = preceded(tag("N T"), preceded(space1, rest));
    let (i2, data) = parser.parse(input)?;
    Ok((i2, vec![data]))
}

fn line_3(input: &str) -> Fields<'_> {
    let mut parser = (
        preceded(tag("F"), preceded(space1, take(3usize))),
        preceded(space1, take(3usize)),
        preceded(space1, take(3usize)),
    );
    let (i2, data) = parser.parse(input)?;
    Ok((i2, vec![data.0, data.1, data.2]))
}

fn line_4(input: &str) -> Fields<'_> {
    let mut parser = (
        preceded(tag("B"), preceded(space1, take(3usize))),
        preceded(space1, take(3usize)),
        preceded(space1, take(3usize)),
    );
    let (i2, data) = parser.parse(input)?;
    Ok((i2, vec![data.0, data.1, data.2]))
}

fn line_5(input: &str) -> Fields<'_> {
    let mut parser = preceded(tag("L T"), preceded(space1, rest));
    let (i2, data) = parser.parse(input)?;
    Ok((i2, vec![data]))
}

#[test]
fn line_shapes_agree() {
    let definitions = [
        definition(1, &[Integer32, Text], line_1),
        definition(2, &[Text], line_2),
        definition(3, &[Integer16, Integer16, Integer16], line_3),
        definition(4, &[Integer16, Integer16, Integer16], line_4),
        definition(5, &[Text], line_5),
    ];
    let samples =
        ["0000001K ch:1:slnid:33:1", "N T 1", "F 255 255 255", "B 001 002 003", "L T Long name"];
    hold_against(LineParser::new().row_parser(), &definitions, &samples);
}

fn platform_1(input: &str) -> Fields<'_> {
    let mut parser = (
        take(7usize),
        preceded(space1, take(6usize)),
        preceded(space1, take(6usize)),
        preceded(tag("#"), take(7usize)),
        preceded(space1, opt(take(4usize))),
        preceded(space1, opt(take(6usize))),
    );
    let (i2, data) = parser.parse(input)?;
    Ok((i2, vec![data.0, data.1, data.2, data.3, data.4.unwrap_or(""), data.5.unwrap_or("")]))
}

fn platform_2(input: &str) -> Fields<'_> {
    let mut parser = (
        take(7usize),
        preceded(tag("#"), take(7usize)),
        preceded(tag("G"), preceded(space1, take(6usize))),
    );
    let (i2, data) = parser.parse(input)?;
    Ok((i2, vec![data.0, data.1, data.2]))
}

fn platform_3(input: &str) -> Fields<'_> {
    let mut parser = (
        take(7usize),
        preceded(tag("#"), take(7usize)),
        preceded(tag("A"), preceded(space1, take(6usize))),
    );
    let (i2, data) = parser.parse(input)?;
    Ok((i2, vec![data.0, data.1, data.2]))
}

fn platform_4_1(input: &str) -> Fields<'_> {
    let mut parser = (
        take(7usize),
        preceded(tag("#"), take(7usize)),
        preceded(tag("g A"), preceded(space1, take(6usize))),
    );
    let (i2, data) = parser.parse(input)?;
    Ok((i2, vec![data.0, data.1, data.2]))
}

fn platform_4_2(input: &str) -> Fields<'_> {
    let mut parser = (
        take(7usize),
        preceded(tag("#"), take(7usize)),
        preceded(tag("I A"), preceded(space1, take(6usize))),
    );
    let (i2, data) = parser.parse(input)?;
    Ok((i2, vec![data.0, data.1, data.2]))
}

fn platform_5_1(input: &str) -> Fields<'_> {
    let mut parser = (
        take(7usize),
        preceded(tag("#"), take(7usize)),
        preceded(tag("k"), preceded(space1, take(6usize))),
    );
    let (i2, data) = parser.parse(input)?;
    Ok((i2, vec![data.0, data.1, data.2]))
}

fn platform_5_2(input: &str) -> Fields<'_> {
    let mut parser = (
        take(7usize),
        preceded(tag("#"), take(7usize)),
        preceded(tag("K"), preceded(space1, take(6usize))),
    );
    let (i2, data) = parser.parse(input)?;
    Ok((i2, vec![data.0, data.1, data.2]))
}

#[test]
fn platform_shapes_agree() {
    let journey = &[Integer32, Integer32, Text, Integer32, OptionInteger32, OptionInteger32];
    let platform = &[Integer32, Integer32, Text];
    let latest = [
        definition(1, journey, platform_1),
        definition(2, platform, platform_2),
        definition(3, platform, platform_3),
        definition(4, platform, platform_4_1),
        definition(5, platform, platform_5_1),
    ];
    let samples = [
        "8500010 000003 000011#0000001 1234 053751",
        "8500010 000003 000011#0000001 1234 05",
        "8500010#0000001G G '1' ",
        "8500010#0000001A A 'AB'",
        "8500010#0000001g A ch:1:s",
        "8500010#0000001k 2.5 47",
    ];
    hold_against(PlatformParser::new(Version::V_5_40_41_2_0_7).row_parser(), &latest, &samples);
    let earlier = [
        definition(1, journey, platform_1),
        definition(2, platform, platform_2),
        definition(4, platform, platform_4_2),
        definition(5, platform, platform_5_2),
    ];
    let samples = [
        "8500010 000003 000011#0000001 1234 053751",
        "8500010#0000001G G '1' ",
        "8500010#0000001I A ch:1:s",
        "8500010#0000001K 2.5 47",
    ];
    for version in
        [Version::V_5_40_41_2_0_4, Version::V_5_40_41_2_0_5, Version::V_5_40_41_2_0_6]
    {
        hold_against(PlatformParser::new(version).row_parser(), &earlier, &samples);
    }
}

fn coordinate_2_1(input: &str) -> Fields<'_> {
    let mut parser = (
        take(7usize),
        preceded(char(' '), take(10usize)),
        preceded(char(' '), take(10usize)),
        preceded(char(' '), take(6usize)),
    );
    let (i2, data) = parser.parse(input)?;
    Ok((i2, vec![data.0, data.1, data.2, data.3]))
}

fn coordinate_2_2(input: &str) -> Fields<'_> {
    let mut parser = (
        take(7usize),
        preceded(char(' '), take(11usize)),
        preceded(char(' '), take(11usize)),
        preceded(char(' '), take(7usize)),
    );
    let (i2, data) = parser.parse(input)?;
    Ok((i2, vec![data.0, data.1, data.2, data.3]))
}

#[test]
fn coordinate_shapes_agree() {
    let kinds = &[Integer32, Float, Float, Integer16];
    let first = [definition(0, kinds, coordinate_2_1)];
    hold_against(
        CoordinateParser::new(Version::V_5_40_41_2_0_4).row_parser(),
        &first,
        &["8500010 2611363.00 1266310.00 000277"],
    );
    let later = [definition(0, kinds, coordinate_2_2)];
    for version in
        [Version::V_5_40_41_2_0_5, Version::V_5_40_41_2_0_6, Version::V_5_40_41_2_0_7]
    {
        hold_against(
            CoordinateParser::new(version).row_parser(),
            &later,
            &["8500010 2611363.000 1266310.000 0000277", "8500010    7.589551   47.547412       0"],
        );
    }
}

fn description_1(input: &str) -> Fields<'_> {
    let mut parser = tag("%");
    let (i2, _) = parser.parse(input)?;
    Ok((i2, vec![]))
}

fn description_2(input: &str) -> Fields<'_> {
    let mut parser = (take(7usize), preceded((space1, tag("B"), space1), take(2usize)));
    let (i2, data) = parser.parse(input)?;
    Ok((i2, vec![data.0, data.1]))
}

fn description_3(input: &str) -> Fields<'_> {
    let mut parser = (take(7usize), preceded((take(3usize), tag("A"), space1), rest));
    let (i2, data) = parser.parse(input)?;
    Ok((i2, vec![data.0, data.1]))
}

fn description_4(input: &str) -> Fields<'_> {
    let mut parser = (take(7usize), preceded((take(3usize), tag("a"), space1), rest));
    let (i2, data) = parser.parse(input)?;
    Ok((i2, vec![data.0, data.1]))
}

fn description_5(input: &str) -> Fields<'_> {
    let mut parser = (take(7usize), preceded((space1, tag("L"), space1), take(2usize)));
    let (i2, data) = parser.parse(input)?;
    Ok((i2, vec![data.0, data.1]))
}

fn description_6(input: &str) -> Fields<'_> {
    let mut parser = (
        take(7usize),
        preceded((space1, tag("I"), space1), take(2usize)),
        preceded(space1, take(9usize)),
    );
    let (i2, data) = parser.parse(input)?;
    Ok((i2, vec![data.0, data.1]))
}

#[test]
fn description_shapes_agree() {
    let definitions = [
        definition(1, &[], description_1),
        definition(2, &[Integer32, Integer16], description_2),
        definition(3, &[Integer32, Text], description_3),
        definition(4, &[Integer32, Text], description_4),
        definition(5, &[Integer32, Text], description_5),
        definition(6, &[Integer32, Text, Integer32], description_6),
    ];
    let samples = [
        "% a comment",
        "8500010 B 03",
        "8500010 G A ch:1:sloid:10",
        "8500010 G a ch:1:sloid:10:1:1",
        "8500010 L CH",
        "8500010 I KT 000000026",
    ];
    hold_against(DescriptionParser::new(Version::V_5_40_41_2_0_7).row_parser(), &definitions, &samples);
}

fn exchange_priority_1(input: &str) -> Fields<'_> {
    let mut parser = (take(7usize), preceded(space1, take(2usize)));
    let (i2, data) = parser.parse(input)?;
    Ok((i2, vec![data.0, data.1]))
}

fn exchange_time_1(input: &str) -> Fields<'_> {
    let mut parser =
        (take(7usize), preceded(space1, take(2usize)), preceded(space1, take(2usize)));
    let (i2, data) = parser.parse(input)?;
    Ok((i2, vec![data.0, data.1, data.2]))
}

#[test]
fn exchange_priority_and_time_shapes_agree() {
    let definitions = [definition(0, &[Integer32, Integer16], exchange_priority_1)];
    hold_against(
        ExchangePriorityParser::new().row_parser(),
        &definitions,
        &["8500010  4 Basel SBB", "8500010 16"],
    );
    let definitions = [definition(0, &[Integer32, Integer16, Integer16], exchange_time_1)];
    hold_against(
        ExchangeTimeParser::new().row_parser(),
        &definitions,
        &["9999999 02 02 STANDARD", "8500010 05 05"],
    );
}

fn stop_connection_1(input: &str) -> Fields<'_> {
    let mut parser =
        (take(7usize), preceded(space1, take(7usize)), preceded(space1, take(3usize)));
    let (i2, data) = parser.parse(input)?;
    Ok((i2, vec![data.0, data.1, data.2]))
}

fn stop_connection_2(input: &str) -> Fields<'_> {
    let mut parser = preceded(tag("#"), preceded(space1, take(2usize)));
    let (i2, data) = parser.parse(input)?;
    Ok((i2, vec![data]))
}

fn stop_connection_3(input: &str) -> Fields<'_> {
    let mut parser = (take(7usize), tag(":"));
    let (i2, _) = parser.parse(input)?;
    Ok((i2, vec![]))
}

#[test]
fn stop_connection_shapes_agree() {
    let definitions = [
        definition(1, &[Integer32, Integer32, Integer16], stop_connection_1),
        definition(2, &[Text], stop_connection_2),
        definition(3, &[], stop_connection_3),
    ];
    let samples = ["8500010 8578143 009", "# Y ", "8500010: 8500090 8500146"];
    hold_against(StopConnectionParser::new().row_parser(), &definitions, &samples);
}

fn through_service_1(input: &str) -> Fields<'_> {
    let mut parser = (
        take(6usize),
        preceded(space1, take(6usize)),
        preceded(space1, take(7usize)),
        preceded(space1, take(6usize)),
        preceded(space1, take(6usize)),
        preceded(space1, take(6usize)),
        preceded(space1, take(7usize)),
    );
    let (i2, data) = parser.parse(input)?;
    Ok((i2, vec![data.0, data.1, data.2, data.3, data.4, data.5, data.6]))
}

#[test]
fn through_service_shape_agrees() {
    let definitions = [definition(
        0,
        &[Integer32, Text, Integer32, Integer32, Text, Integer32, Integer32],
        through_service_1,
    )];
    let samples = ["000001 000871 8576671 024064 000871 000001 8576671"];
    hold_against(ThroughServiceParser::new().row_parser(), &definitions, &samples);
}

fn timetable_metadata_1(input: &str) -> Fields<'_> {
    let mut parser = recognize((
        take(2usize),
        preceded(char('.'), take(2usize)),
        preceded(char('.'), take(4usize)),
    ));
    let (i2, data) = parser.parse(input)?;
    Ok((i2, vec![data]))
}

fn timetable_metadata_2(input: &str) -> Fields<'_> {
    let mut parser = rest;
    let (i2, data) = parser.parse(input)?;
    Ok((i2, vec![data]))
}

#[test]
fn timetable_metadata_shapes_agree() {
    let definitions = [
        definition(1, &[Text, Text, Text, Text, Text], timetable_metadata_1),
        definition(2, &[Text], timetable_metadata_2),
    ];
    let samples = ["10.12.2023", "Fahrplan 2024$10.12.2023 22:11:48$5.40.41$INFO+"];
    hold_against(TimetableMetadataParser::new().row_parser(), &definitions, &samples);
}

fn transport_company_1(input: &str) -> Fields<'_> {
    let mut parser = (take(5usize), preceded(tag("K"), preceded(space1, rest)));
    let (i2, data) = parser.parse(input)?;
    Ok((i2, vec![data.0, data.1]))
}

fn transport_company_2(input: &str) -> Fields<'_> {
    let mut parser = (take(5usize), preceded(tag(":"), preceded(space1, rest)));
    let (i2, data) = parser.parse(input)?;
    Ok((i2, vec![data.0, data.1]))
}

fn transport_company_3(input: &str) -> Fields<'_> {
    let mut parser = (preceded(take(5usize), tag("N")), preceded(space1, rest));
    let (i2, data) = parser.parse(input)?;
    Ok((i2, vec![data.0, data.1]))
}

#[test]
fn transport_company_shapes_agree() {
    let definitions = [
        definition(1, &[Integer32, Text], transport_company_1),
        definition(2, &[Integer32, Text], transport_company_2),
        definition(2, &[Text], transport_company_3),
    ];
    let samples = [
        "0379 K \"SBB\" L \"SBB\" V \"Schweizerische Bundesbahnen\"",
        "0379 : 000011 000065",
        "00379N ch:1:sboid:100001",
    ];
    hold_against(TransportCompanyParser::new().row_parser(), &definitions, &samples);
}

fn transport_type_1(input: &str) -> Fields<'_> {
    let mut parser = (
        take(3usize),
        preceded(space1, take(2usize)),
        preceded(space1, take(1usize)),
        preceded(space1, take(1usize)),
        preceded(space1, take(8usize)),
        preceded(space1, take(1usize)),
        preceded(space1, take(1usize)),
    );
    let (i2, data) = parser.parse(input)?;
    Ok((i2, vec![data.0, data.1, data.2, data.3, data.4, data.5, data.6]))
}

fn transport_type_2(input: &str) -> Fields<'_> {
    let mut parser = recognize((tag("<"), rest));
    let (i2, data) = parser.parse(input)?;
    Ok((i2, vec![data]))
}

fn transport_type_3(input: &str) -> Fields<'_> {
    let mut parser = (preceded(tag("class"), take(2usize)), preceded(space1, rest));
    let (i2, data) = parser.parse(input)?;
    Ok((i2, vec![data.0, data.1]))
}

fn transport_type_4(input: &str) -> Fields<'_> {
    let mut parser = tag("option");
    let (i2, _) = parser.parse(input)?;
    Ok((i2, vec![]))
}

fn transport_type_5(input: &str) -> Fields<'_> {
    let mut parser = (preceded(tag("category"), take(3usize)), preceded(space1, rest));
    let (i2, data) = parser.parse(input)?;
    Ok((i2, vec![data.0, data.1]))
}

fn transport_type_6(input: &str) -> Fields<'_> {
    let mut parser = (
        preceded(tag("*I"), preceded(space1, take(2usize))),
        take(7usize),
        preceded(space1, take(9usize)),
    );
    let (i2, data) = parser.parse(input)?;
    Ok((i2, vec![data.0, data.1]))
}

#[test]
fn transport_type_shapes_agree() {
    let definitions = [
        definition(
            1,
            &[Text, Integer16, Text, Integer16, Text, Integer16, Text],
            transport_type_1,
        ),
        definition(2, &[Text], transport_type_2),
        definition(3, &[Integer16, Text], transport_type_3),
        definition(4, &[], transport_type_4),
        definition(5, &[Integer32, Text], transport_type_5),
        definition(6, &[Text, OptionInteger32], transport_type_6),
    ];
    let samples = [
        "IC  01 A 0 IC       0 B",
        "<Deutsch>",
        "class01 Fernverkehr",
        "option10 something",
        "category001 Intercity",
        "*I nm0000000 000000001",
    ];
    hold_against(TransportTypeParser::new().row_parser(), &definitions, &samples);
}
