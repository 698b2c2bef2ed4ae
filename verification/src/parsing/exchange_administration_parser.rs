//! Exchange times between administrations.
//!
//! A line gives a stop number, or a placeholder where the time holds at all
//! stops, two administrations, and the minutes needed to change from a journey
//! of the first to a journey of the second:
//!
//! `8101236 007000 085000 02 Feldkirch`
//!
//! File read by the decoder: UMSTEIGV

use vstd::prelude::*;
use rustc_hash::FxHashMap;
use crate::grammar::{capture, skip, Grammar, Token};
use crate::models::{ExchangeTimeAdministration, ExchangeTimeAdministrationData};
use crate::parsing::file_parser::{
    decode,
    decoded_file,
    feed,
    folded_all,
    records,
    FileParser,
    RecordSink,
};
use crate::parsing::{
    read_i16,
    read_option_i32,
    read_text,
    row,
    value_i16,
    value_option_i32,
    value_text,
    value_views,
    ExpectedType,
    Failure,
    ParseError,
    ParsedRow,
    ParsedValue,
    Record,
    RowDefinition,
    RowParser,
    RowShape,
    TypedValue,
};
use crate::storage::{
    entity_views,
    lemma_views_after_insert,
    lemma_views_of_empty,
    new_table,
    store,
};
use crate::utils::AutoIncrement;

verus! {

/// The shapes of row in the file, in the order in which they are tried.
pub open spec fn exchange_administration_rows() -> Seq<RowShape> {
    seq![
        RowShape {
            id: 0,
            columns: seq![
                ExpectedType::OptionInteger32,
                ExpectedType::String,
                ExpectedType::String,
                ExpectedType::Integer16,
            ],
            steps: seq![
                capture(Token::OptTake(7)),
                skip(Token::Space1),
                capture(Token::Take(6)),
                skip(Token::Space1),
                capture(Token::Take(6)),
                skip(Token::Space1),
                capture(Token::Take(2)),
            ],
            whole: false,
        },
    ]
}

/// The decoder of the file of exchange times between administrations.
pub struct ExchangeTimeAdministrationParser {
    file: String,
    row_parser: RowParser,
}

impl ExchangeTimeAdministrationParser {
    fn get_parser_1() -> (grammar: Grammar)
        ensures
            grammar.steps@ == seq![
                capture(Token::OptTake(7)),
                skip(Token::Space1),
                capture(Token::Take(6)),
                skip(Token::Space1),
                capture(Token::Take(6)),
                skip(Token::Space1),
                capture(Token::Take(2)),
            ],
            !grammar.whole,
    {
        let steps = vec![
            capture(Token::OptTake(7)),
            skip(Token::Space1),
            capture(Token::Take(6)),
            skip(Token::Space1),
            capture(Token::Take(6)),
            skip(Token::Space1),
            capture(Token::Take(2)),
        ];
        assert(steps@ =~= seq![
            capture(Token::OptTake(7)),
            skip(Token::Space1),
            capture(Token::Take(6)),
            skip(Token::Space1),
            capture(Token::Take(6)),
            skip(Token::Space1),
            capture(Token::Take(2)),
        ]);
        Grammar::new(steps)
    }

    pub fn new() -> (parser: Self)
        ensures
            parser.shapes() == exchange_administration_rows(),
            parser.file_name() == "UMSTEIGV"@,
    {
        let row_parser = {
            let mut rows: Vec<RowDefinition> = Vec::new();
            let kinds = vec![
                ExpectedType::OptionInteger32,
                ExpectedType::String,
                ExpectedType::String,
                ExpectedType::Integer16,
            ];
            assert(kinds@ =~= exchange_administration_rows()[0].columns);
            rows.push(row(0, kinds, Self::get_parser_1()));
            let row_parser = RowParser::new(rows);
            assert(row_parser@ =~= exchange_administration_rows());
            row_parser
        };
        Self { file: "UMSTEIGV".to_owned(), row_parser }
    }

    /// The shapes of row that the decoder knows.
    pub closed spec fn shapes(&self) -> Seq<RowShape> {
        self.row_parser@
    }

    /// The name of the file that the decoder reads.
    pub closed spec fn file_name(&self) -> Seq<char> {
        self.file@
    }

    /// The name of the file that the decoder reads.
    pub fn file(&self) -> (name: &String)
        ensures
            name@ == self.file_name(),
    {
        &self.file
    }

    /// The classifier of the rows.
    pub fn row_parser(&self) -> (row_parser: &RowParser)
        ensures
            row_parser@ == self.shapes(),
    {
        &self.row_parser
    }

    /// Turns the rows of a file into exchange times.
    pub fn row_converter(&self, parser: FileParser) -> (result: Result<
        FxHashMap<i32, ExchangeTimeAdministration>,
        ParseError,
    >)
        ensures
            match result {
                Ok(data) => folded_all::<ExchangeTimeAdministrationSink>(
                    records(parser.shapes(), parser.lines()),
                    ExchangeTimes::none(),
                ) matches Ok(state) && state.data == entity_views(data@),
                Err(e) => folded_all::<ExchangeTimeAdministrationSink>(
                    records(parser.shapes(), parser.lines()),
                    ExchangeTimes::none(),
                ) == Err::<ExchangeTimes, Failure>(e@),
            },
    {
        let mut sink = ExchangeTimeAdministrationSink::new();
        feed(&parser, &mut sink)?;
        Ok(sink.data)
    }

    /// Decodes the content of the file.
    pub fn parse(&self, content: &[u8]) -> (result: Result<
        FxHashMap<i32, ExchangeTimeAdministration>,
        ParseError,
    >)
        ensures
            match result {
                Ok(data) => decoded_file::<ExchangeTimeAdministrationSink>(
                    self.shapes(),
                    content@,
                    0,
                    ExchangeTimes::none(),
                ) matches Ok(state) && state.data == entity_views(data@),
                Err(e) => decoded_file::<ExchangeTimeAdministrationSink>(
                    self.shapes(),
                    content@,
                    0,
                    ExchangeTimes::none(),
                ) == Err::<ExchangeTimes, Failure>(e@),
            },
    {
        let mut sink = ExchangeTimeAdministrationSink::new();
        decode(content, 0, &self.row_parser, &mut sink)?;
        Ok(sink.data)
    }
}

/// What the decoder has accumulated: the exchange times by identifier, and the
/// number of identifiers handed out.
pub ghost struct ExchangeTimes {
    pub data: Map<i32, ExchangeTimeAdministrationData>,
    pub issued: nat,
}

impl ExchangeTimes {
    /// Nothing accumulated yet.
    pub open spec fn none() -> ExchangeTimes {
        ExchangeTimes { data: Map::empty(), issued: 0 }
    }
}

/// The stop, the two administrations and the minutes of a row.
pub open spec fn row_of(values: Seq<TypedValue>) -> Result<
    (Option<i32>, Seq<char>, Seq<char>, i16),
    Failure,
> {
    match read_option_i32(values, 0) {
        Err(failure) => Err(failure),
        Ok(stop_id) => match read_text(values, 1) {
            Err(failure) => Err(failure),
            Ok(administration_1) => match read_text(values, 2) {
                Err(failure) => Err(failure),
                Ok(administration_2) => match read_i16(values, 3) {
                    Err(failure) => Err(failure),
                    Ok(duration) => Ok((stop_id, administration_1, administration_2, duration)),
                },
            },
        },
    }
}

/// What one more row makes of the accumulated exchange times: the exchange
/// time of the row is stored under the next identifier.
pub open spec fn with_row(state: ExchangeTimes, values: Seq<TypedValue>) -> Result<
    ExchangeTimes,
    Failure,
> {
    match row_of(values) {
        Err(failure) => Err(failure),
        Ok((stop_id, administration_1, administration_2, duration)) => if state.issued
            >= i32::MAX {
            Err(Failure::IdentifiersExhausted)
        } else {
            let id = (state.issued + 1) as i32;
            Ok(
                ExchangeTimes {
                    data: state.data.insert(
                        id,
                        ExchangeTimeAdministrationData {
                            id,
                            stop_id,
                            administration_1,
                            administration_2,
                            duration,
                        },
                    ),
                    issued: state.issued + 1,
                },
            )
        },
    }
}

/// The accumulator of the decoder.
pub struct ExchangeTimeAdministrationSink {
    data: FxHashMap<i32, ExchangeTimeAdministration>,
    auto_increment: AutoIncrement,
}

impl ExchangeTimeAdministrationSink {
    /// An accumulator that holds nothing yet.
    pub fn new() -> (sink: Self)
        ensures
            sink.state() == ExchangeTimes::none(),
    {
        proof {
            lemma_views_of_empty::<ExchangeTimeAdministration>();
        }
        ExchangeTimeAdministrationSink { data: new_table(), auto_increment: AutoIncrement::new() }
    }
}

impl RecordSink for ExchangeTimeAdministrationSink {
    type State = ExchangeTimes;

    closed spec fn state(&self) -> ExchangeTimes {
        ExchangeTimes { data: entity_views(self.data@), issued: self.auto_increment.issued() }
    }

    open spec fn step(state: ExchangeTimes, record: Record) -> Result<ExchangeTimes, Failure> {
        with_row(state, record.2)
    }

    fn accept(&mut self, row: ParsedRow) -> (result: Result<(), ParseError>) {
        let exchange_time = create_instance(row.2, &mut self.auto_increment)?;
        let id = exchange_time.id();
        proof {
            lemma_views_after_insert(self.data@, id, exchange_time);
        }
        store(&mut self.data, id, exchange_time);
        Ok(())
    }
}

/// Builds the exchange time of a row, with the next identifier.
pub fn create_instance(values: Vec<ParsedValue>, auto_increment: &mut AutoIncrement) -> (result:
    Result<ExchangeTimeAdministration, ParseError>)
    ensures
        match result {
            Ok(exchange_time) => row_of(value_views(values@)) is Ok && old(
                auto_increment,
            ).issued() < i32::MAX && final(auto_increment).issued() == old(
                auto_increment,
            ).issued() + 1 && exchange_time@ == (ExchangeTimeAdministrationData {
                id: (old(auto_increment).issued() + 1) as i32,
                stop_id: row_of(value_views(values@))->Ok_0.0,
                administration_1: row_of(value_views(values@))->Ok_0.1,
                administration_2: row_of(value_views(values@))->Ok_0.2,
                duration: row_of(value_views(values@))->Ok_0.3,
            }),
            Err(e) => final(auto_increment).issued() == old(auto_increment).issued() && match row_of(
                value_views(values@),
            ) {
                Err(failure) => failure == e@,
                Ok(_) => old(auto_increment).issued() >= i32::MAX && e@
                    == Failure::IdentifiersExhausted,
            },
        },
{
    let (stop_id, administration_1, administration_2, duration) = row_from_parsed_values(&values)?;
    if !auto_increment.has_next() {
        return Err(ParseError::IdentifiersExhausted);
    }
    Ok(
        ExchangeTimeAdministration::new(
            auto_increment.next(),
            stop_id,
            administration_1,
            administration_2,
            duration,
        ),
    )
}

/// Decodes the content of a file of exchange times.
pub fn parse(content: &[u8]) -> (result: Result<
    FxHashMap<i32, ExchangeTimeAdministration>,
    ParseError,
>)
    ensures
        match result {
            Ok(data) => decoded_file::<ExchangeTimeAdministrationSink>(
                exchange_administration_rows(),
                content@,
                0,
                ExchangeTimes::none(),
            ) matches Ok(state) && state.data == entity_views(data@),
            Err(e) => decoded_file::<ExchangeTimeAdministrationSink>(
                exchange_administration_rows(),
                content@,
                0,
                ExchangeTimes::none(),
            ) == Err::<ExchangeTimes, Failure>(e@),
        },
{
    ExchangeTimeAdministrationParser::new().parse(content)
}

/// The stop, the two administrations and the minutes that a row holds.
pub fn row_from_parsed_values(values: &Vec<ParsedValue>) -> (result: Result<
    (Option<i32>, String, String, i16),
    ParseError,
>)
    ensures
        match result {
            Ok(parts) => row_of(value_views(values@)) == Ok::<
                (Option<i32>, Seq<char>, Seq<char>, i16),
                Failure,
            >((parts.0, parts.1@, parts.2@, parts.3)),
            Err(e) => row_of(value_views(values@)) == Err::<
                (Option<i32>, Seq<char>, Seq<char>, i16),
                Failure,
            >(e@),
        },
{
    let stop_id = value_option_i32(values, 0)?;
    let administration_1 = value_text(values, 1)?;
    let administration_2 = value_text(values, 2)?;
    let duration = value_i16(values, 3)?;
    Ok((stop_id, administration_1, administration_2, duration))
}

} // verus!
