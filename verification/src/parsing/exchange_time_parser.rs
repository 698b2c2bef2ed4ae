//! Exchange times of stops.
//!
//! A line gives the number of a stop and the minutes needed to change there,
//! between fast trains and between other journeys. The stop number 9999999
//! stands for all stops that have no line of their own:
//!
//! `9999999 02 02 STANDARD`
//!
//! File read by the decoder: UMSTEIGB

use vstd::prelude::*;
use rustc_hash::FxHashMap;
use crate::grammar::{capture, skip, Grammar, Token};
use crate::models::{Stop, StopData};
use crate::parsing::file_parser::{decode, decoded_file, RecordSink};
use crate::parsing::{
    read_i16,
    read_i32,
    row,
    value_i16,
    value_i32,
    value_views,
    ExpectedType,
    Failure,
    ParseError,
    ParsedRow,
    ParsedValue,
    Record,
    RowDefinition,
    RowParser,
    RowShape,
    TypedValue,
};
use crate::storage::{
    entity_views,
    lemma_views_after_insert,
    lemma_views_of_entry,
    new_table,
    store,
    take,
};

verus! {

/// The stop number that stands for all stops without a line of their own.
pub const DEFAULT_STOP: i32 = 9999999;

/// The shapes of row in the file, in the order in which they are tried.
pub open spec fn exchange_time_rows() -> Seq<RowShape> {
    seq![
        RowShape {
            id: 0,
            columns: seq![
                ExpectedType::Integer32,
                ExpectedType::Integer16,
                ExpectedType::Integer16,
            ],
            steps: seq![
                capture(Token::Take(7)),
                skip(Token::Space1),
                capture(Token::Take(2)),
                skip(Token::Space1),
                capture(Token::Take(2)),
            ],
            whole: false,
        },
    ]
}

/// The decoder of the file of exchange times.
pub struct ExchangeTimeParser {
    file: String,
    row_parser: RowParser,
}

impl ExchangeTimeParser {
    fn get_parser_1() -> (grammar: Grammar)
        ensures
            grammar.steps@ == seq![
                capture(Token::Take(7)),
                skip(Token::Space1),
                capture(Token::Take(2)),
                skip(Token::Space1),
                capture(Token::Take(2)),
            ],
            !grammar.whole,
    {
        let steps = vec![
            capture(Token::Take(7)),
            skip(Token::Space1),
            capture(Token::Take(2)),
            skip(Token::Space1),
            capture(Token::Take(2)),
        ];
        assert(steps@ =~= seq![
            capture(Token::Take(7)),
            skip(Token::Space1),
            capture(Token::Take(2)),
            skip(Token::Space1),
            capture(Token::Take(2)),
        ]);
        Grammar::new(steps)
    }

    pub fn new() -> (parser: Self)
        ensures
            parser.shapes() == exchange_time_rows(),
            parser.file_name() == "UMSTEIGB"@,
    {
        let row_parser = {
            let mut rows: Vec<RowDefinition> = Vec::new();
            let kinds = vec![
                ExpectedType::Integer32,
                ExpectedType::Integer16,
                ExpectedType::Integer16,
            ];
            assert(kinds@ =~= exchange_time_rows()[0].columns);
            rows.push(row(0, kinds, Self::get_parser_1()));
            let row_parser = RowParser::new(rows);
            assert(row_parser@ =~= exchange_time_rows());
            row_parser
        };
        Self { file: "UMSTEIGB".to_owned(), row_parser }
    }

    /// The shapes of row that the decoder knows.
    pub closed spec fn shapes(&self) -> Seq<RowShape> {
        self.row_parser@
    }

    /// The name of the file that the decoder reads.
    pub closed spec fn file_name(&self) -> Seq<char> {
        self.file@
    }

    /// The name of the file that the decoder reads.
    pub fn file(&self) -> (name: &String)
        ensures
            name@ == self.file_name(),
    {
        &self.file
    }

    /// The classifier of the rows.
    pub fn row_parser(&self) -> (row_parser: &RowParser)
        ensures
            row_parser@ == self.shapes(),
    {
        &self.row_parser
    }

    /// Reads the file, gives the stops their exchange times and returns the
    /// times for the stops without a line of their own.
    pub fn parse(&self, content: &[u8], data: &mut FxHashMap<i32, Stop>) -> (result: Result<
        (i16, i16),
        ParseError,
    >)
        ensures
            match result {
                Ok(default_exchange_time) => decoded_file::<ExchangeTimeSink>(
                    self.shapes(),
                    content@,
                    0,
                    ExchangeTimes { default_exchange_time: (0, 0), data: entity_views(old(data)@) },
                ) == Ok::<ExchangeTimes, Failure>(
                    ExchangeTimes { default_exchange_time, data: entity_views(final(data)@) },
                ),
                Err(e) => decoded_file::<ExchangeTimeSink>(
                    self.shapes(),
                    content@,
                    0,
                    ExchangeTimes { default_exchange_time: (0, 0), data: entity_views(old(data)@) },
                ) == Err::<ExchangeTimes, Failure>(e@),
            },
    {
        let mut sink = ExchangeTimeSink { default_exchange_time: (0, 0), data: new_table() };
        std::mem::swap(data, &mut sink.data);
        let result = decode(content, 0, &self.row_parser, &mut sink);
        std::mem::swap(data, &mut sink.data);
        match result {
            Ok(()) => Ok(sink.default_exchange_time),
            Err(e) => Err(e),
        }
    }
}

/// What the decoder has accumulated: the exchange times of the stops without
/// a line of their own, and the stops by number.
pub ghost struct ExchangeTimes {
    pub default_exchange_time: (i16, i16),
    pub data: Map<i32, StopData>,
}

/// The stop number and the two exchange times of a row.
pub open spec fn row_of(values: Seq<TypedValue>) -> Result<(i32, i16, i16), Failure> {
    match read_i32(values, 0) {
        Err(failure) => Err(failure),
        Ok(stop_id) => match read_i16(values, 1) {
            Err(failure) => Err(failure),
            Ok(inter_city) => match read_i16(values, 2) {
                Err(failure) => Err(failure),
                Ok(other) => Ok((stop_id, inter_city, other)),
            },
        },
    }
}

/// What one more row makes of the accumulated exchange times.
pub open spec fn with_exchange_time(state: ExchangeTimes, values: Seq<TypedValue>) -> Result<
    ExchangeTimes,
    Failure,
> {
    match row_of(values) {
        Err(failure) => Err(failure),
        Ok((stop_id, inter_city, other)) => if stop_id == DEFAULT_STOP {
            Ok(ExchangeTimes { default_exchange_time: (inter_city, other), ..state })
        } else {
            match state.data.get(stop_id) {
                None => Err(Failure::UnknownId),
                Some(stop) => Ok(
                    ExchangeTimes {
                        data: state.data.insert(
                            stop_id,
                            StopData { exchange_time: Some((inter_city, other)), ..stop },
                        ),
                        ..state
                    },
                ),
            }
        },
    }
}

/// The accumulator of the decoder.
pub struct ExchangeTimeSink {
    default_exchange_time: (i16, i16),
    data: FxHashMap<i32, Stop>,
}

impl RecordSink for ExchangeTimeSink {
    type State = ExchangeTimes;

    closed spec fn state(&self) -> ExchangeTimes {
        ExchangeTimes {
            default_exchange_time: self.default_exchange_time,
            data: entity_views(self.data@),
        }
    }

    open spec fn step(state: ExchangeTimes, record: Record) -> Result<ExchangeTimes, Failure> {
        with_exchange_time(state, record.2)
    }

    fn accept(&mut self, row: ParsedRow) -> (result: Result<(), ParseError>) {
        match set_exchange_time(row.2, &mut self.data)? {
            Some(times) => {
                self.default_exchange_time = times;
            },
            None => {},
        }
        Ok(())
    }
}

/// Reads the file of exchange times, gives the stops theirs and returns the
/// times for the stops without a line of their own.
pub fn parse(content: &[u8], data: &mut FxHashMap<i32, Stop>) -> (result: Result<
    (i16, i16),
    ParseError,
>)
    ensures
        match result {
            Ok(default_exchange_time) => decoded_file::<ExchangeTimeSink>(
                exchange_time_rows(),
                content@,
                0,
                ExchangeTimes { default_exchange_time: (0, 0), data: entity_views(old(data)@) },
            ) == Ok::<ExchangeTimes, Failure>(
                ExchangeTimes { default_exchange_time, data: entity_views(final(data)@) },
            ),
            Err(e) => decoded_file::<ExchangeTimeSink>(
                exchange_time_rows(),
                content@,
                0,
                ExchangeTimes { default_exchange_time: (0, 0), data: entity_views(old(data)@) },
            ) == Err::<ExchangeTimes, Failure>(e@),
        },
{
    ExchangeTimeParser::new().parse(content, data)
}

/// Gives the stop that a row names its exchange times. The row of the stop
/// number that stands for all other stops changes no stop: its times are
/// returned.
pub fn set_exchange_time(values: Vec<ParsedValue>, data: &mut FxHashMap<i32, Stop>) -> (result:
    Result<Option<(i16, i16)>, ParseError>)
    ensures
        match result {
            Ok(Some(times)) => row_of(value_views(values@)) == Ok::<(i32, i16, i16), Failure>(
                (DEFAULT_STOP, times.0, times.1),
            ) && final(data)@ == old(data)@,
            Ok(None) => row_of(value_views(values@)) matches Ok(parts) && parts.0 != DEFAULT_STOP
                && with_exchange_time(
                ExchangeTimes { default_exchange_time: (0, 0), data: entity_views(old(data)@) },
                value_views(values@),
            ) == Ok::<ExchangeTimes, Failure>(
                ExchangeTimes { default_exchange_time: (0, 0), data: entity_views(final(data)@) },
            ),
            Err(e) => with_exchange_time(
                ExchangeTimes { default_exchange_time: (0, 0), data: entity_views(old(data)@) },
                value_views(values@),
            ) == Err::<ExchangeTimes, Failure>(e@),
        },
{
    let stop_id = value_i32(&values, 0)?;
    let exchange_time_inter_city = value_i16(&values, 1)?;
    let exchange_time_other = value_i16(&values, 2)?;
    let exchange_time = Some((exchange_time_inter_city, exchange_time_other));
    if stop_id == DEFAULT_STOP {
        Ok(exchange_time)
    } else {
        proof {
            lemma_views_of_entry(data@, stop_id);
        }
        match take(data, stop_id) {
            None => Err(ParseError::UnknownId),
            Some(mut stop) => {
                stop.set_exchange_time(exchange_time);
                proof {
                    lemma_views_after_insert(old(data)@, stop_id, stop);
                }
                store(data, stop_id, stop);
                Ok(None)
            },
        }
    }
}

} // verus!
