//! Exchange priorities of stops.
//!
//! A line gives the number of a stop and the priority with which passengers
//! change there:
//!
//! `8500010  4 Basel SBB`
//!
//! File read by the decoder: BFPRIOS

use vstd::prelude::*;
use rustc_hash::FxHashMap;
use crate::grammar::{capture, skip, Grammar, Token};
use crate::models::{Stop, StopData};
use crate::parsing::file_parser::{decode, decoded_file, RecordSink};
use crate::parsing::{
    read_i16,
    read_i32,
    row,
    value_i16,
    value_i32,
    value_views,
    ExpectedType,
    Failure,
    ParseError,
    ParsedRow,
    ParsedValue,
    Record,
    RowDefinition,
    RowParser,
    RowShape,
    TypedValue,
};
use crate::storage::{
    entity_views,
    lemma_views_after_insert,
    lemma_views_of_entry,
    new_table,
    store,
    take,
};

verus! {

/// The shapes of row in the file, in the order in which they are tried.
pub open spec fn exchange_priority_rows() -> Seq<RowShape> {
    seq![
        RowShape {
            id: 0,
            columns: seq![
                ExpectedType::Integer32,
                ExpectedType::Integer16,
            ],
            steps: seq![
                capture(Token::Take(7)),
                skip(Token::Space1),
                capture(Token::Take(2)),
            ],
            whole: false,
        },
    ]
}

/// The decoder of the file of exchange priorities.
pub struct ExchangePriorityParser {
    file: String,
    row_parser: RowParser,
}

impl ExchangePriorityParser {
    fn get_parser_1() -> (grammar: Grammar)
        ensures
            grammar.steps@ == seq![
                capture(Token::Take(7)),
                skip(Token::Space1),
                capture(Token::Take(2)),
            ],
            !grammar.whole,
    {
        let steps = vec![
            capture(Token::Take(7)),
            skip(Token::Space1),
            capture(Token::Take(2)),
        ];
        assert(steps@ =~= seq![
            capture(Token::Take(7)),
            skip(Token::Space1),
            capture(Token::Take(2)),
        ]);
        Grammar::new(steps)
    }

    pub fn new() -> (parser: Self)
        ensures
            parser.shapes() == exchange_priority_rows(),
            parser.file_name() == "BFPRIOS"@,
    {
        let row_parser = {
            let mut rows: Vec<RowDefinition> = Vec::new();
            let kinds = vec![
                ExpectedType::Integer32,
                ExpectedType::Integer16,
            ];
            assert(kinds@ =~= exchange_priority_rows()[0].columns);
            rows.push(row(0, kinds, Self::get_parser_1()));
            let row_parser = RowParser::new(rows);
            assert(row_parser@ =~= exchange_priority_rows());
            row_parser
        };
        Self { file: "BFPRIOS".to_owned(), row_parser }
    }

    /// The shapes of row that the decoder knows.
    pub closed spec fn shapes(&self) -> Seq<RowShape> {
        self.row_parser@
    }

    /// The name of the file that the decoder reads.
    pub closed spec fn file_name(&self) -> Seq<char> {
        self.file@
    }

    /// The name of the file that the decoder reads.
    pub fn file(&self) -> (name: &String)
        ensures
            name@ == self.file_name(),
    {
        &self.file
    }

    /// The classifier of the rows.
    pub fn row_parser(&self) -> (row_parser: &RowParser)
        ensures
            row_parser@ == self.shapes(),
    {
        &self.row_parser
    }

    /// Reads the file and gives the stops their exchange priorities.
    pub fn parse(&self, content: &[u8], data: &mut FxHashMap<i32, Stop>) -> (result: Result<
        (),
        ParseError,
    >)
        ensures
            match result {
                Ok(()) => decoded_file::<ExchangePrioritySink>(
                    self.shapes(),
                    content@,
                    0,
                    entity_views(old(data)@),
                ) == Ok::<Map<i32, StopData>, Failure>(entity_views(final(data)@)),
                Err(e) => decoded_file::<ExchangePrioritySink>(
                    self.shapes(),
                    content@,
                    0,
                    entity_views(old(data)@),
                ) == Err::<Map<i32, StopData>, Failure>(e@),
            },
    {
        let mut sink = ExchangePrioritySink { data: new_table() };
        std::mem::swap(data, &mut sink.data);
        let result = decode(content, 0, &self.row_parser, &mut sink);
        std::mem::swap(data, &mut sink.data);
        result
    }
}

/// The stops after a row gave the exchange priority of one of them.
pub open spec fn with_exchange_priority(data: Map<i32, StopData>, values: Seq<TypedValue>) -> Result<
    Map<i32, StopData>,
    Failure,
> {
    match read_i32(values, 0) {
        Err(failure) => Err(failure),
        Ok(stop_id) => match read_i16(values, 1) {
            Err(failure) => Err(failure),
            Ok(exchange_priority) => match data.get(stop_id) {
                None => Err(Failure::UnknownId),
                Some(stop) => Ok(data.insert(stop_id, StopData { exchange_priority, ..stop })),
            },
        },
    }
}

/// The accumulator of the decoder.
pub struct ExchangePrioritySink {
    data: FxHashMap<i32, Stop>,
}

impl RecordSink for ExchangePrioritySink {
    type State = Map<i32, StopData>;

    closed spec fn state(&self) -> Map<i32, StopData> {
        entity_views(self.data@)
    }

    open spec fn step(state: Map<i32, StopData>, record: Record) -> Result<
        Map<i32, StopData>,
        Failure,
    > {
        with_exchange_priority(state, record.2)
    }

    fn accept(&mut self, row: ParsedRow) -> (result: Result<(), ParseError>) {
        set_exchange_priority(row.2, &mut self.data)
    }
}

/// Reads the file of exchange priorities and gives the stops theirs.
pub fn parse(content: &[u8], data: &mut FxHashMap<i32, Stop>) -> (result: Result<(), ParseError>)
    ensures
        match result {
            Ok(()) => decoded_file::<ExchangePrioritySink>(
                exchange_priority_rows(),
                content@,
                0,
                entity_views(old(data)@),
            ) == Ok::<Map<i32, StopData>, Failure>(entity_views(final(data)@)),
            Err(e) => decoded_file::<ExchangePrioritySink>(
                exchange_priority_rows(),
                content@,
                0,
                entity_views(old(data)@),
            ) == Err::<Map<i32, StopData>, Failure>(e@),
        },
{
    ExchangePriorityParser::new().parse(content, data)
}

/// Gives the stop that a row names its exchange priority.
pub fn set_exchange_priority(values: Vec<ParsedValue>, data: &mut FxHashMap<i32, Stop>) -> (result:
    Result<(), ParseError>)
    ensures
        match result {
            Ok(()) => with_exchange_priority(entity_views(old(data)@), value_views(values@))
                == Ok::<Map<i32, StopData>, Failure>(entity_views(final(data)@)),
            Err(e) => with_exchange_priority(entity_views(old(data)@), value_views(values@))
                == Err::<Map<i32, StopData>, Failure>(e@),
        },
{
    let stop_id = value_i32(&values, 0)?;
    let exchange_priority = value_i16(&values, 1)?;
    proof {
        lemma_views_of_entry(data@, stop_id);
    }
    match take(data, stop_id) {
        None => Err(ParseError::UnknownId),
        Some(mut stop) => {
            stop.set_exchange_priority(exchange_priority);
            proof {
                lemma_views_after_insert(old(data)@, stop_id, stop);
            }
            store(data, stop_id, stop);
            Ok(())
        },
    }
}

} // verus!
