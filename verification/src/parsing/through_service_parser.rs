//! Through services: two journeys that one vehicle serves in a row.
//!
//! A line gives number and administration of the first journey and its last
//! stop, number and administration of the second journey, the days on which
//! the vehicle goes through, and the first stop of the second journey:
//!
//! `000001 000871 8576671 024064 000871 000001 8576671`
//!
//! File read by the decoder: DURCHBI

use vstd::prelude::*;
use rustc_hash::{FxHashMap, FxHashSet};
use crate::grammar::{capture, skip, Grammar, Token};
use crate::models::{ThroughService, ThroughServiceData};
use crate::parsing::file_parser::{
    decode,
    decoded_file,
    feed,
    folded_all,
    records,
    FileParser,
    RecordSink,
};
use crate::parsing::{
    read_i32,
    read_text,
    row,
    value_i32,
    value_text,
    value_views,
    ExpectedType,
    Failure,
    ParseError,
    ParsedRow,
    ParsedValue,
    Record,
    RowDefinition,
    RowParser,
    RowShape,
    TypedValue,
};
use crate::storage::{
    entity_views,
    is_known_journey,
    journey_keys,
    lemma_views_after_insert,
    lemma_views_of_empty,
    new_table,
    store,
};
use crate::utils::AutoIncrement;

verus! {

/// The shapes of row in the file, in the order in which they are tried.
pub open spec fn through_service_rows() -> Seq<RowShape> {
    seq![
        RowShape {
            id: 0,
            columns: seq![
                ExpectedType::Integer32,
                ExpectedType::String,
                ExpectedType::Integer32,
                ExpectedType::Integer32,
                ExpectedType::String,
                ExpectedType::Integer32,
                ExpectedType::Integer32,
            ],
            steps: seq![
                capture(Token::Take(6)),
                skip(Token::Space1),
                capture(Token::Take(6)),
                skip(Token::Space1),
                capture(Token::Take(7)),
                skip(Token::Space1),
                capture(Token::Take(6)),
                skip(Token::Space1),
                capture(Token::Take(6)),
                skip(Token::Space1),
                capture(Token::Take(6)),
                skip(Token::Space1),
                capture(Token::Take(7)),
            ],
            whole: false,
        },
    ]
}

/// The decoder of the file of through services.
pub struct ThroughServiceParser {
    file: String,
    row_parser: RowParser,
}

impl ThroughServiceParser {
    fn get_parser_1() -> (grammar: Grammar)
        ensures
            grammar.steps@ == seq![
                capture(Token::Take(6)),
                skip(Token::Space1),
                capture(Token::Take(6)),
                skip(Token::Space1),
                capture(Token::Take(7)),
                skip(Token::Space1),
                capture(Token::Take(6)),
                skip(Token::Space1),
                capture(Token::Take(6)),
                skip(Token::Space1),
                capture(Token::Take(6)),
                skip(Token::Space1),
                capture(Token::Take(7)),
            ],
            !grammar.whole,
    {
        let steps = vec![
            capture(Token::Take(6)),
            skip(Token::Space1),
            capture(Token::Take(6)),
            skip(Token::Space1),
            capture(Token::Take(7)),
            skip(Token::Space1),
            capture(Token::Take(6)),
            skip(Token::Space1),
            capture(Token::Take(6)),
            skip(Token::Space1),
            capture(Token::Take(6)),
            skip(Token::Space1),
            capture(Token::Take(7)),
        ];
        assert(steps@ =~= seq![
            capture(Token::Take(6)),
            skip(Token::Space1),
            capture(Token::Take(6)),
            skip(Token::Space1),
            capture(Token::Take(7)),
            skip(Token::Space1),
            capture(Token::Take(6)),
            skip(Token::Space1),
            capture(Token::Take(6)),
            skip(Token::Space1),
            capture(Token::Take(6)),
            skip(Token::Space1),
            capture(Token::Take(7)),
        ]);
        Grammar::new(steps)
    }

    pub fn new() -> (parser: Self)
        ensures
            parser.shapes() == through_service_rows(),
            parser.file_name() == "DURCHBI"@,
    {
        let row_parser = {
            let mut rows: Vec<RowDefinition> = Vec::new();
            let kinds = vec![
                ExpectedType::Integer32,
                ExpectedType::String,
                ExpectedType::Integer32,
                ExpectedType::Integer32,
                ExpectedType::String,
                ExpectedType::Integer32,
                ExpectedType::Integer32,
            ];
            assert(kinds@ =~= through_service_rows()[0].columns);
            rows.push(row(0, kinds, Self::get_parser_1()));
            let row_parser = RowParser::new(rows);
            assert(row_parser@ =~= through_service_rows());
            row_parser
        };
        Self { file: "DURCHBI".to_owned(), row_parser }
    }

    /// The shapes of row that the decoder knows.
    pub closed spec fn shapes(&self) -> Seq<RowShape> {
        self.row_parser@
    }

    /// The name of the file that the decoder reads.
    pub closed spec fn file_name(&self) -> Seq<char> {
        self.file@
    }

    /// The name of the file that the decoder reads.
    pub fn file(&self) -> (name: &String)
        ensures
            name@ == self.file_name(),
    {
        &self.file
    }

    /// The classifier of the rows.
    pub fn row_parser(&self) -> (row_parser: &RowParser)
        ensures
            row_parser@ == self.shapes(),
    {
        &self.row_parser
    }

    /// Decodes the content of the file. The journeys that the rows refer to
    /// must be among `journeys`.
    pub fn parse(&self, content: &[u8], journeys_pk_type_converter: &FxHashSet<(i32, String)>) -> (result:
        Result<FxHashMap<i32, ThroughService>, ParseError>)
        ensures
            match result {
                Ok(data) => decoded_file::<ThroughServiceSink>(
                    self.shapes(),
                    content@,
                    0,
                    ThroughServices::none(journey_keys(*journeys_pk_type_converter)),
                ) matches Ok(state) && state.data == entity_views(data@),
                Err(e) => decoded_file::<ThroughServiceSink>(
                    self.shapes(),
                    content@,
                    0,
                    ThroughServices::none(journey_keys(*journeys_pk_type_converter)),
                ) == Err::<ThroughServices, Failure>(e@),
            },
    {
        let mut sink = ThroughServiceSink::new(journeys_pk_type_converter);
        decode(content, 0, &self.row_parser, &mut sink)?;
        Ok(sink.data)
    }
}

/// What the decoder has accumulated: the through services by identifier, the
/// number of identifiers handed out, and the journeys that are known.
pub ghost struct ThroughServices {
    pub data: Map<i32, ThroughServiceData>,
    pub issued: nat,
    pub journeys: Set<(i32, Seq<char>)>,
}

impl ThroughServices {
    /// Nothing accumulated yet.
    pub open spec fn none(journeys: Set<(i32, Seq<char>)>) -> ThroughServices {
        ThroughServices { data: Map::empty(), issued: 0, journeys }
    }
}

/// The through service that a row gives under an identifier. Both journeys
/// must be known.
pub open spec fn through_service_of(
    values: Seq<TypedValue>,
    journeys: Set<(i32, Seq<char>)>,
    id: i32,
) -> Result<ThroughServiceData, Failure> {
    match read_i32(values, 0) {
        Err(failure) => Err(failure),
        Ok(journey_1_id) => match read_text(values, 1) {
            Err(failure) => Err(failure),
            Ok(journey_1_administration) => match read_i32(values, 2) {
                Err(failure) => Err(failure),
                Ok(journey_1_stop_id) => match read_i32(values, 3) {
                    Err(failure) => Err(failure),
                    Ok(journey_2_id) => match read_text(values, 4) {
                        Err(failure) => Err(failure),
                        Ok(journey_2_administration) => match read_i32(values, 5) {
                            Err(failure) => Err(failure),
                            Ok(bit_field_id) => match read_i32(values, 6) {
                                Err(failure) => Err(failure),
                                Ok(journey_2_stop_id) => if !journeys.contains(
                                    (journey_1_id, journey_1_administration),
                                ) || !journeys.contains((journey_2_id, journey_2_administration)) {
                                    Err(Failure::UnknownLegacyId)
                                } else {
                                    Ok(
                                        ThroughServiceData {
                                            id,
                                            journey_1_id: (journey_1_id, journey_1_administration),
                                            journey_1_stop_id,
                                            journey_2_id: (journey_2_id, journey_2_administration),
                                            journey_2_stop_id,
                                            bit_field_id,
                                        },
                                    )
                                },
                            },
                        },
                    },
                },
            },
        },
    }
}

/// The through service that a row gives when `issued` identifiers were
/// handed out before it: it gets the next one.
pub open spec fn through_service_in_row(
    values: Seq<TypedValue>,
    journeys: Set<(i32, Seq<char>)>,
    issued: nat,
) -> Result<ThroughServiceData, Failure> {
    match through_service_of(values, journeys, (issued + 1) as i32) {
        Err(failure) => Err(failure),
        Ok(through_service) => if issued >= i32::MAX {
            Err(Failure::IdentifiersExhausted)
        } else {
            Ok(through_service)
        },
    }
}

/// What one more row makes of the accumulated through services.
pub open spec fn with_row(state: ThroughServices, values: Seq<TypedValue>) -> Result<
    ThroughServices,
    Failure,
> {
    match through_service_in_row(values, state.journeys, state.issued) {
        Err(failure) => Err(failure),
        Ok(through_service) => Ok(
            ThroughServices {
                data: state.data.insert(through_service.id, through_service),
                issued: state.issued + 1,
                ..state
            },
        ),
    }
}

/// The accumulator of the decoder.
pub struct ThroughServiceSink<'a> {
    data: FxHashMap<i32, ThroughService>,
    auto_increment: AutoIncrement,
    journeys: &'a FxHashSet<(i32, String)>,
}

impl<'a> ThroughServiceSink<'a> {
    /// An accumulator that holds nothing yet.
    pub fn new(journeys: &'a FxHashSet<(i32, String)>) -> (sink: Self)
        ensures
            sink.state() == ThroughServices::none(journey_keys(*journeys)),
    {
        proof {
            lemma_views_of_empty::<ThroughService>();
        }
        ThroughServiceSink { data: new_table(), auto_increment: AutoIncrement::new(), journeys }
    }
}

impl<'a> RecordSink for ThroughServiceSink<'a> {
    type State = ThroughServices;

    closed spec fn state(&self) -> ThroughServices {
        ThroughServices {
            data: entity_views(self.data@),
            issued: self.auto_increment.issued(),
            journeys: journey_keys(*self.journeys),
        }
    }

    open spec fn step(state: ThroughServices, record: Record) -> Result<ThroughServices, Failure> {
        with_row(state, record.2)
    }

    fn accept(&mut self, row: ParsedRow) -> (result: Result<(), ParseError>) {
        let through_service = create_instance(row.2, &mut self.auto_increment, self.journeys)?;
        let id = through_service.id();
        proof {
            lemma_views_after_insert(self.data@, id, through_service);
        }
        store(&mut self.data, id, through_service);
        Ok(())
    }
}

/// Turns the rows of a file into through services.
pub fn row_converter(parser: FileParser, journeys_pk_type_converter: &FxHashSet<(i32, String)>) -> (result:
    Result<FxHashMap<i32, ThroughService>, ParseError>)
    ensures
        match result {
            Ok(data) => folded_all::<ThroughServiceSink>(
                records(parser.shapes(), parser.lines()),
                ThroughServices::none(journey_keys(*journeys_pk_type_converter)),
            ) matches Ok(state) && state.data == entity_views(data@),
            Err(e) => folded_all::<ThroughServiceSink>(
                records(parser.shapes(), parser.lines()),
                ThroughServices::none(journey_keys(*journeys_pk_type_converter)),
            ) == Err::<ThroughServices, Failure>(e@),
        },
{
    let mut sink = ThroughServiceSink::new(journeys_pk_type_converter);
    feed(&parser, &mut sink)?;
    Ok(sink.data)
}

/// Builds the through service of a row, with the next identifier.
pub fn create_instance(
    values: Vec<ParsedValue>,
    auto_increment: &mut AutoIncrement,
    journeys_pk_type_converter: &FxHashSet<(i32, String)>,
) -> (result: Result<ThroughService, ParseError>)
    ensures
        match result {
            Ok(through_service) => through_service_in_row(
                value_views(values@),
                journey_keys(*journeys_pk_type_converter),
                old(auto_increment).issued(),
            ) == Ok::<ThroughServiceData, Failure>(through_service@)
                && final(auto_increment).issued() == old(auto_increment).issued() + 1,
            Err(e) => through_service_in_row(
                value_views(values@),
                journey_keys(*journeys_pk_type_converter),
                old(auto_increment).issued(),
            ) == Err::<ThroughServiceData, Failure>(e@),
        },
{
    let journey_1_id = value_i32(&values, 0)?;
    let journey_1_administration = value_text(&values, 1)?;
    let journey_1_stop_id = value_i32(&values, 2)?;
    let journey_2_id = value_i32(&values, 3)?;
    let journey_2_administration = value_text(&values, 4)?;
    let bit_field_id = value_i32(&values, 5)?;
    let journey_2_stop_id = value_i32(&values, 6)?;
    if !is_known_journey(journeys_pk_type_converter, journey_1_id, &journey_1_administration) {
        return Err(ParseError::UnknownLegacyId);
    }
    if !is_known_journey(journeys_pk_type_converter, journey_2_id, &journey_2_administration) {
        return Err(ParseError::UnknownLegacyId);
    }
    if !auto_increment.has_next() {
        return Err(ParseError::IdentifiersExhausted);
    }
    Ok(
        ThroughService::new(
            auto_increment.next(),
            (journey_1_id, journey_1_administration),
            journey_1_stop_id,
            (journey_2_id, journey_2_administration),
            journey_2_stop_id,
            bit_field_id,
        ),
    )
}

/// Decodes the content of a file of through services.
pub fn parse(content: &[u8], journeys_pk_type_converter: &FxHashSet<(i32, String)>) -> (result:
    Result<FxHashMap<i32, ThroughService>, ParseError>)
    ensures
        match result {
            Ok(data) => decoded_file::<ThroughServiceSink>(
                through_service_rows(),
                content@,
                0,
                ThroughServices::none(journey_keys(*journeys_pk_type_converter)),
            ) matches Ok(state) && state.data == entity_views(data@),
            Err(e) => decoded_file::<ThroughServiceSink>(
                through_service_rows(),
                content@,
                0,
                ThroughServices::none(journey_keys(*journeys_pk_type_converter)),
            ) == Err::<ThroughServices, Failure>(e@),
        },
{
    ThroughServiceParser::new().parse(content, journeys_pk_type_converter)
}

} // verus!
