//! Directions: where a journey is headed.
//!
//! A line gives the key of a direction, seven characters long, and after some
//! blanks the name of the stop that the direction leads to:
//!
//! `R000011 Esslingen`
//!
//! The identifier of a direction is the number that follows the first
//! character of its key.
//!
//! File read by the decoder: RICHTUNG

use vstd::prelude::*;
use rustc_hash::FxHashMap;
use crate::grammar::{capture, skip, Grammar, Token};
use crate::models::{Direction, DirectionData};
use crate::parsing::file_parser::{
    decode,
    decoded_file,
    feed,
    folded_all,
    records,
    FileParser,
    RecordSink,
};
use crate::parsing::{
    read_text,
    row,
    value_text,
    value_views,
    ExpectedType,
    Failure,
    ParseError,
    ParsedRow,
    ParsedValue,
    Record,
    RowParser,
    RowShape,
    TypedValue,
};
use crate::storage::{
    entity_views,
    legacy_ids,
    lemma_views_after_insert,
    lemma_views_of_empty,
    new_legacy_table,
    new_table,
    register_legacy_key,
    store,
};
use crate::text::{i32_value, text_to_i32};

verus! {

/// The one shape of row in the file.
pub open spec fn direction_rows() -> Seq<RowShape> {
    seq![
        RowShape {
            id: 0,
            columns: seq![ExpectedType::String, ExpectedType::String],
            steps: seq![capture(Token::Take(7)), skip(Token::Space1), capture(Token::Rest)],
            whole: false,
        },
    ]
}

/// The decoder of the file of directions.
pub struct DirectionParser {
    file: String,
    row_parser: RowParser,
}

impl DirectionParser {
    fn get_parser_1() -> (grammar: Grammar)
        ensures
            grammar.steps@ == direction_rows()[0].steps,
            !grammar.whole,
    {
        let steps = vec![capture(Token::Take(7)), skip(Token::Space1), capture(Token::Rest)];
        assert(steps@ =~= direction_rows()[0].steps);
        Grammar::new(steps)
    }

    pub fn new() -> (parser: Self)
        ensures
            parser.shapes() == direction_rows(),
            parser.file_name() == "RICHTUNG"@,
    {
        let kinds = vec![ExpectedType::String, ExpectedType::String];
        assert(kinds@ =~= direction_rows()[0].columns);
        let rows = vec![row(0, kinds, Self::get_parser_1())];
        let row_parser = RowParser::new(rows);
        assert(row_parser@ =~= direction_rows());
        Self { file: "RICHTUNG".to_owned(), row_parser }
    }

    /// The shapes of row that the decoder knows.
    pub closed spec fn shapes(&self) -> Seq<RowShape> {
        self.row_parser@
    }

    /// The name of the file that the decoder reads.
    pub closed spec fn file_name(&self) -> Seq<char> {
        self.file@
    }

    /// The name of the file that the decoder reads.
    pub fn file(&self) -> (name: &String)
        ensures
            name@ == self.file_name(),
    {
        &self.file
    }

    /// The classifier of the file's rows.
    pub fn row_parser(&self) -> (row_parser: &RowParser)
        ensures
            row_parser@ == self.shapes(),
    {
        &self.row_parser
    }

    /// Decodes the content of the file.
    pub fn parse(&self, content: &[u8]) -> (result: Result<
        (FxHashMap<i32, Direction>, FxHashMap<String, i32>),
        ParseError,
    >)
        ensures
            match result {
                Ok(tables) => decoded_file::<DirectionSink>(
                    self.shapes(),
                    content@,
                    0,
                    Directions::none(),
                ) == Ok::<Directions, Failure>(
                    Directions { data: entity_views(tables.0@), ids: legacy_ids(tables.1) },
                ),
                Err(e) => decoded_file::<DirectionSink>(
                    self.shapes(),
                    content@,
                    0,
                    Directions::none(),
                ) == Err::<Directions, Failure>(e@),
            },
    {
        let mut sink = DirectionSink::new();
        decode(content, 0, &self.row_parser, &mut sink)?;
        Ok((sink.data, sink.ids))
    }
}

/// What the decoder has accumulated: the directions by identifier, and the
/// identifiers by legacy key.
pub ghost struct Directions {
    pub data: Map<i32, DirectionData>,
    pub ids: Map<Seq<char>, i32>,
}

impl Directions {
    /// Nothing accumulated yet.
    pub open spec fn none() -> Directions {
        Directions { data: Map::empty(), ids: Map::empty() }
    }
}

/// A text without its first character.
pub open spec fn without_first_char(text: Seq<char>) -> Seq<char> {
    if text.len() == 0 {
        text
    } else {
        text.drop_first()
    }
}

/// The direction that a row gives.
pub open spec fn direction_of(values: Seq<TypedValue>) -> Result<DirectionData, Failure> {
    match read_text(values, 0) {
        Err(failure) => Err(failure),
        Ok(legacy_id) => match read_text(values, 1) {
            Err(failure) => Err(failure),
            Ok(name) => match i32_value(without_first_char(legacy_id)) {
                None => Err(
                    Failure::InvalidValue { column: 0, text: without_first_char(legacy_id) },
                ),
                Some(id) => Ok(DirectionData { id, name }),
            },
        },
    }
}

/// What one more row makes of the accumulated directions: the direction is
/// stored under its identifier, and its key resolves to that identifier.
pub open spec fn with_direction(state: Directions, values: Seq<TypedValue>) -> Result<
    Directions,
    Failure,
> {
    match direction_of(values) {
        Err(failure) => Err(failure),
        Ok(direction) => Ok(
            Directions {
                data: state.data.insert(direction.id, direction),
                ids: state.ids.insert(read_text(values, 0)->Ok_0, direction.id),
            },
        ),
    }
}

/// The accumulator of the decoder.
pub struct DirectionSink {
    data: FxHashMap<i32, Direction>,
    ids: FxHashMap<String, i32>,
}

impl DirectionSink {
    /// An accumulator that holds nothing yet.
    pub fn new() -> (sink: Self)
        ensures
            sink.state() == Directions::none(),
    {
        proof {
            lemma_views_of_empty::<Direction>();
        }
        DirectionSink { data: new_table(), ids: new_legacy_table() }
    }
}

impl RecordSink for DirectionSink {
    type State = Directions;

    closed spec fn state(&self) -> Directions {
        Directions { data: entity_views(self.data@), ids: legacy_ids(self.ids) }
    }

    open spec fn step(state: Directions, record: Record) -> Result<Directions, Failure> {
        with_direction(state, record.2)
    }

    fn accept(&mut self, row: ParsedRow) -> (result: Result<(), ParseError>) {
        let direction = create_instance(row.2, &mut self.ids)?;
        let id = direction.id();
        proof {
            lemma_views_after_insert(self.data@, id, direction);
        }
        store(&mut self.data, id, direction);
        Ok(())
    }
}

/// Decodes the rows of a file of directions.
pub fn row_converter(parser: FileParser) -> (result: Result<
    (FxHashMap<i32, Direction>, FxHashMap<String, i32>),
    ParseError,
>)
    ensures
        match result {
            Ok(tables) => folded_all::<DirectionSink>(
                records(parser.shapes(), parser.lines()),
                Directions::none(),
            ) == Ok::<Directions, Failure>(
                Directions { data: entity_views(tables.0@), ids: legacy_ids(tables.1) },
            ),
            Err(e) => folded_all::<DirectionSink>(
                records(parser.shapes(), parser.lines()),
                Directions::none(),
            ) == Err::<Directions, Failure>(e@),
        },
{
    let mut sink = DirectionSink::new();
    feed(&parser, &mut sink)?;
    Ok((sink.data, sink.ids))
}

/// Builds the direction of a row and registers its key.
pub fn create_instance(values: Vec<ParsedValue>, pk_type_converter: &mut FxHashMap<String, i32>) -> (result:
    Result<Direction, ParseError>)
    ensures
        match result {
            Ok(direction) => direction_of(value_views(values@)) == Ok::<DirectionData, Failure>(
                direction@,
            ) && legacy_ids(*final(pk_type_converter)) == legacy_ids(
                *old(pk_type_converter),
            ).insert(read_text(value_views(values@), 0)->Ok_0, direction@.id),
            Err(e) => direction_of(value_views(values@)) == Err::<DirectionData, Failure>(e@)
                && legacy_ids(*final(pk_type_converter)) == legacy_ids(*old(pk_type_converter)),
        },
{
    let (legacy_id, name) = row_from_parsed_values(&values)?;
    let number = remove_first_char(legacy_id.as_str());
    match text_to_i32(number) {
        None => Err(ParseError::InvalidValue { column: 0, text: number.to_owned() }),
        Some(id) => {
            register_legacy_key(pk_type_converter, legacy_id, id);
            Ok(Direction::new(id, name))
        },
    }
}

/// Decodes the content of a file of directions.
pub fn parse(content: &[u8]) -> (result: Result<
    (FxHashMap<i32, Direction>, FxHashMap<String, i32>),
    ParseError,
>)
    ensures
        match result {
            Ok(tables) => decoded_file::<DirectionSink>(
                direction_rows(),
                content@,
                0,
                Directions::none(),
            ) == Ok::<Directions, Failure>(
                Directions { data: entity_views(tables.0@), ids: legacy_ids(tables.1) },
            ),
            Err(e) => decoded_file::<DirectionSink>(
                direction_rows(),
                content@,
                0,
                Directions::none(),
            ) == Err::<Directions, Failure>(e@),
        },
{
    DirectionParser::new().parse(content)
}

/// The key and the name that a row holds.
pub fn row_from_parsed_values(values: &Vec<ParsedValue>) -> (result: Result<
    (String, String),
    ParseError,
>)
    ensures
        match result {
            Ok(pair) => read_text(value_views(values@), 0) == Ok::<
                Seq<char>,
                Failure,
            >(pair.0@) && read_text(value_views(values@), 1) == Ok::<
                Seq<char>,
                Failure,
            >(pair.1@),
            Err(e) => match read_text(value_views(values@), 0) {
                Err(failure) => failure == e@,
                Ok(_) => read_text(value_views(values@), 1) == Err::<
                    Seq<char>,
                    Failure,
                >(e@),
            },
        },
{
    let legacy_id = value_text(values, 0)?;
    let name = value_text(values, 1)?;
    Ok((legacy_id, name))
}

/// A text without its first character; the empty text stays empty.
pub fn remove_first_char(value: &str) -> (rest: &str)
    ensures
        rest@ == without_first_char(value@),
{
    let len = value.unicode_len();
    if len == 0 {
        return value;
    }
    let rest = value.substring_char(1, len);
    assert(value@.subrange(1, len as int) =~= value@.drop_first());
    rest
}

} // verus!
