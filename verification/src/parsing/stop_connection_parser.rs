//! Walks between stops.
//!
//! A line gives two stops and the minutes needed to walk from the first to
//! the second; the lines that follow it give the attributes of the walk:
//!
//! `8500010 8578143 009`
//! `# Y`
//!
//! Lines that group stops under a common name are passed over.
//!
//! File read by the decoder: METABHF

use vstd::prelude::*;
use rustc_hash::FxHashMap;
use crate::grammar::{capture, skip, Grammar, Token};
use crate::models::{StopConnection, StopConnectionData};
use crate::parsing::file_parser::{
    decode,
    decoded_file,
    feed,
    folded_all,
    records,
    FileParser,
    RecordSink,
};
use crate::parsing::{
    read_i16,
    read_i32,
    read_text,
    row,
    value_i16,
    value_i32,
    value_text,
    value_views,
    ExpectedType,
    Failure,
    ParseError,
    ParsedRow,
    ParsedValue,
    Record,
    RowDefinition,
    RowParser,
    RowShape,
    TypedValue,
};
use crate::storage::{
    entity_views,
    legacy_ids,
    lemma_views_after_insert,
    lemma_views_of_empty,
    lemma_views_of_entry,
    new_table,
    resolve_legacy_key,
    store,
    take,
};
use crate::utils::AutoIncrement;

verus! {

/// A walk.
pub const ROW_A: i32 = 1;

/// An attribute of the walk before it.
pub const ROW_B: i32 = 2;

/// A group of stops.
pub const ROW_C: i32 = 3;

/// The shapes of row in the file, in the order in which they are tried.
pub open spec fn stop_connection_rows() -> Seq<RowShape> {
    seq![
        RowShape {
            id: ROW_A,
            columns: seq![
                ExpectedType::Integer32,
                ExpectedType::Integer32,
                ExpectedType::Integer16,
            ],
            steps: seq![
                capture(Token::Take(7)),
                skip(Token::Space1),
                capture(Token::Take(7)),
                skip(Token::Space1),
                capture(Token::Take(3)),
            ],
            whole: false,
        },
        RowShape {
            id: ROW_B,
            columns: seq![
                ExpectedType::String,
            ],
            steps: seq![
                skip(Token::Tag("#")),
                skip(Token::Space1),
                capture(Token::Take(2)),
            ],
            whole: false,
        },
        RowShape {
            id: ROW_C,
            columns: Seq::empty(),
            steps: seq![
                skip(Token::Take(7)),
                skip(Token::Tag(":")),
            ],
            whole: false,
        },
    ]
}

/// The decoder of the file of walks between stops.
pub struct StopConnectionParser {
    file: String,
    row_parser: RowParser,
}

impl StopConnectionParser {
    fn get_parser_1() -> (grammar: Grammar)
        ensures
            grammar.steps@ == seq![
                capture(Token::Take(7)),
                skip(Token::Space1),
                capture(Token::Take(7)),
                skip(Token::Space1),
                capture(Token::Take(3)),
            ],
            !grammar.whole,
    {
        let steps = vec![
            capture(Token::Take(7)),
            skip(Token::Space1),
            capture(Token::Take(7)),
            skip(Token::Space1),
            capture(Token::Take(3)),
        ];
        assert(steps@ =~= seq![
            capture(Token::Take(7)),
            skip(Token::Space1),
            capture(Token::Take(7)),
            skip(Token::Space1),
            capture(Token::Take(3)),
        ]);
        Grammar::new(steps)
    }

    fn get_parser_2() -> (grammar: Grammar)
        ensures
            grammar.steps@ == seq![
                skip(Token::Tag("#")),
                skip(Token::Space1),
                capture(Token::Take(2)),
            ],
            !grammar.whole,
    {
        let steps = vec![
            skip(Token::Tag("#")),
            skip(Token::Space1),
            capture(Token::Take(2)),
        ];
        assert(steps@ =~= seq![
            skip(Token::Tag("#")),
            skip(Token::Space1),
            capture(Token::Take(2)),
        ]);
        Grammar::new(steps)
    }

    fn get_parser_3() -> (grammar: Grammar)
        ensures
            grammar.steps@ == seq![
                skip(Token::Take(7)),
                skip(Token::Tag(":")),
            ],
            !grammar.whole,
    {
        let steps = vec![
            skip(Token::Take(7)),
            skip(Token::Tag(":")),
        ];
        assert(steps@ =~= seq![
            skip(Token::Take(7)),
            skip(Token::Tag(":")),
        ]);
        Grammar::new(steps)
    }

    pub fn new() -> (parser: Self)
        ensures
            parser.shapes() == stop_connection_rows(),
            parser.file_name() == "METABHF"@,
    {
        let row_parser = {
            let mut rows: Vec<RowDefinition> = Vec::new();
            let kinds = vec![
                ExpectedType::Integer32,
                ExpectedType::Integer32,
                ExpectedType::Integer16,
            ];
            assert(kinds@ =~= stop_connection_rows()[0].columns);
            rows.push(row(ROW_A, kinds, Self::get_parser_1()));
            let kinds = vec![
                ExpectedType::String,
            ];
            assert(kinds@ =~= stop_connection_rows()[1].columns);
            rows.push(row(ROW_B, kinds, Self::get_parser_2()));
            let kinds: Vec<ExpectedType> = Vec::new();
            assert(kinds@ =~= stop_connection_rows()[2].columns);
            rows.push(row(ROW_C, kinds, Self::get_parser_3()));
            let row_parser = RowParser::new(rows);
            assert(row_parser@ =~= stop_connection_rows());
            row_parser
        };
        Self { file: "METABHF".to_owned(), row_parser }
    }

    /// The shapes of row that the decoder knows.
    pub closed spec fn shapes(&self) -> Seq<RowShape> {
        self.row_parser@
    }

    /// The name of the file that the decoder reads.
    pub closed spec fn file_name(&self) -> Seq<char> {
        self.file@
    }

    /// The name of the file that the decoder reads.
    pub fn file(&self) -> (name: &String)
        ensures
            name@ == self.file_name(),
    {
        &self.file
    }

    /// The classifier of the rows.
    pub fn row_parser(&self) -> (row_parser: &RowParser)
        ensures
            row_parser@ == self.shapes(),
    {
        &self.row_parser
    }

    /// Turns the rows of a file into walks. The attributes that the rows
    /// name must be registered in `attributes`.
    pub fn row_converter(
        &self,
        parser: FileParser,
        attributes_pk_type_converter: &FxHashMap<String, i32>,
    ) -> (result: Result<FxHashMap<i32, StopConnection>, ParseError>)
        ensures
            match result {
                Ok(data) => folded_all::<StopConnectionSink>(
                    records(parser.shapes(), parser.lines()),
                    StopConnections::none(legacy_ids(*attributes_pk_type_converter)),
                ) matches Ok(state) && state.data == entity_views(data@),
                Err(e) => folded_all::<StopConnectionSink>(
                    records(parser.shapes(), parser.lines()),
                    StopConnections::none(legacy_ids(*attributes_pk_type_converter)),
                ) == Err::<StopConnections, Failure>(e@),
            },
    {
        let mut sink = StopConnectionSink::new(attributes_pk_type_converter);
        feed(&parser, &mut sink)?;
        Ok(sink.data)
    }

    /// Decodes the content of the file. The attributes that the rows name
    /// must be registered in `attributes`.
    pub fn parse(&self, content: &[u8], attributes_pk_type_converter: &FxHashMap<String, i32>) -> (result:
        Result<FxHashMap<i32, StopConnection>, ParseError>)
        ensures
            match result {
                Ok(data) => decoded_file::<StopConnectionSink>(
                    self.shapes(),
                    content@,
                    0,
                    StopConnections::none(legacy_ids(*attributes_pk_type_converter)),
                ) matches Ok(state) && state.data == entity_views(data@),
                Err(e) => decoded_file::<StopConnectionSink>(
                    self.shapes(),
                    content@,
                    0,
                    StopConnections::none(legacy_ids(*attributes_pk_type_converter)),
                ) == Err::<StopConnections, Failure>(e@),
            },
    {
        let mut sink = StopConnectionSink::new(attributes_pk_type_converter);
        decode(content, 0, &self.row_parser, &mut sink)?;
        Ok(sink.data)
    }
}

/// What the decoder has accumulated: the walks by identifier, the number of
/// identifiers handed out, which is the identifier of the latest walk, and
/// the identifiers of the attributes by their codes.
pub ghost struct StopConnections {
    pub data: Map<i32, StopConnectionData>,
    pub issued: nat,
    pub attributes: Map<Seq<char>, i32>,
}

impl StopConnections {
    /// Nothing accumulated yet.
    pub open spec fn none(attributes: Map<Seq<char>, i32>) -> StopConnections {
        StopConnections { data: Map::empty(), issued: 0, attributes }
    }
}

/// The walk that a row gives when `issued` identifiers were handed out
/// before it: it gets the next one.
pub open spec fn stop_connection_in_row(values: Seq<TypedValue>, issued: nat) -> Result<
    StopConnectionData,
    Failure,
> {
    match read_i32(values, 0) {
        Err(failure) => Err(failure),
        Ok(stop_id_1) => match read_i32(values, 1) {
            Err(failure) => Err(failure),
            Ok(stop_id_2) => match read_i16(values, 2) {
                Err(failure) => Err(failure),
                Ok(duration) => if issued >= i32::MAX {
                    Err(Failure::IdentifiersExhausted)
                } else {
                    Ok(
                        StopConnectionData {
                            id: (issued + 1) as i32,
                            stop_id_1,
                            stop_id_2,
                            duration,
                            attribute: 0,
                        },
                    )
                },
            },
        },
    }
}

/// The latest walk with the attribute that a row names.
pub open spec fn with_attribute(
    latest: StopConnectionData,
    values: Seq<TypedValue>,
    attributes: Map<Seq<char>, i32>,
) -> Result<StopConnectionData, Failure> {
    match read_text(values, 0) {
        Err(failure) => Err(failure),
        Ok(designation) => match attributes.get(designation) {
            None => Err(Failure::UnknownLegacyId),
            Some(attribute) => Ok(StopConnectionData { attribute, ..latest }),
        },
    }
}

/// What one more record makes of the accumulated walks. A row that is no
/// walk needs a walk before it.
pub open spec fn with_record(state: StopConnections, record: Record) -> Result<
    StopConnections,
    Failure,
> {
    if record.0 == ROW_A {
        match stop_connection_in_row(record.2, state.issued) {
            Err(failure) => Err(failure),
            Ok(stop_connection) => Ok(
                StopConnections {
                    data: state.data.insert(stop_connection.id, stop_connection),
                    issued: state.issued + 1,
                    ..state
                },
            ),
        }
    } else {
        match state.data.get(state.issued as i32) {
            None => Err(Failure::MissingParentRow),
            Some(latest) => if record.0 == ROW_B {
                match with_attribute(latest, record.2, state.attributes) {
                    Err(failure) => Err(failure),
                    Ok(changed) => Ok(
                        StopConnections {
                            data: state.data.insert(state.issued as i32, changed),
                            ..state
                        },
                    ),
                }
            } else if record.0 == ROW_C {
                Ok(state)
            } else {
                Err(Failure::UnexpectedRow)
            },
        }
    }
}

/// The accumulator of the decoder.
pub struct StopConnectionSink<'a> {
    data: FxHashMap<i32, StopConnection>,
    auto_increment: AutoIncrement,
    attributes: &'a FxHashMap<String, i32>,
}

impl<'a> StopConnectionSink<'a> {
    /// An accumulator that holds nothing yet.
    pub fn new(attributes: &'a FxHashMap<String, i32>) -> (sink: Self)
        ensures
            sink.state() == StopConnections::none(legacy_ids(*attributes)),
    {
        proof {
            lemma_views_of_empty::<StopConnection>();
        }
        StopConnectionSink {
            data: new_table(),
            auto_increment: AutoIncrement::new(),
            attributes,
        }
    }
}

impl<'a> RecordSink for StopConnectionSink<'a> {
    type State = StopConnections;

    closed spec fn state(&self) -> StopConnections {
        StopConnections {
            data: entity_views(self.data@),
            issued: self.auto_increment.issued(),
            attributes: legacy_ids(*self.attributes),
        }
    }

    open spec fn step(state: StopConnections, record: Record) -> Result<StopConnections, Failure> {
        with_record(state, record)
    }

    fn accept(&mut self, row: ParsedRow) -> (result: Result<(), ParseError>) {
        let (id, _, values) = row;
        if id == ROW_A {
            let stop_connection = create_instance(values, &mut self.auto_increment)?;
            let id = stop_connection.id();
            proof {
                lemma_views_after_insert(self.data@, id, stop_connection);
            }
            store(&mut self.data, id, stop_connection);
            Ok(())
        } else {
            let latest = self.auto_increment.latest();
            proof {
                lemma_views_of_entry(self.data@, latest);
            }
            match take(&mut self.data, latest) {
                None => Err(ParseError::MissingParentRow),
                Some(mut stop_connection) => {
                    let result = if id == ROW_B {
                        set_attribute(values, &mut stop_connection, self.attributes)
                    } else if id == ROW_C {
                        Ok(())
                    } else {
                        Err(ParseError::UnexpectedRow)
                    };
                    proof {
                        lemma_views_after_insert(old(self).data@, latest, stop_connection);
                        if id == ROW_C {
                            assert(entity_views(old(self).data@).insert(latest, stop_connection@)
                                =~= entity_views(old(self).data@));
                        }
                    }
                    store(&mut self.data, latest, stop_connection);
                    result
                },
            }
        }
    }
}

/// Builds the walk of a row, with the next identifier.
pub fn create_instance(values: Vec<ParsedValue>, auto_increment: &mut AutoIncrement) -> (result:
    Result<StopConnection, ParseError>)
    ensures
        match result {
            Ok(stop_connection) => stop_connection_in_row(
                value_views(values@),
                old(auto_increment).issued(),
            ) == Ok::<StopConnectionData, Failure>(stop_connection@)
                && final(auto_increment).issued() == old(auto_increment).issued() + 1,
            Err(e) => stop_connection_in_row(value_views(values@), old(auto_increment).issued())
                == Err::<StopConnectionData, Failure>(e@)
                && final(auto_increment).issued() == old(auto_increment).issued(),
        },
{
    let stop_id_1 = value_i32(&values, 0)?;
    let stop_id_2 = value_i32(&values, 1)?;
    let duration = value_i16(&values, 2)?;
    if !auto_increment.has_next() {
        return Err(ParseError::IdentifiersExhausted);
    }
    Ok(StopConnection::new(auto_increment.next(), stop_id_1, stop_id_2, duration))
}

/// Decodes the content of a file of walks between stops.
pub fn parse(content: &[u8], attributes_pk_type_converter: &FxHashMap<String, i32>) -> (result:
    Result<FxHashMap<i32, StopConnection>, ParseError>)
    ensures
        match result {
            Ok(data) => decoded_file::<StopConnectionSink>(
                stop_connection_rows(),
                content@,
                0,
                StopConnections::none(legacy_ids(*attributes_pk_type_converter)),
            ) matches Ok(state) && state.data == entity_views(data@),
            Err(e) => decoded_file::<StopConnectionSink>(
                stop_connection_rows(),
                content@,
                0,
                StopConnections::none(legacy_ids(*attributes_pk_type_converter)),
            ) == Err::<StopConnections, Failure>(e@),
        },
{
    StopConnectionParser::new().parse(content, attributes_pk_type_converter)
}

/// Gives a walk the attribute that a row names.
pub fn set_attribute(
    values: Vec<ParsedValue>,
    current_instance: &mut StopConnection,
    attributes_pk_type_converter: &FxHashMap<String, i32>,
) -> (result: Result<(), ParseError>)
    ensures
        match result {
            Ok(()) => with_attribute(
                old(current_instance)@,
                value_views(values@),
                legacy_ids(*attributes_pk_type_converter),
            ) == Ok::<StopConnectionData, Failure>(final(current_instance)@),
            Err(e) => with_attribute(
                old(current_instance)@,
                value_views(values@),
                legacy_ids(*attributes_pk_type_converter),
            ) == Err::<StopConnectionData, Failure>(e@) && final(current_instance)@ == old(
                current_instance,
            )@,
        },
{
    let attribute_designation = value_text(&values, 0)?;
    match resolve_legacy_key(attributes_pk_type_converter, attribute_designation.as_str()) {
        None => Err(ParseError::UnknownLegacyId),
        Some(attribute_id) => {
            current_instance.set_attribute(attribute_id);
            Ok(())
        },
    }
}

} // verus!
