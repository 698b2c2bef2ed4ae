//! Coordinates of stops.
//!
//! A line gives the number of a stop, two real numbers and a height. In the
//! file of the national grid the numbers are easting and northing; in the
//! file of the globe they are longitude and latitude, which is the reverse of
//! the order in which a position on the globe is kept.
//!
//! Files read by the decoder: BFKOORD_LV95, BFKOORD_WGS

use vstd::prelude::*;
use rustc_hash::FxHashMap;
use crate::grammar::{capture, skip, Grammar, Token};
use crate::models::{Coordinate, CoordinateData, CoordinateType, Stop, StopData, Version};
use crate::parsing::file_parser::{decode, decoded_file, RecordSink};
use crate::parsing::{
    read_float_text,
    read_i16,
    read_i32,
    row,
    value_float_text,
    value_i16,
    value_i32,
    value_views,
    ExpectedType,
    Failure,
    ParseError,
    ParsedRow,
    ParsedValue,
    Record,
    RowDefinition,
    RowParser,
    RowShape,
    TypedValue,
};
use crate::text::texts;
use crate::storage::{
    entity_views,
    lemma_views_after_insert,
    lemma_views_of_entry,
    new_table,
    store,
    take,
};

verus! {

/// The shapes of row in the file, in the order in which they are tried.
pub open spec fn coordinate_rows(version: Version) -> Seq<RowShape> {
    if version == Version::V_5_40_41_2_0_4 {
        seq![
            RowShape {
                id: 0,
                columns: seq![
                    ExpectedType::Integer32,
                    ExpectedType::Float,
                    ExpectedType::Float,
                    ExpectedType::Integer16,
                ],
                steps: seq![
                    capture(Token::Take(7)),
                    skip(Token::Tag(" ")),
                    capture(Token::Take(10)),
                    skip(Token::Tag(" ")),
                    capture(Token::Take(10)),
                    skip(Token::Tag(" ")),
                    capture(Token::Take(6)),
                ],
                whole: false,
            },
        ]
    }
    else {
        seq![
            RowShape {
                id: 0,
                columns: seq![
                    ExpectedType::Integer32,
                    ExpectedType::Float,
                    ExpectedType::Float,
                    ExpectedType::Integer16,
                ],
                steps: seq![
                    capture(Token::Take(7)),
                    skip(Token::Tag(" ")),
                    capture(Token::Take(11)),
                    skip(Token::Tag(" ")),
                    capture(Token::Take(11)),
                    skip(Token::Tag(" ")),
                    capture(Token::Take(7)),
                ],
                whole: false,
            },
        ]
    }
}

/// The decoder of the files of stop coordinates.
pub struct CoordinateParser {
    files: Vec<String>,
    row_parser: RowParser,
}

impl CoordinateParser {
    fn get_parser_2_1() -> (grammar: Grammar)
        ensures
            grammar.steps@ == seq![
                capture(Token::Take(7)),
                skip(Token::Tag(" ")),
                capture(Token::Take(10)),
                skip(Token::Tag(" ")),
                capture(Token::Take(10)),
                skip(Token::Tag(" ")),
                capture(Token::Take(6)),
            ],
            !grammar.whole,
    {
        let steps = vec![
            capture(Token::Take(7)),
            skip(Token::Tag(" ")),
            capture(Token::Take(10)),
            skip(Token::Tag(" ")),
            capture(Token::Take(10)),
            skip(Token::Tag(" ")),
            capture(Token::Take(6)),
        ];
        assert(steps@ =~= seq![
            capture(Token::Take(7)),
            skip(Token::Tag(" ")),
            capture(Token::Take(10)),
            skip(Token::Tag(" ")),
            capture(Token::Take(10)),
            skip(Token::Tag(" ")),
            capture(Token::Take(6)),
        ]);
        Grammar::new(steps)
    }

    fn get_parser_2_2() -> (grammar: Grammar)
        ensures
            grammar.steps@ == seq![
                capture(Token::Take(7)),
                skip(Token::Tag(" ")),
                capture(Token::Take(11)),
                skip(Token::Tag(" ")),
                capture(Token::Take(11)),
                skip(Token::Tag(" ")),
                capture(Token::Take(7)),
            ],
            !grammar.whole,
    {
        let steps = vec![
            capture(Token::Take(7)),
            skip(Token::Tag(" ")),
            capture(Token::Take(11)),
            skip(Token::Tag(" ")),
            capture(Token::Take(11)),
            skip(Token::Tag(" ")),
            capture(Token::Take(7)),
        ];
        assert(steps@ =~= seq![
            capture(Token::Take(7)),
            skip(Token::Tag(" ")),
            capture(Token::Take(11)),
            skip(Token::Tag(" ")),
            capture(Token::Take(11)),
            skip(Token::Tag(" ")),
            capture(Token::Take(7)),
        ]);
        Grammar::new(steps)
    }

    pub fn new(version: Version) -> (parser: Self)
        ensures
            parser.shapes() == coordinate_rows(version),
            parser.file_names() == seq!["BFKOORD_LV95"@, "BFKOORD_WGS"@],
    {
        let row_parser = if version == Version::V_5_40_41_2_0_4 {
            let mut rows: Vec<RowDefinition> = Vec::new();
            let kinds = vec![
                ExpectedType::Integer32,
                ExpectedType::Float,
                ExpectedType::Float,
                ExpectedType::Integer16,
            ];
            assert(kinds@ =~= coordinate_rows(version)[0].columns);
            rows.push(row(0, kinds, Self::get_parser_2_1()));
            let row_parser = RowParser::new(rows);
            assert(row_parser@ =~= coordinate_rows(version));
            row_parser
        } else {
            let mut rows: Vec<RowDefinition> = Vec::new();
            let kinds = vec![
                ExpectedType::Integer32,
                ExpectedType::Float,
                ExpectedType::Float,
                ExpectedType::Integer16,
            ];
            assert(kinds@ =~= coordinate_rows(version)[0].columns);
            rows.push(row(0, kinds, Self::get_parser_2_2()));
            let row_parser = RowParser::new(rows);
            assert(row_parser@ =~= coordinate_rows(version));
            row_parser
        };
        let files = vec!["BFKOORD_LV95".to_owned(), "BFKOORD_WGS".to_owned()];
        assert(texts(files@) =~= seq!["BFKOORD_LV95"@, "BFKOORD_WGS"@]);
        Self { files, row_parser }
    }

    /// The shapes of row that the decoder knows.
    pub closed spec fn shapes(&self) -> Seq<RowShape> {
        self.row_parser@
    }

    /// The names of the files that the decoder reads.
    pub closed spec fn file_names(&self) -> Seq<Seq<char>> {
        texts(self.files@)
    }

    /// The names of the files that the decoder reads.
    pub fn files(&self) -> (names: &Vec<String>)
        ensures
            texts(names@) == self.file_names(),
    {
        &self.files
    }

    /// The classifier of the rows.
    pub fn row_parser(&self) -> (row_parser: &RowParser)
        ensures
            row_parser@ == self.shapes(),
    {
        &self.row_parser
    }

    /// Reads the file of one coordinate system and gives the stops their
    /// positions in it.
    pub fn parse(
        &self,
        content: &[u8],
        coordinate_system: CoordinateType,
        data: &mut FxHashMap<i32, Stop>,
    ) -> (result: Result<(), ParseError>)
        ensures
            match result {
                Ok(()) => decoded_file::<CoordinateSink>(
                    self.shapes(),
                    content@,
                    0,
                    Positions { coordinate_system, data: entity_views(old(data)@) },
                ) matches Ok(state) && state.data == entity_views(final(data)@),
                Err(e) => decoded_file::<CoordinateSink>(
                    self.shapes(),
                    content@,
                    0,
                    Positions { coordinate_system, data: entity_views(old(data)@) },
                ) == Err::<Positions, Failure>(e@),
            },
    {
        let mut sink = CoordinateSink { coordinate_system, data: new_table() };
        std::mem::swap(data, &mut sink.data);
        let result = decode(content, 0, &self.row_parser, &mut sink);
        std::mem::swap(data, &mut sink.data);
        result
    }
}

/// What a pass over a coordinate file works on: the coordinate system of the
/// file, and the stops by number.
pub ghost struct Positions {
    pub coordinate_system: CoordinateType,
    pub data: Map<i32, StopData>,
}

/// The number of the stop and the position that a row gives in a coordinate
/// system. On the globe the two numbers are swapped.
pub open spec fn position_in_row(values: Seq<TypedValue>, coordinate_system: CoordinateType) -> Result<
    (i32, CoordinateData),
    Failure,
> {
    match read_i32(values, 0) {
        Err(failure) => Err(failure),
        Ok(stop_id) => match read_float_text(values, 1) {
            Err(failure) => Err(failure),
            Ok(xy1) => match read_float_text(values, 2) {
                Err(failure) => Err(failure),
                Ok(xy2) => match read_i16(values, 3) {
                    Err(failure) => Err(failure),
                    Ok(altitude) => if coordinate_system == CoordinateType::WGS84 {
                        Ok(
                            (
                                stop_id,
                                CoordinateData {
                                    coordinate_type: coordinate_system,
                                    x: xy2,
                                    y: xy1,
                                    z: altitude,
                                },
                            ),
                        )
                    } else {
                        Ok(
                            (
                                stop_id,
                                CoordinateData {
                                    coordinate_type: coordinate_system,
                                    x: xy1,
                                    y: xy2,
                                    z: altitude,
                                },
                            ),
                        )
                    },
                },
            },
        },
    }
}

/// The stops after a row gave the position of one of them.
pub open spec fn with_position(state: Positions, values: Seq<TypedValue>) -> Result<
    Positions,
    Failure,
> {
    match position_in_row(values, state.coordinate_system) {
        Err(failure) => Err(failure),
        Ok((stop_id, coordinate)) => match state.data.get(stop_id) {
            None => Err(Failure::UnknownId),
            Some(stop) => Ok(
                Positions {
                    data: state.data.insert(
                        stop_id,
                        if state.coordinate_system == CoordinateType::LV95 {
                            StopData { lv95_coordinate: Some(coordinate), ..stop }
                        } else {
                            StopData { wgs84_coordinate: Some(coordinate), ..stop }
                        },
                    ),
                    ..state
                },
            ),
        },
    }
}

/// The accumulator of a pass over a coordinate file.
pub struct CoordinateSink {
    coordinate_system: CoordinateType,
    data: FxHashMap<i32, Stop>,
}

impl RecordSink for CoordinateSink {
    type State = Positions;

    closed spec fn state(&self) -> Positions {
        Positions { coordinate_system: self.coordinate_system, data: entity_views(self.data@) }
    }

    open spec fn step(state: Positions, record: Record) -> Result<Positions, Failure> {
        with_position(state, record.2)
    }

    fn accept(&mut self, row: ParsedRow) -> (result: Result<(), ParseError>) {
        set_coordinates(row.2, self.coordinate_system, &mut self.data)
    }
}

/// Reads the file of one coordinate system of a release and gives the stops
/// their positions in it.
pub fn parse(
    version: Version,
    content: &[u8],
    coordinate_system: CoordinateType,
    data: &mut FxHashMap<i32, Stop>,
) -> (result: Result<(), ParseError>)
    ensures
        match result {
            Ok(()) => decoded_file::<CoordinateSink>(
                coordinate_rows(version),
                content@,
                0,
                Positions { coordinate_system, data: entity_views(old(data)@) },
            ) matches Ok(state) && state.data == entity_views(final(data)@),
            Err(e) => decoded_file::<CoordinateSink>(
                coordinate_rows(version),
                content@,
                0,
                Positions { coordinate_system, data: entity_views(old(data)@) },
            ) == Err::<Positions, Failure>(e@),
        },
{
    CoordinateParser::new(version).parse(content, coordinate_system, data)
}

/// Gives the stop that a row names its position in a coordinate system.
pub fn set_coordinates(
    values: Vec<ParsedValue>,
    coordinate_system: CoordinateType,
    data: &mut FxHashMap<i32, Stop>,
) -> (result: Result<(), ParseError>)
    ensures
        match result {
            Ok(()) => with_position(
                Positions { coordinate_system, data: entity_views(old(data)@) },
                value_views(values@),
            ) == Ok::<Positions, Failure>(
                Positions { coordinate_system, data: entity_views(final(data)@) },
            ),
            Err(e) => with_position(
                Positions { coordinate_system, data: entity_views(old(data)@) },
                value_views(values@),
            ) == Err::<Positions, Failure>(e@),
        },
{
    let stop_id = value_i32(&values, 0)?;
    let mut xy1 = value_float_text(&values, 1)?;
    let mut xy2 = value_float_text(&values, 2)?;
    let altitude = value_i16(&values, 3)?;
    if coordinate_system == CoordinateType::WGS84 {
        std::mem::swap(&mut xy1, &mut xy2);
    }
    proof {
        lemma_views_of_entry(data@, stop_id);
    }
    match take(data, stop_id) {
        None => Err(ParseError::UnknownId),
        Some(mut stop) => {
            let coordinate = Coordinate::new(coordinate_system, xy1, xy2, altitude);
            match coordinate_system {
                CoordinateType::LV95 => stop.set_lv95_coordinate(coordinate),
                CoordinateType::WGS84 => stop.set_wgs84_coordinate(coordinate),
            }
            proof {
                lemma_views_after_insert(old(data)@, stop_id, stop);
            }
            store(data, stop_id, stop);
            Ok(())
        },
    }
}

} // verus!
