//! Lines with their names and colours.
//!
//! The file has five shapes of row: the number and the name of a line, its
//! short name, the colour of its text, the colour of its background, and its
//! long name.
//!
//! A row is applied to the line that is stored under the number of the row's
//! kind. Where no line is stored under that number, a row of the first kind
//! makes a line, and every other row is passed over.
//!
//! File read by the decoder: LINIE

use vstd::prelude::*;
use rustc_hash::FxHashMap;
use crate::grammar::{capture, skip, Grammar, Token};
use crate::models::{Color, Line, LineData};
use crate::parsing::file_parser::{
    decode,
    decoded_file,
    feed,
    folded_all,
    records,
    FileParser,
    RecordSink,
};
use crate::parsing::{
    read_i16,
    read_i32,
    read_text,
    row,
    value_i16,
    value_i32,
    value_text,
    value_views,
    ExpectedType,
    Failure,
    ParseError,
    ParsedRow,
    ParsedValue,
    Record,
    RowDefinition,
    RowParser,
    RowShape,
    TypedValue,
};
use crate::storage::{
    entity_views,
    lemma_views_after_insert,
    lemma_views_of_empty,
    lemma_views_of_entry,
    new_table,
    store,
    take,
};

verus! {

/// The number and the name of a line.
pub const ROW_A: i32 = 1;

/// The short name.
pub const ROW_B: i32 = 2;

/// The colour of the text.
pub const ROW_C: i32 = 3;

/// The colour of the background.
pub const ROW_D: i32 = 4;

/// The long name.
pub const ROW_E: i32 = 5;

/// The shapes of row in the file, in the order in which they are tried.
pub open spec fn line_rows() -> Seq<RowShape> {
    seq![
        RowShape {
            id: ROW_A,
            columns: seq![
                ExpectedType::Integer32,
                ExpectedType::String,
            ],
            steps: seq![
                capture(Token::Take(7)),
                skip(Token::Tag("K")),
                skip(Token::Space1),
                capture(Token::Rest),
            ],
            whole: false,
        },
        RowShape {
            id: ROW_B,
            columns: seq![
                ExpectedType::String,
            ],
            steps: seq![
                skip(Token::Tag("N T")),
                skip(Token::Space1),
                capture(Token::Rest),
            ],
            whole: false,
        },
        RowShape {
            id: ROW_C,
            columns: seq![
                ExpectedType::Integer16,
                ExpectedType::Integer16,
                ExpectedType::Integer16,
            ],
            steps: seq![
                skip(Token::Tag("F")),
                skip(Token::Space1),
                capture(Token::Take(3)),
                skip(Token::Space1),
                capture(Token::Take(3)),
                skip(Token::Space1),
                capture(Token::Take(3)),
            ],
            whole: false,
        },
        RowShape {
            id: ROW_D,
            columns: seq![
                ExpectedType::Integer16,
                ExpectedType::Integer16,
                ExpectedType::Integer16,
            ],
            steps: seq![
                skip(Token::Tag("B")),
                skip(Token::Space1),
                capture(Token::Take(3)),
                skip(Token::Space1),
                capture(Token::Take(3)),
                skip(Token::Space1),
                capture(Token::Take(3)),
            ],
            whole: false,
        },
        RowShape {
            id: ROW_E,
            columns: seq![
                ExpectedType::String,
            ],
            steps: seq![
                skip(Token::Tag("L T")),
                skip(Token::Space1),
                capture(Token::Rest),
            ],
            whole: false,
        },
    ]
}

/// The decoder of the file of lines.
pub struct LineParser {
    file: String,
    row_parser: RowParser,
}

impl LineParser {
    fn get_parser_1() -> (grammar: Grammar)
        ensures
            grammar.steps@ == seq![
                capture(Token::Take(7)),
                skip(Token::Tag("K")),
                skip(Token::Space1),
                capture(Token::Rest),
            ],
            !grammar.whole,
    {
        let steps = vec![
            capture(Token::Take(7)),
            skip(Token::Tag("K")),
            skip(Token::Space1),
            capture(Token::Rest),
        ];
        assert(steps@ =~= seq![
            capture(Token::Take(7)),
            skip(Token::Tag("K")),
            skip(Token::Space1),
            capture(Token::Rest),
        ]);
        Grammar::new(steps)
    }

    fn get_parser_2() -> (grammar: Grammar)
        ensures
            grammar.steps@ == seq![
                skip(Token::Tag("N T")),
                skip(Token::Space1),
                capture(Token::Rest),
            ],
            !grammar.whole,
    {
        let steps = vec![
            skip(Token::Tag("N T")),
            skip(Token::Space1),
            capture(Token::Rest),
        ];
        assert(steps@ =~= seq![
            skip(Token::Tag("N T")),
            skip(Token::Space1),
            capture(Token::Rest),
        ]);
        Grammar::new(steps)
    }

    fn get_parser_3() -> (grammar: Grammar)
        ensures
            grammar.steps@ == seq![
                skip(Token::Tag("F")),
                skip(Token::Space1),
                capture(Token::Take(3)),
                skip(Token::Space1),
                capture(Token::Take(3)),
                skip(Token::Space1),
                capture(Token::Take(3)),
            ],
            !grammar.whole,
    {
        let steps = vec![
            skip(Token::Tag("F")),
            skip(Token::Space1),
            capture(Token::Take(3)),
            skip(Token::Space1),
            capture(Token::Take(3)),
            skip(Token::Space1),
            capture(Token::Take(3)),
        ];
        assert(steps@ =~= seq![
            skip(Token::Tag("F")),
            skip(Token::Space1),
            capture(Token::Take(3)),
            skip(Token::Space1),
            capture(Token::Take(3)),
            skip(Token::Space1),
            capture(Token::Take(3)),
        ]);
        Grammar::new(steps)
    }

    fn get_parser_4() -> (grammar: Grammar)
        ensures
            grammar.steps@ == seq![
                skip(Token::Tag("B")),
                skip(Token::Space1),
                capture(Token::Take(3)),
                skip(Token::Space1),
                capture(Token::Take(3)),
                skip(Token::Space1),
                capture(Token::Take(3)),
            ],
            !grammar.whole,
    {
        let steps = vec![
            skip(Token::Tag("B")),
            skip(Token::Space1),
            capture(Token::Take(3)),
            skip(Token::Space1),
            capture(Token::Take(3)),
            skip(Token::Space1),
            capture(Token::Take(3)),
        ];
        assert(steps@ =~= seq![
            skip(Token::Tag("B")),
            skip(Token::Space1),
            capture(Token::Take(3)),
            skip(Token::Space1),
            capture(Token::Take(3)),
            skip(Token::Space1),
            capture(Token::Take(3)),
        ]);
        Grammar::new(steps)
    }

    fn get_parser_5() -> (grammar: Grammar)
        ensures
            grammar.steps@ == seq![
                skip(Token::Tag("L T")),
                skip(Token::Space1),
                capture(Token::Rest),
            ],
            !grammar.whole,
    {
        let steps = vec![
            skip(Token::Tag("L T")),
            skip(Token::Space1),
            capture(Token::Rest),
        ];
        assert(steps@ =~= seq![
            skip(Token::Tag("L T")),
            skip(Token::Space1),
            capture(Token::Rest),
        ]);
        Grammar::new(steps)
    }

    pub fn new() -> (parser: Self)
        ensures
            parser.shapes() == line_rows(),
            parser.file_name() == "LINIE"@,
    {
        let row_parser = {
            let mut rows: Vec<RowDefinition> = Vec::new();
            let kinds = vec![
                ExpectedType::Integer32,
                ExpectedType::String,
            ];
            assert(kinds@ =~= line_rows()[0].columns);
            rows.push(row(ROW_A, kinds, Self::get_parser_1()));
            let kinds = vec![
                ExpectedType::String,
            ];
            assert(kinds@ =~= line_rows()[1].columns);
            rows.push(row(ROW_B, kinds, Self::get_parser_2()));
            let kinds = vec![
                ExpectedType::Integer16,
                ExpectedType::Integer16,
                ExpectedType::Integer16,
            ];
            assert(kinds@ =~= line_rows()[2].columns);
            rows.push(row(ROW_C, kinds, Self::get_parser_3()));
            let kinds = vec![
                ExpectedType::Integer16,
                ExpectedType::Integer16,
                ExpectedType::Integer16,
            ];
            assert(kinds@ =~= line_rows()[3].columns);
            rows.push(row(ROW_D, kinds, Self::get_parser_4()));
            let kinds = vec![
                ExpectedType::String,
            ];
            assert(kinds@ =~= line_rows()[4].columns);
            rows.push(row(ROW_E, kinds, Self::get_parser_5()));
            let row_parser = RowParser::new(rows);
            assert(row_parser@ =~= line_rows());
            row_parser
        };
        Self { file: "LINIE".to_owned(), row_parser }
    }

    /// The shapes of row that the decoder knows.
    pub closed spec fn shapes(&self) -> Seq<RowShape> {
        self.row_parser@
    }

    /// The name of the file that the decoder reads.
    pub closed spec fn file_name(&self) -> Seq<char> {
        self.file@
    }

    /// The name of the file that the decoder reads.
    pub fn file(&self) -> (name: &String)
        ensures
            name@ == self.file_name(),
    {
        &self.file
    }

    /// The classifier of the rows.
    pub fn row_parser(&self) -> (row_parser: &RowParser)
        ensures
            row_parser@ == self.shapes(),
    {
        &self.row_parser
    }

    /// Turns the rows of a file into lines.
    pub fn row_converter(&self, parser: FileParser) -> (result: Result<
        FxHashMap<i32, Line>,
        ParseError,
    >)
        ensures
            match result {
                Ok(data) => folded_all::<LineSink>(
                    records(parser.shapes(), parser.lines()),
                    Map::empty(),
                ) == Ok::<Map<i32, LineData>, Failure>(entity_views(data@)),
                Err(e) => folded_all::<LineSink>(
                    records(parser.shapes(), parser.lines()),
                    Map::empty(),
                ) == Err::<Map<i32, LineData>, Failure>(e@),
            },
    {
        let mut sink = LineSink::new();
        feed(&parser, &mut sink)?;
        Ok(sink.data)
    }

    /// Decodes the content of the file.
    pub fn parse(&self, content: &[u8]) -> (result: Result<FxHashMap<i32, Line>, ParseError>)
        ensures
            match result {
                Ok(data) => decoded_file::<LineSink>(self.shapes(), content@, 0, Map::empty())
                    == Ok::<Map<i32, LineData>, Failure>(entity_views(data@)),
                Err(e) => decoded_file::<LineSink>(self.shapes(), content@, 0, Map::empty())
                    == Err::<Map<i32, LineData>, Failure>(e@),
            },
    {
        let mut sink = LineSink::new();
        decode(content, 0, &self.row_parser, &mut sink)?;
        Ok(sink.data)
    }
}

/// The line that a row of the first kind gives.
pub open spec fn line_of(values: Seq<TypedValue>) -> Result<LineData, Failure> {
    match read_i32(values, 0) {
        Err(failure) => Err(failure),
        Ok(id) => match read_text(values, 1) {
            Err(failure) => Err(failure),
            Ok(name) => Ok(
                LineData {
                    id,
                    name,
                    short_name: Seq::empty(),
                    long_name: Seq::empty(),
                    text_color: Color { r: 0, g: 0, b: 0 },
                    background_color: Color { r: 0, g: 0, b: 0 },
                },
            ),
        },
    }
}

/// The colour that a row gives.
pub open spec fn color_of(values: Seq<TypedValue>) -> Result<Color, Failure> {
    match read_i16(values, 0) {
        Err(failure) => Err(failure),
        Ok(r) => match read_i16(values, 1) {
            Err(failure) => Err(failure),
            Ok(g) => match read_i16(values, 2) {
                Err(failure) => Err(failure),
                Ok(b) => Ok(Color { r, g, b }),
            },
        },
    }
}

/// A line after a row of any kind but the first was applied to it.
pub open spec fn changed_line(line: LineData, record: Record) -> Result<LineData, Failure> {
    if record.0 == ROW_B {
        match read_text(record.2, 0) {
            Err(failure) => Err(failure),
            Ok(short_name) => Ok(LineData { short_name, ..line }),
        }
    } else if record.0 == ROW_C {
        match color_of(record.2) {
            Err(failure) => Err(failure),
            Ok(text_color) => Ok(LineData { text_color, ..line }),
        }
    } else if record.0 == ROW_D {
        match color_of(record.2) {
            Err(failure) => Err(failure),
            Ok(background_color) => Ok(LineData { background_color, ..line }),
        }
    } else if record.0 == ROW_E {
        match read_text(record.2, 0) {
            Err(failure) => Err(failure),
            Ok(long_name) => Ok(LineData { long_name, ..line }),
        }
    } else {
        Err(Failure::UnexpectedRow)
    }
}

/// What one more record makes of the lines.
pub open spec fn with_record(data: Map<i32, LineData>, record: Record) -> Result<
    Map<i32, LineData>,
    Failure,
> {
    match data.get(record.0) {
        None => if record.0 == ROW_A {
            match line_of(record.2) {
                Err(failure) => Err(failure),
                Ok(line) => Ok(data.insert(line.id, line)),
            }
        } else {
            Ok(data)
        },
        Some(line) => match changed_line(line, record) {
            Err(failure) => Err(failure),
            Ok(changed) => Ok(data.insert(record.0, changed)),
        },
    }
}

/// The accumulator of the decoder.
pub struct LineSink {
    data: FxHashMap<i32, Line>,
}

impl LineSink {
    /// An accumulator that holds nothing yet.
    pub fn new() -> (sink: Self)
        ensures
            sink.state() == Map::<i32, LineData>::empty(),
    {
        proof {
            lemma_views_of_empty::<Line>();
        }
        LineSink { data: new_table() }
    }
}

impl RecordSink for LineSink {
    type State = Map<i32, LineData>;

    closed spec fn state(&self) -> Map<i32, LineData> {
        entity_views(self.data@)
    }

    open spec fn step(state: Map<i32, LineData>, record: Record) -> Result<
        Map<i32, LineData>,
        Failure,
    > {
        with_record(state, record)
    }

    fn accept(&mut self, row: ParsedRow) -> (result: Result<(), ParseError>) {
        let (id, _, values) = row;
        proof {
            lemma_views_of_entry(self.data@, id);
        }
        match take(&mut self.data, id) {
            None => {
                assert(self.data@ =~= old(self).data@);
                if id == ROW_A {
                    let line = create_instance(values)?;
                    let line_id = line.id();
                    proof {
                        lemma_views_after_insert(self.data@, line_id, line);
                    }
                    store(&mut self.data, line_id, line);
                }
                Ok(())
            },
            Some(mut line) => {
                let result = if id == ROW_B {
                    set_short_name(values, &mut line)
                } else if id == ROW_C {
                    set_text_color(values, &mut line)
                } else if id == ROW_D {
                    set_background_color(values, &mut line)
                } else if id == ROW_E {
                    set_long_name(values, &mut line)
                } else {
                    Err(ParseError::UnexpectedRow)
                };
                proof {
                    lemma_views_after_insert(old(self).data@, id, line);
                }
                store(&mut self.data, id, line);
                result
            },
        }
    }
}

/// Builds the line of a row.
pub fn create_instance(values: Vec<ParsedValue>) -> (result: Result<Line, ParseError>)
    ensures
        match result {
            Ok(line) => line_of(value_views(values@)) == Ok::<LineData, Failure>(line@),
            Err(e) => line_of(value_views(values@)) == Err::<LineData, Failure>(e@),
        },
{
    let id = value_i32(&values, 0)?;
    let name = value_text(&values, 1)?;
    Ok(Line::new(id, name))
}

/// Decodes the content of a file of lines.
pub fn parse(content: &[u8]) -> (result: Result<FxHashMap<i32, Line>, ParseError>)
    ensures
        match result {
            Ok(data) => decoded_file::<LineSink>(line_rows(), content@, 0, Map::empty()) == Ok::<
                Map<i32, LineData>,
                Failure,
            >(entity_views(data@)),
            Err(e) => decoded_file::<LineSink>(line_rows(), content@, 0, Map::empty()) == Err::<
                Map<i32, LineData>,
                Failure,
            >(e@),
        },
{
    LineParser::new().parse(content)
}

/// Reads the colour of a row.
pub fn parse_color(values: &Vec<ParsedValue>) -> (result: Result<Color, ParseError>)
    ensures
        match result {
            Ok(color) => color_of(value_views(values@)) == Ok::<Color, Failure>(color),
            Err(e) => color_of(value_views(values@)) == Err::<Color, Failure>(e@),
        },
{
    let r = value_i16(values, 0)?;
    let g = value_i16(values, 1)?;
    let b = value_i16(values, 2)?;
    Ok(Color::new(r, g, b))
}

/// Gives a line its short name.
pub fn set_short_name(values: Vec<ParsedValue>, line: &mut Line) -> (result: Result<(), ParseError>)
    ensures
        match result {
            Ok(()) => changed_line(old(line)@, (ROW_B, 0, value_views(values@))) == Ok::<
                LineData,
                Failure,
            >(final(line)@),
            Err(e) => changed_line(old(line)@, (ROW_B, 0, value_views(values@))) == Err::<
                LineData,
                Failure,
            >(e@),
        },
{
    let short_name = value_text(&values, 0)?;
    line.set_short_name(short_name);
    Ok(())
}

/// Gives a line its long name.
pub fn set_long_name(values: Vec<ParsedValue>, line: &mut Line) -> (result: Result<(), ParseError>)
    ensures
        match result {
            Ok(()) => changed_line(old(line)@, (ROW_E, 0, value_views(values@))) == Ok::<
                LineData,
                Failure,
            >(final(line)@),
            Err(e) => changed_line(old(line)@, (ROW_E, 0, value_views(values@))) == Err::<
                LineData,
                Failure,
            >(e@),
        },
{
    let long_name = value_text(&values, 0)?;
    line.set_long_name(long_name);
    Ok(())
}

/// Gives a line the colour of its text.
pub fn set_text_color(values: Vec<ParsedValue>, line: &mut Line) -> (result: Result<(), ParseError>)
    ensures
        match result {
            Ok(()) => changed_line(old(line)@, (ROW_C, 0, value_views(values@))) == Ok::<
                LineData,
                Failure,
            >(final(line)@),
            Err(e) => changed_line(old(line)@, (ROW_C, 0, value_views(values@))) == Err::<
                LineData,
                Failure,
            >(e@),
        },
{
    let color = parse_color(&values)?;
    line.set_text_color(color);
    Ok(())
}

/// Gives a line the colour of its background.
pub fn set_background_color(values: Vec<ParsedValue>, line: &mut Line) -> (result: Result<
    (),
    ParseError,
>)
    ensures
        match result {
            Ok(()) => changed_line(old(line)@, (ROW_D, 0, value_views(values@))) == Ok::<
                LineData,
                Failure,
            >(final(line)@),
            Err(e) => changed_line(old(line)@, (ROW_D, 0, value_views(values@))) == Err::<
                LineData,
                Failure,
            >(e@),
        },
{
    let color = parse_color(&values)?;
    line.set_background_color(color);
    Ok(())
}

} // verus!
