//! Descriptions of stops.
//!
//! The file has a comment line and, for a stop, lines with its restrictions,
//! its location identifier, the location identifiers of its boarding areas,
//! its country and its canton. The last two are not used. A line that names
//! a stop which is not known is passed over.
//!
//! File read by the decoder: BHFART, or BHFART_60 before the latest release

use vstd::prelude::*;
use rustc_hash::FxHashMap;
use crate::grammar::{capture, skip, Grammar, Token};
use crate::models::{Stop, StopData, Version};
use crate::parsing::file_parser::{decode, decoded_file, RecordSink};
use crate::parsing::{
    read_i16,
    read_i32,
    read_text,
    row,
    value_i16,
    value_i32,
    value_text,
    value_views,
    ExpectedType,
    Failure,
    ParseError,
    ParsedRow,
    ParsedValue,
    Record,
    RowDefinition,
    RowParser,
    RowShape,
    TypedValue,
};
use crate::storage::{
    entity_views,
    lemma_views_after_insert,
    lemma_views_of_entry,
    new_table,
    store,
    take,
};

verus! {

/// A comment.
pub const ROW_A: i32 = 1;

/// The restrictions of a stop.
pub const ROW_B: i32 = 2;

/// The location identifier of a stop.
pub const ROW_C: i32 = 3;

/// The location identifier of a boarding area.
pub const ROW_D: i32 = 4;

/// The country of a stop.
pub const ROW_E: i32 = 5;

/// The canton of a stop.
pub const ROW_F: i32 = 6;

/// The shapes of row in the file, in the order in which they are tried.
pub open spec fn description_rows() -> Seq<RowShape> {
    seq![
        RowShape {
            id: ROW_A,
            columns: Seq::empty(),
            steps: seq![
                skip(Token::Tag("%")),
            ],
            whole: false,
        },
        RowShape {
            id: ROW_B,
            columns: seq![
                ExpectedType::Integer32,
                ExpectedType::Integer16,
            ],
            steps: seq![
                capture(Token::Take(7)),
                skip(Token::Space1),
                skip(Token::Tag("B")),
                skip(Token::Space1),
                capture(Token::Take(2)),
            ],
            whole: false,
        },
        RowShape {
            id: ROW_C,
            columns: seq![
                ExpectedType::Integer32,
                ExpectedType::String,
            ],
            steps: seq![
                capture(Token::Take(7)),
                skip(Token::Take(3)),
                skip(Token::Tag("A")),
                skip(Token::Space1),
                capture(Token::Rest),
            ],
            whole: false,
        },
        RowShape {
            id: ROW_D,
            columns: seq![
                ExpectedType::Integer32,
                ExpectedType::String,
            ],
            steps: seq![
                capture(Token::Take(7)),
                skip(Token::Take(3)),
                skip(Token::Tag("a")),
                skip(Token::Space1),
                capture(Token::Rest),
            ],
            whole: false,
        },
        RowShape {
            id: ROW_E,
            columns: seq![
                ExpectedType::Integer32,
                ExpectedType::String,
            ],
            steps: seq![
                capture(Token::Take(7)),
                skip(Token::Space1),
                skip(Token::Tag("L")),
                skip(Token::Space1),
                capture(Token::Take(2)),
            ],
            whole: false,
        },
        RowShape {
            id: ROW_F,
            columns: seq![
                ExpectedType::Integer32,
                ExpectedType::String,
            ],
            steps: seq![
                capture(Token::Take(7)),
                skip(Token::Space1),
                skip(Token::Tag("I")),
                skip(Token::Space1),
                capture(Token::Take(2)),
                skip(Token::Space1),
                skip(Token::Take(9)),
            ],
            whole: false,
        },
    ]
}

/// The decoder of the file of stop descriptions.
pub struct DescriptionParser {
    file: String,
    row_parser: RowParser,
}

impl DescriptionParser {
    fn get_parser_1() -> (grammar: Grammar)
        ensures
            grammar.steps@ == seq![
                skip(Token::Tag("%")),
            ],
            !grammar.whole,
    {
        let steps = vec![
            skip(Token::Tag("%")),
        ];
        assert(steps@ =~= seq![
            skip(Token::Tag("%")),
        ]);
        Grammar::new(steps)
    }

    fn get_parser_2() -> (grammar: Grammar)
        ensures
            grammar.steps@ == seq![
                capture(Token::Take(7)),
                skip(Token::Space1),
                skip(Token::Tag("B")),
                skip(Token::Space1),
                capture(Token::Take(2)),
            ],
            !grammar.whole,
    {
        let steps = vec![
            capture(Token::Take(7)),
            skip(Token::Space1),
            skip(Token::Tag("B")),
            skip(Token::Space1),
            capture(Token::Take(2)),
        ];
        assert(steps@ =~= seq![
            capture(Token::Take(7)),
            skip(Token::Space1),
            skip(Token::Tag("B")),
            skip(Token::Space1),
            capture(Token::Take(2)),
        ]);
        Grammar::new(steps)
    }

    fn get_parser_3() -> (grammar: Grammar)
        ensures
            grammar.steps@ == seq![
                capture(Token::Take(7)),
                skip(Token::Take(3)),
                skip(Token::Tag("A")),
                skip(Token::Space1),
                capture(Token::Rest),
            ],
            !grammar.whole,
    {
        let steps = vec![
            capture(Token::Take(7)),
            skip(Token::Take(3)),
            skip(Token::Tag("A")),
            skip(Token::Space1),
            capture(Token::Rest),
        ];
        assert(steps@ =~= seq![
            capture(Token::Take(7)),
            skip(Token::Take(3)),
            skip(Token::Tag("A")),
            skip(Token::Space1),
            capture(Token::Rest),
        ]);
        Grammar::new(steps)
    }

    fn get_parser_4() -> (grammar: Grammar)
        ensures
            grammar.steps@ == seq![
                capture(Token::Take(7)),
                skip(Token::Take(3)),
                skip(Token::Tag("a")),
                skip(Token::Space1),
                capture(Token::Rest),
            ],
            !grammar.whole,
    {
        let steps = vec![
            capture(Token::Take(7)),
            skip(Token::Take(3)),
            skip(Token::Tag("a")),
            skip(Token::Space1),
            capture(Token::Rest),
        ];
        assert(steps@ =~= seq![
            capture(Token::Take(7)),
            skip(Token::Take(3)),
            skip(Token::Tag("a")),
            skip(Token::Space1),
            capture(Token::Rest),
        ]);
        Grammar::new(steps)
    }

    fn get_parser_5() -> (grammar: Grammar)
        ensures
            grammar.steps@ == seq![
                capture(Token::Take(7)),
                skip(Token::Space1),
                skip(Token::Tag("L")),
                skip(Token::Space1),
                capture(Token::Take(2)),
            ],
            !grammar.whole,
    {
        let steps = vec![
            capture(Token::Take(7)),
            skip(Token::Space1),
            skip(Token::Tag("L")),
            skip(Token::Space1),
            capture(Token::Take(2)),
        ];
        assert(steps@ =~= seq![
            capture(Token::Take(7)),
            skip(Token::Space1),
            skip(Token::Tag("L")),
            skip(Token::Space1),
            capture(Token::Take(2)),
        ]);
        Grammar::new(steps)
    }

    fn get_parser_6() -> (grammar: Grammar)
        ensures
            grammar.steps@ == seq![
                capture(Token::Take(7)),
                skip(Token::Space1),
                skip(Token::Tag("I")),
                skip(Token::Space1),
                capture(Token::Take(2)),
                skip(Token::Space1),
                skip(Token::Take(9)),
            ],
            !grammar.whole,
    {
        let steps = vec![
            capture(Token::Take(7)),
            skip(Token::Space1),
            skip(Token::Tag("I")),
            skip(Token::Space1),
            capture(Token::Take(2)),
            skip(Token::Space1),
            skip(Token::Take(9)),
        ];
        assert(steps@ =~= seq![
            capture(Token::Take(7)),
            skip(Token::Space1),
            skip(Token::Tag("I")),
            skip(Token::Space1),
            capture(Token::Take(2)),
            skip(Token::Space1),
            skip(Token::Take(9)),
        ]);
        Grammar::new(steps)
    }

    pub fn new(version: Version) -> (parser: Self)
        ensures
            parser.shapes() == description_rows(),
            parser.file_name() == (if version == Version::V_5_40_41_2_0_7 {
                "BHFART"@
            } else {
                "BHFART_60"@
            }),
    {
        let row_parser = {
            let mut rows: Vec<RowDefinition> = Vec::new();
            let kinds: Vec<ExpectedType> = Vec::new();
            assert(kinds@ =~= description_rows()[0].columns);
            rows.push(row(ROW_A, kinds, Self::get_parser_1()));
            let kinds = vec![
                ExpectedType::Integer32,
                ExpectedType::Integer16,
            ];
            assert(kinds@ =~= description_rows()[1].columns);
            rows.push(row(ROW_B, kinds, Self::get_parser_2()));
            let kinds = vec![
                ExpectedType::Integer32,
                ExpectedType::String,
            ];
            assert(kinds@ =~= description_rows()[2].columns);
            rows.push(row(ROW_C, kinds, Self::get_parser_3()));
            let kinds = vec![
                ExpectedType::Integer32,
                ExpectedType::String,
            ];
            assert(kinds@ =~= description_rows()[3].columns);
            rows.push(row(ROW_D, kinds, Self::get_parser_4()));
            let kinds = vec![
                ExpectedType::Integer32,
                ExpectedType::String,
            ];
            assert(kinds@ =~= description_rows()[4].columns);
            rows.push(row(ROW_E, kinds, Self::get_parser_5()));
            let kinds = vec![
                ExpectedType::Integer32,
                ExpectedType::String,
            ];
            assert(kinds@ =~= description_rows()[5].columns);
            rows.push(row(ROW_F, kinds, Self::get_parser_6()));
            let row_parser = RowParser::new(rows);
            assert(row_parser@ =~= description_rows());
            row_parser
        };
        let file = match version {
            Version::V_5_40_41_2_0_7 => "BHFART".to_owned(),
            _ => "BHFART_60".to_owned(),
        };
        Self { file, row_parser }
    }

    /// The shapes of row that the decoder knows.
    pub closed spec fn shapes(&self) -> Seq<RowShape> {
        self.row_parser@
    }

    /// The name of the file that the decoder reads.
    pub closed spec fn file_name(&self) -> Seq<char> {
        self.file@
    }

    /// The name of the file that the decoder reads.
    pub fn file(&self) -> (name: &String)
        ensures
            name@ == self.file_name(),
    {
        &self.file
    }

    /// The classifier of the rows.
    pub fn row_parser(&self) -> (row_parser: &RowParser)
        ensures
            row_parser@ == self.shapes(),
    {
        &self.row_parser
    }

    /// Reads the file and gives the stops what it says of them.
    pub fn parse(&self, content: &[u8], data: &mut FxHashMap<i32, Stop>) -> (result: Result<
        (),
        ParseError,
    >)
        ensures
            match result {
                Ok(()) => decoded_file::<DescriptionSink>(
                    self.shapes(),
                    content@,
                    0,
                    entity_views(old(data)@),
                ) == Ok::<Map<i32, StopData>, Failure>(entity_views(final(data)@)),
                Err(e) => decoded_file::<DescriptionSink>(
                    self.shapes(),
                    content@,
                    0,
                    entity_views(old(data)@),
                ) == Err::<Map<i32, StopData>, Failure>(e@),
            },
    {
        let mut sink = DescriptionSink { data: new_table() };
        std::mem::swap(data, &mut sink.data);
        let result = decode(content, 0, &self.row_parser, &mut sink);
        std::mem::swap(data, &mut sink.data);
        result
    }
}

/// The stops after a row gave the restrictions of one of them. A row for a
/// stop that is not known changes nothing.
pub open spec fn with_restrictions(data: Map<i32, StopData>, values: Seq<TypedValue>) -> Result<
    Map<i32, StopData>,
    Failure,
> {
    match read_i32(values, 0) {
        Err(failure) => Err(failure),
        Ok(stop_id) => match read_i16(values, 1) {
            Err(failure) => Err(failure),
            Ok(restrictions) => match data.get(stop_id) {
                None => Ok(data),
                Some(stop) => Ok(data.insert(stop_id, StopData { restrictions, ..stop })),
            },
        },
    }
}

/// The stops after a row gave the location identifier of one of them. A row
/// for a stop that is not known changes nothing.
pub open spec fn with_sloid(data: Map<i32, StopData>, values: Seq<TypedValue>) -> Result<
    Map<i32, StopData>,
    Failure,
> {
    match read_i32(values, 0) {
        Err(failure) => Err(failure),
        Ok(stop_id) => match read_text(values, 1) {
            Err(failure) => Err(failure),
            Ok(sloid) => match data.get(stop_id) {
                None => Ok(data),
                Some(stop) => Ok(data.insert(stop_id, StopData { sloid, ..stop })),
            },
        },
    }
}

/// The stops after a row gave one more boarding area of one of them. A row
/// for a stop that is not known changes nothing.
pub open spec fn with_boarding_area(data: Map<i32, StopData>, values: Seq<TypedValue>) -> Result<
    Map<i32, StopData>,
    Failure,
> {
    match read_i32(values, 0) {
        Err(failure) => Err(failure),
        Ok(stop_id) => match read_text(values, 1) {
            Err(failure) => Err(failure),
            Ok(sloid) => match data.get(stop_id) {
                None => Ok(data),
                Some(stop) => Ok(
                    data.insert(
                        stop_id,
                        StopData { boarding_areas: stop.boarding_areas.push(sloid), ..stop },
                    ),
                ),
            },
        },
    }
}

/// What one more record makes of the stops.
pub open spec fn with_record(data: Map<i32, StopData>, record: Record) -> Result<
    Map<i32, StopData>,
    Failure,
> {
    if record.0 == ROW_A || record.0 == ROW_E || record.0 == ROW_F {
        Ok(data)
    } else if record.0 == ROW_B {
        with_restrictions(data, record.2)
    } else if record.0 == ROW_C {
        with_sloid(data, record.2)
    } else if record.0 == ROW_D {
        with_boarding_area(data, record.2)
    } else {
        Err(Failure::UnexpectedRow)
    }
}

/// The accumulator of the decoder.
pub struct DescriptionSink {
    data: FxHashMap<i32, Stop>,
}

impl RecordSink for DescriptionSink {
    type State = Map<i32, StopData>;

    closed spec fn state(&self) -> Map<i32, StopData> {
        entity_views(self.data@)
    }

    open spec fn step(state: Map<i32, StopData>, record: Record) -> Result<
        Map<i32, StopData>,
        Failure,
    > {
        with_record(state, record)
    }

    fn accept(&mut self, row: ParsedRow) -> (result: Result<(), ParseError>) {
        let (id, _, values) = row;
        if id == ROW_A || id == ROW_E || id == ROW_F {
            Ok(())
        } else if id == ROW_B {
            set_restrictions(values, &mut self.data)
        } else if id == ROW_C {
            set_sloid(values, &mut self.data)
        } else if id == ROW_D {
            add_boarding_area(values, &mut self.data)
        } else {
            Err(ParseError::UnexpectedRow)
        }
    }
}

/// Reads the file of stop descriptions of a release and gives the stops what
/// it says of them.
pub fn parse(version: Version, content: &[u8], data: &mut FxHashMap<i32, Stop>) -> (result: Result<
    (),
    ParseError,
>)
    ensures
        match result {
            Ok(()) => decoded_file::<DescriptionSink>(
                description_rows(),
                content@,
                0,
                entity_views(old(data)@),
            ) == Ok::<Map<i32, StopData>, Failure>(entity_views(final(data)@)),
            Err(e) => decoded_file::<DescriptionSink>(
                description_rows(),
                content@,
                0,
                entity_views(old(data)@),
            ) == Err::<Map<i32, StopData>, Failure>(e@),
        },
{
    DescriptionParser::new(version).parse(content, data)
}

/// Gives the stop that a row names its restrictions.
pub fn set_restrictions(values: Vec<ParsedValue>, data: &mut FxHashMap<i32, Stop>) -> (result: Result<
    (),
    ParseError,
>)
    ensures
        match result {
            Ok(()) => with_restrictions(entity_views(old(data)@), value_views(values@)) == Ok::<
                Map<i32, StopData>,
                Failure,
            >(entity_views(final(data)@)),
            Err(e) => with_restrictions(entity_views(old(data)@), value_views(values@)) == Err::<
                Map<i32, StopData>,
                Failure,
            >(e@),
        },
{
    let stop_id = value_i32(&values, 0)?;
    let restrictions = value_i16(&values, 1)?;
    proof {
        lemma_views_of_entry(data@, stop_id);
    }
    match take(data, stop_id) {
        None => {
            assert(data@ =~= old(data)@);
        },
        Some(mut stop) => {
            stop.set_restrictions(restrictions);
            proof {
                lemma_views_after_insert(old(data)@, stop_id, stop);
            }
            store(data, stop_id, stop);
        },
    }
    Ok(())
}

/// Gives the stop that a row names its location identifier.
pub fn set_sloid(values: Vec<ParsedValue>, data: &mut FxHashMap<i32, Stop>) -> (result: Result<
    (),
    ParseError,
>)
    ensures
        match result {
            Ok(()) => with_sloid(entity_views(old(data)@), value_views(values@)) == Ok::<
                Map<i32, StopData>,
                Failure,
            >(entity_views(final(data)@)),
            Err(e) => with_sloid(entity_views(old(data)@), value_views(values@)) == Err::<
                Map<i32, StopData>,
                Failure,
            >(e@),
        },
{
    let stop_id = value_i32(&values, 0)?;
    let sloid = value_text(&values, 1)?;
    proof {
        lemma_views_of_entry(data@, stop_id);
    }
    match take(data, stop_id) {
        None => {
            assert(data@ =~= old(data)@);
        },
        Some(mut stop) => {
            stop.set_sloid(sloid);
            proof {
                lemma_views_after_insert(old(data)@, stop_id, stop);
            }
            store(data, stop_id, stop);
        },
    }
    Ok(())
}

/// Gives the stop that a row names one more boarding area.
pub fn add_boarding_area(values: Vec<ParsedValue>, data: &mut FxHashMap<i32, Stop>) -> (result:
    Result<(), ParseError>)
    ensures
        match result {
            Ok(()) => with_boarding_area(entity_views(old(data)@), value_views(values@)) == Ok::<
                Map<i32, StopData>,
                Failure,
            >(entity_views(final(data)@)),
            Err(e) => with_boarding_area(entity_views(old(data)@), value_views(values@)) == Err::<
                Map<i32, StopData>,
                Failure,
            >(e@),
        },
{
    let stop_id = value_i32(&values, 0)?;
    let sloid = value_text(&values, 1)?;
    proof {
        lemma_views_of_entry(data@, stop_id);
    }
    match take(data, stop_id) {
        None => {
            assert(data@ =~= old(data)@);
        },
        Some(mut stop) => {
            stop.add_boarding_area(sloid);
            proof {
                lemma_views_after_insert(old(data)@, stop_id, stop);
            }
            store(data, stop_id, stop);
        },
    }
    Ok(())
}

} // verus!
