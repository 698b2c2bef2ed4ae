//! Key data of a timetable.
//!
//! The file has three lines: the first day of the timetable, its last day,
//! and a line with its name, the time of its making, the release of the
//! format and the provider, with dollar signs in between:
//!
//! `10.12.2023`
//! `14.12.2024`
//! `Fahrplan 2024$10.12.2023 22:11:48$5.40.41$INFO+`
//!
//! File read by the decoder: ECKDATEN

use vstd::prelude::*;
use rustc_hash::FxHashMap;
use crate::dates::{date_to_text, day_month_year, displayed_date, parse_date, parsed_date};
use crate::grammar::{capture, skip, Grammar, Token};
use crate::models::{Date, TimetableMetadataEntry, TimetableMetadataEntryData};
use crate::parsing::file_parser::{
    decode,
    decoded_file,
    feed,
    folded_all,
    records,
    FileParser,
    RecordSink,
};
use crate::parsing::{
    read_text,
    row,
    value_text,
    value_views,
    ExpectedType,
    Failure,
    ParseError,
    ParsedRow,
    ParsedValue,
    Record,
    RowDefinition,
    RowParser,
    RowShape,
    TypedValue,
};
use crate::storage::{
    entity_views,
    lemma_views_after_insert,
    lemma_views_of_empty,
    new_table,
    store,
};
use crate::text::{split_on, split_ranges, to_chars};
use crate::utils::AutoIncrement;

verus! {

/// A day.
pub const ROW_A: i32 = 1;

/// Any other line.
pub const ROW_B: i32 = 2;

/// The shapes of row in the file, in the order in which they are tried.
pub open spec fn timetable_metadata_rows() -> Seq<RowShape> {
    seq![
        RowShape {
            id: ROW_A,
            columns: seq![
                ExpectedType::String,
            ],
            steps: seq![
                skip(Token::Take(2)),
                skip(Token::Tag(".")),
                skip(Token::Take(2)),
                skip(Token::Tag(".")),
                skip(Token::Take(4)),
            ],
            whole: true,
        },
        RowShape {
            id: ROW_B,
            columns: seq![
                ExpectedType::String,
            ],
            steps: seq![
                capture(Token::Rest),
            ],
            whole: false,
        },
    ]
}

/// The decoder of the file of key data.
pub struct TimetableMetadataParser {
    file: String,
    row_parser: RowParser,
}

impl TimetableMetadataParser {
    fn get_parser_1() -> (grammar: Grammar)
        ensures
            grammar.steps@ == seq![
                skip(Token::Take(2)),
                skip(Token::Tag(".")),
                skip(Token::Take(2)),
                skip(Token::Tag(".")),
                skip(Token::Take(4)),
            ],
            grammar.whole,
    {
        let steps = vec![
            skip(Token::Take(2)),
            skip(Token::Tag(".")),
            skip(Token::Take(2)),
            skip(Token::Tag(".")),
            skip(Token::Take(4)),
        ];
        assert(steps@ =~= seq![
            skip(Token::Take(2)),
            skip(Token::Tag(".")),
            skip(Token::Take(2)),
            skip(Token::Tag(".")),
            skip(Token::Take(4)),
        ]);
        Grammar::recognize(steps)
    }

    fn get_parser_2() -> (grammar: Grammar)
        ensures
            grammar.steps@ == seq![
                capture(Token::Rest),
            ],
            !grammar.whole,
    {
        let steps = vec![
            capture(Token::Rest),
        ];
        assert(steps@ =~= seq![
            capture(Token::Rest),
        ]);
        Grammar::new(steps)
    }

    pub fn new() -> (parser: Self)
        ensures
            parser.shapes() == timetable_metadata_rows(),
            parser.file_name() == "ECKDATEN"@,
    {
        let row_parser = {
            let mut rows: Vec<RowDefinition> = Vec::new();
            let kinds = vec![
                ExpectedType::String,
            ];
            assert(kinds@ =~= timetable_metadata_rows()[0].columns);
            rows.push(row(ROW_A, kinds, Self::get_parser_1()));
            let kinds = vec![
                ExpectedType::String,
            ];
            assert(kinds@ =~= timetable_metadata_rows()[1].columns);
            rows.push(row(ROW_B, kinds, Self::get_parser_2()));
            let row_parser = RowParser::new(rows);
            assert(row_parser@ =~= timetable_metadata_rows());
            row_parser
        };
        Self { file: "ECKDATEN".to_owned(), row_parser }
    }

    /// The shapes of row that the decoder knows.
    pub closed spec fn shapes(&self) -> Seq<RowShape> {
        self.row_parser@
    }

    /// The name of the file that the decoder reads.
    pub closed spec fn file_name(&self) -> Seq<char> {
        self.file@
    }

    /// The name of the file that the decoder reads.
    pub fn file(&self) -> (name: &String)
        ensures
            name@ == self.file_name(),
    {
        &self.file
    }

    /// The classifier of the rows.
    pub fn row_parser(&self) -> (row_parser: &RowParser)
        ensures
            row_parser@ == self.shapes(),
    {
        &self.row_parser
    }

    /// Decodes the content of the file.
    pub fn parse(&self, content: &[u8]) -> (result: Result<
        FxHashMap<i32, TimetableMetadataEntry>,
        ParseError,
    >)
        ensures
            match result {
                Ok(data) => decoded_metadata(self.shapes(), content@) == Ok::<
                    Map<i32, TimetableMetadataEntryData>,
                    Failure,
                >(entity_views(data@)),
                Err(e) => decoded_metadata(self.shapes(), content@) == Err::<
                    Map<i32, TimetableMetadataEntryData>,
                    Failure,
                >(e@),
            },
    {
        let mut sink = FirstValueSink::new();
        decode(content, 0, &self.row_parser, &mut sink)?;
        entries_of(sink.firsts)
    }
}

/// The first value of every row so far.
pub open spec fn with_first_value(firsts: Seq<TypedValue>, values: Seq<TypedValue>) -> Result<
    Seq<TypedValue>,
    Failure,
> {
    if values.len() == 0 {
        Err(Failure::MissingValue)
    } else {
        Ok(firsts.push(values[0]))
    }
}

/// The two days of a timetable as the files have them, and the rest of its
/// key data.
pub open spec fn key_data_of(values: Seq<TypedValue>) -> Result<
    (Seq<char>, Seq<char>, Seq<char>),
    Failure,
> {
    match read_text(values, 0) {
        Err(failure) => Err(failure),
        Ok(start_date) => match read_text(values, 1) {
            Err(failure) => Err(failure),
            Ok(end_date) => match read_text(values, 2) {
                Err(failure) => Err(failure),
                Ok(other_data) => Ok((start_date, end_date, other_data)),
            },
        },
    }
}

/// One entry of key data.
pub open spec fn entry(id: nat, key: Seq<char>, value: Seq<char>) -> TimetableMetadataEntryData {
    TimetableMetadataEntryData { id: id as i32, key, value }
}

/// The entries that the two days, written year first, and the rest of the
/// key data make, when `issued` identifiers were handed out before: the
/// entries get the next six.
pub open spec fn entries_from_texts(
    start_date: Option<Seq<char>>,
    end_date: Option<Seq<char>>,
    other_data: Seq<char>,
    issued: nat,
) -> Result<Seq<TimetableMetadataEntryData>, Failure> {
    let parts = split_on(other_data, '$');
    if start_date is None || end_date is None {
        Err(Failure::InvalidDate)
    } else if parts.len() < 4 {
        Err(Failure::MissingPart)
    } else if issued + 6 > i32::MAX {
        Err(Failure::IdentifiersExhausted)
    } else {
        Ok(
            seq![
                entry(issued + 1, "start_date"@, start_date->0),
                entry(issued + 2, "end_date"@, end_date->0),
                entry(issued + 3, "name"@, parts[0]),
                entry(issued + 4, "created_at"@, parts[1]),
                entry(issued + 5, "version"@, parts[2]),
                entry(issued + 6, "provider"@, parts[3]),
            ],
        )
    }
}

/// Year, month and day of a date written year first.
pub open spec fn displayed(date: (i32, u32, u32)) -> Option<Seq<char>> {
    displayed_date(date.0, date.1, date.2)
}

/// The entries that the two days and the rest of the key data make.
pub open spec fn entries_from_dates(
    start_date: Option<(i32, u32, u32)>,
    end_date: Option<(i32, u32, u32)>,
    other_data: Seq<char>,
    issued: nat,
) -> Result<Seq<TimetableMetadataEntryData>, Failure> {
    if start_date is None || end_date is None {
        Err(Failure::InvalidDate)
    } else {
        entries_from_texts(displayed(start_date->0), displayed(end_date->0), other_data, issued)
    }
}

/// The entries that the first values of the rows of a file make.
pub open spec fn metadata_of(values: Seq<TypedValue>, issued: nat) -> Result<
    Seq<TimetableMetadataEntryData>,
    Failure,
> {
    match key_data_of(values) {
        Err(failure) => Err(failure),
        Ok((start_date, end_date, other_data)) => entries_from_dates(
            parsed_date(start_date, day_month_year()),
            parsed_date(end_date, day_month_year()),
            other_data,
            issued,
        ),
    }
}

/// The first `k` entries, each under its identifier.
pub open spec fn by_id(entries: Seq<TimetableMetadataEntryData>, k: nat) -> Map<
    i32,
    TimetableMetadataEntryData,
>
    decreases k,
{
    if k == 0 {
        Map::empty()
    } else {
        by_id(entries, (k - 1) as nat).insert(entries[k - 1].id, entries[k - 1])
    }
}

/// The entries of key data that the content of a file decodes to.
pub open spec fn decoded_metadata(shapes: Seq<RowShape>, content: Seq<u8>) -> Result<
    Map<i32, TimetableMetadataEntryData>,
    Failure,
> {
    match decoded_file::<FirstValueSink>(shapes, content, 0, Seq::empty()) {
        Err(failure) => Err(failure),
        Ok(firsts) => match metadata_of(firsts, 0) {
            Err(failure) => Err(failure),
            Ok(entries) => Ok(by_id(entries, entries.len())),
        },
    }
}

/// The accumulator of the decoder: the first value of every row.
pub struct FirstValueSink {
    firsts: Vec<ParsedValue>,
}

impl FirstValueSink {
    /// An accumulator that holds nothing yet.
    pub fn new() -> (sink: Self)
        ensures
            sink.state() == Seq::<TypedValue>::empty(),
    {
        let sink = FirstValueSink { firsts: Vec::new() };
        assert(value_views(sink.firsts@) =~= Seq::empty());
        sink
    }
}

impl RecordSink for FirstValueSink {
    type State = Seq<TypedValue>;

    closed spec fn state(&self) -> Seq<TypedValue> {
        value_views(self.firsts@)
    }

    open spec fn step(state: Seq<TypedValue>, record: Record) -> Result<Seq<TypedValue>, Failure> {
        with_first_value(state, record.2)
    }

    fn accept(&mut self, row: ParsedRow) -> (result: Result<(), ParseError>) {
        let mut values = row.2;
        if values.len() == 0 {
            return Err(ParseError::MissingValue);
        }
        let first = values.remove(0);
        let ghost before = self.firsts@;
        self.firsts.push(first);
        assert(value_views(self.firsts@) =~= value_views(before).push(first@));
        Ok(())
    }
}

/// Turns the rows of a file into entries of key data.
pub fn row_converter(parser: FileParser) -> (result: Result<
    FxHashMap<i32, TimetableMetadataEntry>,
    ParseError,
>)
    ensures
        match result {
            Ok(data) => folded_all::<FirstValueSink>(
                records(parser.shapes(), parser.lines()),
                Seq::empty(),
            ) matches Ok(firsts) && metadata_of(firsts, 0) matches Ok(entries) && by_id(
                entries,
                entries.len(),
            ) == entity_views(data@),
            Err(e) => match folded_all::<FirstValueSink>(
                records(parser.shapes(), parser.lines()),
                Seq::empty(),
            ) {
                Err(failure) => failure == e@,
                Ok(firsts) => metadata_of(firsts, 0) == Err::<
                    Seq<TimetableMetadataEntryData>,
                    Failure,
                >(e@),
            },
        },
{
    let mut sink = FirstValueSink::new();
    feed(&parser, &mut sink)?;
    entries_of(sink.firsts)
}

/// Builds the entries from the first values of the rows and stores each
/// under its identifier.
pub fn entries_of(firsts: Vec<ParsedValue>) -> (result: Result<
    FxHashMap<i32, TimetableMetadataEntry>,
    ParseError,
>)
    ensures
        match result {
            Ok(data) => metadata_of(value_views(firsts@), 0) matches Ok(entries) && by_id(
                entries,
                entries.len(),
            ) == entity_views(data@),
            Err(e) => metadata_of(value_views(firsts@), 0) == Err::<
                Seq<TimetableMetadataEntryData>,
                Failure,
            >(e@),
        },
{
    let mut auto_increment = AutoIncrement::new();
    let mut entries = create_instance(firsts, &mut auto_increment)?;
    let ghost all = entry_views(entries@);
    let mut data: FxHashMap<i32, TimetableMetadataEntry> = new_table();
    let ghost mut k: nat = 0;
    proof {
        lemma_views_of_empty::<TimetableMetadataEntry>();
        assert(entry_views(entries@) =~= all.skip(0));
    }
    while entries.len() > 0
        invariant
            k <= all.len(),
            entry_views(entries@) == all.skip(k as int),
            by_id(all, k) == entity_views(data@),
        decreases entries@.len(),
    {
        let ghost before = entries@;
        let next = entries.remove(0);
        let id = next.id();
        proof {
            assert(entry_views(before).len() == before.len());
            assert(all.skip(k as int).len() == all.len() - k);
            assert(entry_views(before)[0] == next@);
            assert(all.skip(k as int)[0] == all[k as int]);
            assert forall|i: int| 0 <= i < entries@.len() implies entry_views(entries@)[i]
                == all.skip(k + 1 as int)[i] by {
                assert(entries@[i] == before[i + 1]);
                assert(entry_views(before)[i + 1] == all.skip(k as int)[i + 1]);
            }
            assert(entry_views(entries@) =~= all.skip(k + 1 as int));
            lemma_views_after_insert(data@, id, next);
            k = k + 1;
        }
        store(&mut data, id, next);
    }
    Ok(data)
}

/// What each entry holds.
pub open spec fn entry_views(entries: Seq<TimetableMetadataEntry>) -> Seq<TimetableMetadataEntryData> {
    Seq::new(entries.len(), |i: int| entries[i]@)
}

/// Builds the entries of key data from the first values of the rows of a
/// file. The entries get the next six identifiers.
pub fn create_instance(values: Vec<ParsedValue>, auto_increment: &mut AutoIncrement) -> (result:
    Result<Vec<TimetableMetadataEntry>, ParseError>)
    ensures
        match result {
            Ok(entries) => metadata_of(value_views(values@), old(auto_increment).issued()) == Ok::<
                Seq<TimetableMetadataEntryData>,
                Failure,
            >(entry_views(entries@)),
            Err(e) => metadata_of(value_views(values@), old(auto_increment).issued()) == Err::<
                Seq<TimetableMetadataEntryData>,
                Failure,
            >(e@),
        },
{
    let start_date = value_text(&values, 0)?;
    let end_date = value_text(&values, 1)?;
    let other_data = value_text(&values, 2)?;
    let start_date = parse_date(start_date.as_str());
    let end_date = parse_date(end_date.as_str());
    create_entries(start_date, end_date, other_data, auto_increment)
}

/// Builds the entries of key data from the two days of the timetable, where
/// the texts of the file denote days, and the rest of the key data.
pub fn create_entries(
    start_date: Option<Date>,
    end_date: Option<Date>,
    other_data: String,
    auto_increment: &mut AutoIncrement,
) -> (result: Result<Vec<TimetableMetadataEntry>, ParseError>)
    ensures
        match result {
            Ok(entries) => entries_from_dates(
                crate::parsing::holiday_parser::date_parts(start_date),
                crate::parsing::holiday_parser::date_parts(end_date),
                other_data@,
                old(auto_increment).issued(),
            ) == Ok::<Seq<TimetableMetadataEntryData>, Failure>(entry_views(entries@)),
            Err(e) => entries_from_dates(
                crate::parsing::holiday_parser::date_parts(start_date),
                crate::parsing::holiday_parser::date_parts(end_date),
                other_data@,
                old(auto_increment).issued(),
            ) == Err::<Seq<TimetableMetadataEntryData>, Failure>(e@),
        },
{
    let (start_date, end_date) = match (start_date, end_date) {
        (Some(start_date), Some(end_date)) => (start_date, end_date),
        _ => {
            return Err(ParseError::InvalidDate);
        },
    };
    let start_date = date_to_text(start_date);
    let end_date = date_to_text(end_date);
    create_entries_from_texts(start_date, end_date, other_data, auto_increment)
}

/// Builds the entries of key data from the two days of the timetable,
/// written year first, and the rest of the key data.
pub fn create_entries_from_texts(
    start_date: Option<String>,
    end_date: Option<String>,
    other_data: String,
    auto_increment: &mut AutoIncrement,
) -> (result: Result<Vec<TimetableMetadataEntry>, ParseError>)
    ensures
        match result {
            Ok(entries) => entries_from_texts(
                crate::models::optional_text(start_date),
                crate::models::optional_text(end_date),
                other_data@,
                old(auto_increment).issued(),
            ) == Ok::<Seq<TimetableMetadataEntryData>, Failure>(entry_views(entries@)),
            Err(e) => entries_from_texts(
                crate::models::optional_text(start_date),
                crate::models::optional_text(end_date),
                other_data@,
                old(auto_increment).issued(),
            ) == Err::<Seq<TimetableMetadataEntryData>, Failure>(e@),
        },
{
    let (start_date, end_date) = match (start_date, end_date) {
        (Some(start_date), Some(end_date)) => (start_date, end_date),
        _ => {
            return Err(ParseError::InvalidDate);
        },
    };
    let text = other_data.as_str();
    let chars = to_chars(text);
    assert(chars@.subrange(0, chars@.len() as int) =~= chars@);
    let ranges = split_ranges(chars.as_slice(), 0, chars.len(), '$');
    if ranges.len() < 4 {
        return Err(ParseError::MissingPart);
    }
    let ghost parts = split_on(text@, '$');
    assert(parts[0] == chars@.subrange(ranges@[0].0 as int, ranges@[0].1 as int));
    assert(parts[1] == chars@.subrange(ranges@[1].0 as int, ranges@[1].1 as int));
    assert(parts[2] == chars@.subrange(ranges@[2].0 as int, ranges@[2].1 as int));
    assert(parts[3] == chars@.subrange(ranges@[3].0 as int, ranges@[3].1 as int));
    let latest = auto_increment.latest();
    if latest > i32::MAX - 6 {
        return Err(ParseError::IdentifiersExhausted);
    }
    let name = text.substring_char(ranges[0].0, ranges[0].1).to_owned();
    let created_at = text.substring_char(ranges[1].0, ranges[1].1).to_owned();
    let version = text.substring_char(ranges[2].0, ranges[2].1).to_owned();
    let provider = text.substring_char(ranges[3].0, ranges[3].1).to_owned();
    let mut entries: Vec<TimetableMetadataEntry> = Vec::new();
    entries.push(TimetableMetadataEntry::new(auto_increment.next(), "start_date".to_owned(), start_date));
    entries.push(TimetableMetadataEntry::new(auto_increment.next(), "end_date".to_owned(), end_date));
    entries.push(TimetableMetadataEntry::new(auto_increment.next(), "name".to_owned(), name));
    entries.push(TimetableMetadataEntry::new(auto_increment.next(), "created_at".to_owned(), created_at));
    entries.push(TimetableMetadataEntry::new(auto_increment.next(), "version".to_owned(), version));
    entries.push(TimetableMetadataEntry::new(auto_increment.next(), "provider".to_owned(), provider));
    assert(entry_views(entries@) =~= entries_from_texts(
        Some(start_date@),
        Some(end_date@),
        other_data@,
        old(auto_increment).issued(),
    )->Ok_0);
    Ok(entries)
}

/// Decodes the content of a file of key data.
pub fn parse(content: &[u8]) -> (result: Result<
    FxHashMap<i32, TimetableMetadataEntry>,
    ParseError,
>)
    ensures
        match result {
            Ok(data) => decoded_metadata(timetable_metadata_rows(), content@) == Ok::<
                Map<i32, TimetableMetadataEntryData>,
                Failure,
            >(entity_views(data@)),
            Err(e) => decoded_metadata(timetable_metadata_rows(), content@) == Err::<
                Map<i32, TimetableMetadataEntryData>,
                Failure,
            >(e@),
        },
{
    TimetableMetadataParser::new().parse(content)
}

} // verus!
