//! Stops.
//!
//! A line gives the number of a stop and its designations. Each designation
//! is followed by its kind in angle brackets: 1 for the name, 2 for the long
//! name, 3 for the abbreviation, 4 for a synonym. Dollar signs between the
//! designations are fillers:
//!
//! `8507000     Bern$<1>$BN$<3>`
//!
//! The files of coordinates, exchange priorities, exchange times and
//! descriptions complete the stops.
//!
//! Files read by the decoder: BAHNHOF, BFKOORD_LV95, BFKOORD_WGS, BFPRIOS,
//! UMSTEIGB, BHFART

use vstd::prelude::*;
use rustc_hash::FxHashMap;
use crate::grammar::{capture, skip, Grammar, Token};
use crate::models::{optional_text, optional_texts, CoordinateType, Stop, StopData, Version};
use crate::text::texts;
use crate::parsing::coordinate_parser;
use crate::parsing::description_parser;
use crate::parsing::exchange_priority_parser;
use crate::parsing::exchange_time_parser;
use crate::parsing::file_parser::{
    decode,
    decoded_file,
    feed,
    folded_all,
    records,
    FileParser,
    RecordSink,
};
use crate::parsing::{
    read_i32,
    read_text,
    row,
    value_i32,
    value_text,
    value_views,
    ExpectedType,
    Failure,
    ParseError,
    ParsedRow,
    ParsedValue,
    Record,
    RowDefinition,
    RowParser,
    RowShape,
    TypedValue,
};
use crate::storage::{
    entity_views,
    lemma_views_after_insert,
    lemma_views_of_empty,
    new_table,
    store,
};
use crate::text::{
    cut,
    i32_value,
    ranges_within,
    remove_char,
    split_on,
    split_ranges,
    text_to_i32,
    to_chars,
    without_char,
};

verus! {

/// The shapes of row in the file, in the order in which they are tried.
pub open spec fn stop_rows() -> Seq<RowShape> {
    seq![
        RowShape {
            id: 0,
            columns: seq![
                ExpectedType::Integer32,
                ExpectedType::String,
            ],
            steps: seq![
                capture(Token::Take(7)),
                skip(Token::Space1),
                capture(Token::Rest),
            ],
            whole: false,
        },
    ]
}

/// The decoder of the file of stops.
pub struct StopParser {
    file: String,
    row_parser: RowParser,
}

impl StopParser {
    fn get_parser_1() -> (grammar: Grammar)
        ensures
            grammar.steps@ == seq![
                capture(Token::Take(7)),
                skip(Token::Space1),
                capture(Token::Rest),
            ],
            !grammar.whole,
    {
        let steps = vec![
            capture(Token::Take(7)),
            skip(Token::Space1),
            capture(Token::Rest),
        ];
        assert(steps@ =~= seq![
            capture(Token::Take(7)),
            skip(Token::Space1),
            capture(Token::Rest),
        ]);
        Grammar::new(steps)
    }

    pub fn new() -> (parser: Self)
        ensures
            parser.shapes() == stop_rows(),
            parser.file_name() == "BAHNHOF"@,
    {
        let row_parser = {
            let mut rows: Vec<RowDefinition> = Vec::new();
            let kinds = vec![
                ExpectedType::Integer32,
                ExpectedType::String,
            ];
            assert(kinds@ =~= stop_rows()[0].columns);
            rows.push(row(0, kinds, Self::get_parser_1()));
            let row_parser = RowParser::new(rows);
            assert(row_parser@ =~= stop_rows());
            row_parser
        };
        Self { file: "BAHNHOF".to_owned(), row_parser }
    }

    /// The shapes of row that the decoder knows.
    pub closed spec fn shapes(&self) -> Seq<RowShape> {
        self.row_parser@
    }

    /// The name of the file that the decoder reads.
    pub closed spec fn file_name(&self) -> Seq<char> {
        self.file@
    }

    /// The name of the file that the decoder reads.
    pub fn file(&self) -> (name: &String)
        ensures
            name@ == self.file_name(),
    {
        &self.file
    }

    /// The classifier of the rows.
    pub fn row_parser(&self) -> (row_parser: &RowParser)
        ensures
            row_parser@ == self.shapes(),
    {
        &self.row_parser
    }

    /// Decodes the file of stops and completes the stops from the files of
    /// coordinates, exchange priorities, exchange times and descriptions, in
    /// this order. The exchange times for the stops without a line of their
    /// own are returned with the stops.
    pub fn parse(&self, version: Version, files: &StopFiles) -> (result: Result<
        (FxHashMap<i32, Stop>, (i16, i16)),
        ParseError,
    >)
        ensures
            match result {
                Ok(decoded) => decoded_stops(self.shapes(), version, files@) == Ok::<
                    (Map<i32, StopData>, (i16, i16)),
                    Failure,
                >((entity_views(decoded.0@), decoded.1)),
                Err(e) => decoded_stops(self.shapes(), version, files@) == Err::<
                    (Map<i32, StopData>, (i16, i16)),
                    Failure,
                >(e@),
            },
    {
        let mut sink = StopSink::new();
        decode(files.stops.as_slice(), 0, &self.row_parser, &mut sink)?;
        let mut data = sink.data;
        coordinate_parser::parse(
            version,
            files.lv95.as_slice(),
            CoordinateType::LV95,
            &mut data,
        )?;
        coordinate_parser::parse(
            version,
            files.wgs84.as_slice(),
            CoordinateType::WGS84,
            &mut data,
        )?;
        exchange_priority_parser::parse(files.priorities.as_slice(), &mut data)?;
        let default_exchange_time = exchange_time_parser::parse(
            files.exchange_times.as_slice(),
            &mut data,
        )?;
        description_parser::parse(version, files.descriptions.as_slice(), &mut data)?;
        Ok((data, default_exchange_time))
    }
}

/// The contents of the files that say something of stops.
pub struct StopFiles {
    pub stops: Vec<u8>,
    pub lv95: Vec<u8>,
    pub wgs84: Vec<u8>,
    pub priorities: Vec<u8>,
    pub exchange_times: Vec<u8>,
    pub descriptions: Vec<u8>,
}

/// What a [`StopFiles`] holds, as mathematics.
pub ghost struct StopContents {
    pub stops: Seq<u8>,
    pub lv95: Seq<u8>,
    pub wgs84: Seq<u8>,
    pub priorities: Seq<u8>,
    pub exchange_times: Seq<u8>,
    pub descriptions: Seq<u8>,
}

impl View for StopFiles {
    type V = StopContents;

    open spec fn view(&self) -> StopContents {
        StopContents {
            stops: self.stops@,
            lv95: self.lv95@,
            wgs84: self.wgs84@,
            priorities: self.priorities@,
            exchange_times: self.exchange_times@,
            descriptions: self.descriptions@,
        }
    }
}

/// The stops, and the exchange times for the stops without a line of their
/// own, that the files decode to.
pub open spec fn decoded_stops(shapes: Seq<RowShape>, version: Version, files: StopContents) -> Result<
    (Map<i32, StopData>, (i16, i16)),
    Failure,
> {
    match decoded_file::<StopSink>(shapes, files.stops, 0, Map::empty()) {
        Err(failure) => Err(failure),
        Ok(stops) => match decoded_file::<coordinate_parser::CoordinateSink>(
            coordinate_parser::coordinate_rows(version),
            files.lv95,
            0,
            coordinate_parser::Positions { coordinate_system: CoordinateType::LV95, data: stops },
        ) {
            Err(failure) => Err(failure),
            Ok(first) => match decoded_file::<coordinate_parser::CoordinateSink>(
                coordinate_parser::coordinate_rows(version),
                files.wgs84,
                0,
                coordinate_parser::Positions {
                    coordinate_system: CoordinateType::WGS84,
                    data: first.data,
                },
            ) {
                Err(failure) => Err(failure),
                Ok(second) => match decoded_file::<
                    exchange_priority_parser::ExchangePrioritySink,
                >(exchange_priority_parser::exchange_priority_rows(), files.priorities, 0, second.data) {
                    Err(failure) => Err(failure),
                    Ok(third) => match decoded_file::<exchange_time_parser::ExchangeTimeSink>(
                        exchange_time_parser::exchange_time_rows(),
                        files.exchange_times,
                        0,
                        exchange_time_parser::ExchangeTimes {
                            default_exchange_time: (0, 0),
                            data: third,
                        },
                    ) {
                        Err(failure) => Err(failure),
                        Ok(fourth) => match decoded_file::<description_parser::DescriptionSink>(
                            description_parser::description_rows(),
                            files.descriptions,
                            0,
                            fourth.data,
                        ) {
                            Err(failure) => Err(failure),
                            Ok(fifth) => Ok((fifth, fourth.default_exchange_time)),
                        },
                    },
                },
            },
        },
    }
}

/// The designations of a stop, as far as they are read.
pub ghost struct Designations {
    pub name: Option<Seq<char>>,
    pub long_name: Option<Seq<char>>,
    pub abbreviation: Option<Seq<char>>,
    pub synonyms: Seq<Seq<char>>,
}

/// Kind and text of one designation: fillers are dropped, the text comes
/// first, the number of the kind follows an opening angle bracket.
pub open spec fn designation_of(part: Seq<char>) -> Result<(i32, Seq<char>), Failure> {
    let pieces = split_on(without_char(part, '$'), '<');
    if pieces.len() < 2 {
        Err(Failure::MissingPart)
    } else {
        match i32_value(pieces[1]) {
            None => Err(Failure::InvalidValue { column: 1, text: pieces[1] }),
            Some(kind) => Ok((kind, pieces[0])),
        }
    }
}

/// The designations after one more of them. The first name, long name and
/// abbreviation count; every synonym counts.
pub open spec fn with_designation(so_far: Designations, kind: i32, text: Seq<char>) -> Designations {
    if kind == 1 {
        if so_far.name is None {
            Designations { name: Some(text), ..so_far }
        } else {
            so_far
        }
    } else if kind == 2 {
        if so_far.long_name is None {
            Designations { long_name: Some(text), ..so_far }
        } else {
            so_far
        }
    } else if kind == 3 {
        if so_far.abbreviation is None {
            Designations { abbreviation: Some(text), ..so_far }
        } else {
            so_far
        }
    } else if kind == 4 {
        Designations { synonyms: so_far.synonyms.push(text), ..so_far }
    } else {
        so_far
    }
}

/// The designations that the first `k` parts give. Empty parts give nothing.
pub open spec fn designations_after(parts: Seq<Seq<char>>, k: nat) -> Result<Designations, Failure>
    decreases k,
{
    if k == 0 {
        Ok(
            Designations {
                name: None,
                long_name: None,
                abbreviation: None,
                synonyms: Seq::empty(),
            },
        )
    } else {
        match designations_after(parts, (k - 1) as nat) {
            Err(failure) => Err(failure),
            Ok(so_far) => if parts[k - 1].len() == 0 {
                Ok(so_far)
            } else {
                match designation_of(parts[k - 1]) {
                    Err(failure) => Err(failure),
                    Ok((kind, text)) => Ok(with_designation(so_far, kind, text)),
                }
            },
        }
    }
}

/// Once a part has failed, the parts after it do not change the failure.
pub proof fn lemma_designation_failure_is_final(parts: Seq<Seq<char>>, k: nat, m: nat)
    requires
        designations_after(parts, k) is Err,
        m >= k,
    ensures
        designations_after(parts, m) == designations_after(parts, k),
    decreases m,
{
    if m > k {
        lemma_designation_failure_is_final(parts, k, (m - 1) as nat);
    }
}

/// Name, long name, abbreviation and synonyms in a text of designations:
/// the text is cut at every closing angle bracket, and each part gives one
/// designation. A stop must have a name.
pub open spec fn designations_of(text: Seq<char>) -> Result<
    (Seq<char>, Option<Seq<char>>, Option<Seq<char>>, Option<Seq<Seq<char>>>),
    Failure,
> {
    match designations_after(split_on(text, '>'), split_on(text, '>').len()) {
        Err(failure) => Err(failure),
        Ok(all) => match all.name {
            None => Err(Failure::MissingPart),
            Some(name) => Ok(
                (
                    name,
                    all.long_name,
                    all.abbreviation,
                    if all.synonyms.len() == 0 {
                        None
                    } else {
                        Some(all.synonyms)
                    },
                ),
            ),
        },
    }
}

/// The stop that a row gives.
pub open spec fn stop_of(values: Seq<TypedValue>) -> Result<StopData, Failure> {
    match read_i32(values, 0) {
        Err(failure) => Err(failure),
        Ok(id) => match read_text(values, 1) {
            Err(failure) => Err(failure),
            Ok(designations) => match designations_of(designations) {
                Err(failure) => Err(failure),
                Ok((name, long_name, abbreviation, synonyms)) => Ok(
                    StopData {
                        id,
                        name,
                        long_name,
                        abbreviation,
                        synonyms,
                        lv95_coordinate: None,
                        wgs84_coordinate: None,
                        exchange_priority: 8,
                        exchange_time: None,
                        restrictions: 0,
                        sloid: Seq::empty(),
                        boarding_areas: Seq::empty(),
                    },
                ),
            },
        },
    }
}

/// The stops after one more row: the stop of the row is stored under its number.
pub open spec fn with_stop(data: Map<i32, StopData>, values: Seq<TypedValue>) -> Result<
    Map<i32, StopData>,
    Failure,
> {
    match stop_of(values) {
        Err(failure) => Err(failure),
        Ok(stop) => Ok(data.insert(stop.id, stop)),
    }
}

/// The accumulator of the decoder.
pub struct StopSink {
    data: FxHashMap<i32, Stop>,
}

impl StopSink {
    /// An accumulator that holds nothing yet.
    pub fn new() -> (sink: Self)
        ensures
            sink.state() == Map::<i32, StopData>::empty(),
    {
        proof {
            lemma_views_of_empty::<Stop>();
        }
        StopSink { data: new_table() }
    }
}

impl RecordSink for StopSink {
    type State = Map<i32, StopData>;

    closed spec fn state(&self) -> Map<i32, StopData> {
        entity_views(self.data@)
    }

    open spec fn step(state: Map<i32, StopData>, record: Record) -> Result<
        Map<i32, StopData>,
        Failure,
    > {
        with_stop(state, record.2)
    }

    fn accept(&mut self, row: ParsedRow) -> (result: Result<(), ParseError>) {
        let stop = create_instance(row.2)?;
        let id = stop.id();
        proof {
            lemma_views_after_insert(self.data@, id, stop);
        }
        store(&mut self.data, id, stop);
        Ok(())
    }
}

/// Turns the rows of a file into stops.
pub fn row_converter(parser: FileParser) -> (result: Result<FxHashMap<i32, Stop>, ParseError>)
    ensures
        match result {
            Ok(data) => folded_all::<StopSink>(
                records(parser.shapes(), parser.lines()),
                Map::empty(),
            ) == Ok::<Map<i32, StopData>, Failure>(entity_views(data@)),
            Err(e) => folded_all::<StopSink>(
                records(parser.shapes(), parser.lines()),
                Map::empty(),
            ) == Err::<Map<i32, StopData>, Failure>(e@),
        },
{
    let mut sink = StopSink::new();
    feed(&parser, &mut sink)?;
    Ok(sink.data)
}

/// Builds the stop of a row.
pub fn create_instance(values: Vec<ParsedValue>) -> (result: Result<Stop, ParseError>)
    ensures
        match result {
            Ok(stop) => stop_of(value_views(values@)) == Ok::<StopData, Failure>(stop@),
            Err(e) => stop_of(value_views(values@)) == Err::<StopData, Failure>(e@),
        },
{
    let id = value_i32(&values, 0)?;
    let designations = value_text(&values, 1)?;
    let (name, long_name, abbreviation, synonyms) = parse_designations(designations)?;
    Ok(Stop::new(id, name, long_name, abbreviation, synonyms))
}

/// Decodes the files of stops of a release.
pub fn parse(version: Version, files: &StopFiles) -> (result: Result<
    (FxHashMap<i32, Stop>, (i16, i16)),
    ParseError,
>)
    ensures
        match result {
            Ok(decoded) => decoded_stops(stop_rows(), version, files@) == Ok::<
                (Map<i32, StopData>, (i16, i16)),
                Failure,
            >((entity_views(decoded.0@), decoded.1)),
            Err(e) => decoded_stops(stop_rows(), version, files@) == Err::<
                (Map<i32, StopData>, (i16, i16)),
                Failure,
            >(e@),
        },
{
    StopParser::new().parse(version, files)
}

/// Reads the designations of a stop.
pub fn parse_designations(designations: String) -> (result: Result<
    (String, Option<String>, Option<String>, Option<Vec<String>>),
    ParseError,
>)
    ensures
        match result {
            Ok(parts) => designations_of(designations@) == Ok::<
                (Seq<char>, Option<Seq<char>>, Option<Seq<char>>, Option<Seq<Seq<char>>>),
                Failure,
            >((parts.0@, optional_text(parts.1), optional_text(parts.2), optional_texts(parts.3))),
            Err(e) => designations_of(designations@) == Err::<
                (Seq<char>, Option<Seq<char>>, Option<Seq<char>>, Option<Seq<Seq<char>>>),
                Failure,
            >(e@),
        },
{
    let text = designations.as_str();
    let chars = to_chars(text);
    assert(chars@.subrange(0, chars@.len() as int) =~= chars@);
    let parts = split_ranges(chars.as_slice(), 0, chars.len(), '>');
    let ghost pieces = split_on(chars@, '>');
    let mut name: Option<String> = None;
    let mut long_name: Option<String> = None;
    let mut abbreviation: Option<String> = None;
    let mut synonyms: Vec<String> = Vec::new();
    let mut k: usize = 0;
    assert(texts(synonyms@) =~= Seq::empty());
    while k < parts.len()
        invariant
            k <= parts@.len(),
            chars@ == text@,
            text@ == designations@,
            pieces == split_on(chars@, '>'),
            pieces == cut(chars@, parts@),
            ranges_within(parts@, chars@.len()),
            designations_after(pieces, k as nat) == Ok::<Designations, Failure>(
                Designations {
                    name: optional_text(name),
                    long_name: optional_text(long_name),
                    abbreviation: optional_text(abbreviation),
                    synonyms: texts(synonyms@),
                },
            ),
        decreases parts@.len() - k,
    {
        let (from, to) = parts[k];
        assert(pieces[k as int] == chars@.subrange(from as int, to as int));
        if from < to {
            match parse_designation(text.substring_char(from, to)) {
                Err(e) => {
                    proof {
                        assert(designations_after(pieces, (k + 1) as nat) is Err);
                        lemma_designation_failure_is_final(pieces, (k + 1) as nat, pieces.len());
                    }
                    return Err(e);
                },
                Ok((kind, value)) => {
                    if kind == 1 {
                        if name.is_none() {
                            name = Some(value);
                        }
                    } else if kind == 2 {
                        if long_name.is_none() {
                            long_name = Some(value);
                        }
                    } else if kind == 3 {
                        if abbreviation.is_none() {
                            abbreviation = Some(value);
                        }
                    } else if kind == 4 {
                        let ghost before = synonyms@;
                        synonyms.push(value);
                        assert(texts(synonyms@) =~= texts(before).push(value@));
                    }
                },
            }
        }
        k = k + 1;
    }
    match name {
        None => Err(ParseError::MissingPart),
        Some(name) => {
            let synonyms = if synonyms.len() == 0 {
                None
            } else {
                Some(synonyms)
            };
            Ok((name, long_name, abbreviation, synonyms))
        },
    }
}

/// Reads the kind and the text of one designation.
pub fn parse_designation(part: &str) -> (result: Result<(i32, String), ParseError>)
    ensures
        match result {
            Ok(pair) => designation_of(part@) == Ok::<(i32, Seq<char>), Failure>(
                (pair.0, pair.1@),
            ),
            Err(e) => designation_of(part@) == Err::<(i32, Seq<char>), Failure>(e@),
        },
{
    let cleaned = remove_char(part, '$');
    let text = cleaned.as_str();
    let chars = to_chars(text);
    assert(chars@.subrange(0, chars@.len() as int) =~= chars@);
    let halves = split_ranges(chars.as_slice(), 0, chars.len(), '<');
    if halves.len() < 2 {
        return Err(ParseError::MissingPart);
    }
    let (value_from, value_to) = halves[0];
    let (kind_from, kind_to) = halves[1];
    let ghost pieces = split_on(chars@, '<');
    assert(pieces[0] == chars@.subrange(value_from as int, value_to as int));
    assert(pieces[1] == chars@.subrange(kind_from as int, kind_to as int));
    let kind_text = text.substring_char(kind_from, kind_to);
    match text_to_i32(kind_text) {
        None => Err(ParseError::InvalidValue { column: 1, text: kind_text.to_owned() }),
        Some(kind) => Ok((kind, text.substring_char(value_from, value_to).to_owned())),
    }
}

} // verus!
