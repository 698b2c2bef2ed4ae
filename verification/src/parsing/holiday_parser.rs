//! Public holidays.
//!
//! A line gives the day of a holiday and, after some blanks, its name in four
//! languages. Each name is followed by the code of its language in angle
//! brackets:
//!
//! `25.12.2024 Weihnachtstag<deu>Noël<fra>Natale<ita>Christmas Day<eng>`
//!
//! File read by the decoder: FEIERTAG

use vstd::prelude::*;
use vstd::slice::slice_subrange;
use rustc_hash::FxHashMap;
use crate::dates::{day_month_year, parse_date, parsed_date};
use crate::grammar::{capture, skip, Grammar, Token};
use crate::models::{language_of, Date, Holiday, HolidayData, Language, TranslatedText, Translations};
use crate::parsing::file_parser::{
    decode,
    decoded_file,
    feed,
    folded_all,
    records,
    FileParser,
    RecordSink,
};
use crate::parsing::{
    read_text,
    row,
    value_text,
    value_views,
    ExpectedType,
    Failure,
    ParseError,
    ParsedRow,
    ParsedValue,
    Record,
    RowDefinition,
    RowParser,
    RowShape,
    TypedValue,
};
use crate::storage::{
    entity_views,
    lemma_views_after_insert,
    lemma_views_of_empty,
    new_table,
    store,
};
use crate::text::{cut, split_on, split_ranges, to_chars};
use crate::utils::AutoIncrement;

verus! {

/// The shapes of row in the file, in the order in which they are tried.
pub open spec fn holiday_rows() -> Seq<RowShape> {
    seq![
        RowShape {
            id: 0,
            columns: seq![
                ExpectedType::String,
                ExpectedType::String,
            ],
            steps: seq![
                capture(Token::Take(10)),
                skip(Token::Space1),
                capture(Token::Rest),
            ],
            whole: false,
        },
    ]
}

/// The decoder of the file of holidays.
pub struct HolidayParser {
    file: String,
    row_parser: RowParser,
}

impl HolidayParser {
    fn get_parser_1() -> (grammar: Grammar)
        ensures
            grammar.steps@ == seq![
                capture(Token::Take(10)),
                skip(Token::Space1),
                capture(Token::Rest),
            ],
            !grammar.whole,
    {
        let steps = vec![
            capture(Token::Take(10)),
            skip(Token::Space1),
            capture(Token::Rest),
        ];
        assert(steps@ =~= seq![
            capture(Token::Take(10)),
            skip(Token::Space1),
            capture(Token::Rest),
        ]);
        Grammar::new(steps)
    }

    pub fn new() -> (parser: Self)
        ensures
            parser.shapes() == holiday_rows(),
            parser.file_name() == "FEIERTAG"@,
    {
        let row_parser = {
            let mut rows: Vec<RowDefinition> = Vec::new();
            let kinds = vec![
                ExpectedType::String,
                ExpectedType::String,
            ];
            assert(kinds@ =~= holiday_rows()[0].columns);
            rows.push(row(0, kinds, Self::get_parser_1()));
            let row_parser = RowParser::new(rows);
            assert(row_parser@ =~= holiday_rows());
            row_parser
        };
        Self { file: "FEIERTAG".to_owned(), row_parser }
    }

    /// The shapes of row that the decoder knows.
    pub closed spec fn shapes(&self) -> Seq<RowShape> {
        self.row_parser@
    }

    /// The name of the file that the decoder reads.
    pub closed spec fn file_name(&self) -> Seq<char> {
        self.file@
    }

    /// The name of the file that the decoder reads.
    pub fn file(&self) -> (name: &String)
        ensures
            name@ == self.file_name(),
    {
        &self.file
    }

    /// The classifier of the rows.
    pub fn row_parser(&self) -> (row_parser: &RowParser)
        ensures
            row_parser@ == self.shapes(),
    {
        &self.row_parser
    }

    /// Decodes the content of the file.
    pub fn parse(&self, content: &[u8]) -> (result: Result<FxHashMap<i32, Holiday>, ParseError>)
        ensures
            match result {
                Ok(data) => decoded_file::<HolidaySink>(
                    self.shapes(),
                    content@,
                    0,
                    Holidays::none(),
                ) matches Ok(state) && state.data == entity_views(data@),
                Err(e) => decoded_file::<HolidaySink>(
                    self.shapes(),
                    content@,
                    0,
                    Holidays::none(),
                ) == Err::<Holidays, Failure>(e@),
            },
    {
        let mut sink = HolidaySink::new();
        decode(content, 0, &self.row_parser, &mut sink)?;
        Ok(sink.data)
    }
}

/// What the decoder has accumulated: the holidays by identifier, and the
/// number of identifiers handed out.
pub ghost struct Holidays {
    pub data: Map<i32, HolidayData>,
    pub issued: nat,
}

impl Holidays {
    /// Nothing accumulated yet.
    pub open spec fn none() -> Holidays {
        Holidays { data: Map::empty(), issued: 0 }
    }
}

/// The language and the name that one part of the names gives: the name comes
/// first, the code of the language follows an opening angle bracket.
pub open spec fn translation_of(part: Seq<char>) -> Result<(Language, Seq<char>), Failure> {
    let pieces = split_on(part, '<');
    if pieces.len() < 2 {
        Err(Failure::MissingPart)
    } else {
        match language_of(pieces[1]) {
            None => Err(Failure::UnknownLanguage),
            Some(language) => Ok((language, pieces[0])),
        }
    }
}

/// The names that the first `k` parts give. Empty parts give nothing; a
/// later name in a language replaces an earlier one.
pub open spec fn translations_after(parts: Seq<Seq<char>>, k: nat) -> Result<TranslatedText, Failure>
    decreases k,
{
    if k == 0 {
        Ok(TranslatedText::none())
    } else {
        match translations_after(parts, (k - 1) as nat) {
            Err(failure) => Err(failure),
            Ok(names) => if parts[k - 1].len() == 0 {
                Ok(names)
            } else {
                match translation_of(parts[k - 1]) {
                    Err(failure) => Err(failure),
                    Ok((language, name)) => Ok(names.with(language, name)),
                }
            },
        }
    }
}

/// The names in a text of names: the text is cut at every closing angle
/// bracket, and each part gives one name.
pub open spec fn name_translations_of(text: Seq<char>) -> Result<TranslatedText, Failure> {
    translations_after(split_on(text, '>'), split_on(text, '>').len())
}

/// Once a part has failed, the parts after it do not change the failure.
pub proof fn lemma_translation_failure_is_final(parts: Seq<Seq<char>>, k: nat, m: nat)
    requires
        translations_after(parts, k) is Err,
        m >= k,
    ensures
        translations_after(parts, m) == translations_after(parts, k),
    decreases m,
{
    if m > k {
        lemma_translation_failure_is_final(parts, k, (m - 1) as nat);
    }
}

/// The holiday that a date and a text of names make under an identifier.
pub open spec fn holiday_of(date: Option<(i32, u32, u32)>, names: Seq<char>, id: i32) -> Result<
    HolidayData,
    Failure,
> {
    match date {
        None => Err(Failure::InvalidDate),
        Some((year, month, day)) => match name_translations_of(names) {
            Err(failure) => Err(failure),
            Ok(name) => Ok(HolidayData { id, date: Date { year, month, day }, name }),
        },
    }
}

/// The holiday that a row gives when `issued` identifiers were handed out
/// before it: it gets the next one.
pub open spec fn holiday_in_row(values: Seq<TypedValue>, issued: nat) -> Result<HolidayData, Failure> {
    match read_text(values, 0) {
        Err(failure) => Err(failure),
        Ok(date) => match read_text(values, 1) {
            Err(failure) => Err(failure),
            Ok(names) => match holiday_of(
                parsed_date(date, day_month_year()),
                names,
                (issued + 1) as i32,
            ) {
                Err(failure) => Err(failure),
                Ok(holiday) => if issued >= i32::MAX {
                    Err(Failure::IdentifiersExhausted)
                } else {
                    Ok(holiday)
                },
            },
        },
    }
}

/// What one more row makes of the accumulated holidays: the holiday of the
/// row is stored under the next identifier.
pub open spec fn with_row(state: Holidays, values: Seq<TypedValue>) -> Result<Holidays, Failure> {
    match holiday_in_row(values, state.issued) {
        Err(failure) => Err(failure),
        Ok(holiday) => Ok(
            Holidays { data: state.data.insert(holiday.id, holiday), issued: state.issued + 1 },
        ),
    }
}

/// The accumulator of the decoder.
pub struct HolidaySink {
    data: FxHashMap<i32, Holiday>,
    auto_increment: AutoIncrement,
}

impl HolidaySink {
    /// An accumulator that holds nothing yet.
    pub fn new() -> (sink: Self)
        ensures
            sink.state() == Holidays::none(),
    {
        proof {
            lemma_views_of_empty::<Holiday>();
        }
        HolidaySink { data: new_table(), auto_increment: AutoIncrement::new() }
    }
}

impl RecordSink for HolidaySink {
    type State = Holidays;

    closed spec fn state(&self) -> Holidays {
        Holidays { data: entity_views(self.data@), issued: self.auto_increment.issued() }
    }

    open spec fn step(state: Holidays, record: Record) -> Result<Holidays, Failure> {
        with_row(state, record.2)
    }

    fn accept(&mut self, row: ParsedRow) -> (result: Result<(), ParseError>) {
        let holiday = create_instance(row.2, &mut self.auto_increment)?;
        let id = holiday.id();
        proof {
            lemma_views_after_insert(self.data@, id, holiday);
        }
        store(&mut self.data, id, holiday);
        Ok(())
    }
}

/// Turns the rows of a file into holidays.
pub fn row_converter(parser: FileParser) -> (result: Result<FxHashMap<i32, Holiday>, ParseError>)
    ensures
        match result {
            Ok(data) => folded_all::<HolidaySink>(
                records(parser.shapes(), parser.lines()),
                Holidays::none(),
            ) matches Ok(state) && state.data == entity_views(data@),
            Err(e) => folded_all::<HolidaySink>(
                records(parser.shapes(), parser.lines()),
                Holidays::none(),
            ) == Err::<Holidays, Failure>(e@),
        },
{
    let mut sink = HolidaySink::new();
    feed(&parser, &mut sink)?;
    Ok(sink.data)
}

/// Builds the holiday of a row, with the next identifier.
pub fn create_instance(values: Vec<ParsedValue>, auto_increment: &mut AutoIncrement) -> (result:
    Result<Holiday, ParseError>)
    ensures
        match result {
            Ok(holiday) => holiday_in_row(value_views(values@), old(auto_increment).issued())
                == Ok::<HolidayData, Failure>(holiday@) && final(auto_increment).issued() == old(
                auto_increment,
            ).issued() + 1,
            Err(e) => holiday_in_row(value_views(values@), old(auto_increment).issued()) == Err::<
                HolidayData,
                Failure,
            >(e@) && final(auto_increment).issued() == old(auto_increment).issued(),
        },
{
    let date = value_text(&values, 0)?;
    let name_translations = value_text(&values, 1)?;
    let date = parse_date(date.as_str());
    holiday_from(date, name_translations, auto_increment)
}

/// Builds a holiday from its date, where the text of the row denotes one, and
/// the text of its names. The holiday gets the next identifier.
pub fn holiday_from(
    date: Option<Date>,
    name_translations: String,
    auto_increment: &mut AutoIncrement,
) -> (result: Result<Holiday, ParseError>)
    ensures
        match result {
            Ok(holiday) => old(auto_increment).issued() < i32::MAX && holiday_of(
                date_parts(date),
                name_translations@,
                (old(auto_increment).issued() + 1) as i32,
            ) == Ok::<HolidayData, Failure>(holiday@) && final(auto_increment).issued() == old(
                auto_increment,
            ).issued() + 1,
            Err(e) => final(auto_increment).issued() == old(auto_increment).issued() && match holiday_of(
                date_parts(date),
                name_translations@,
                (old(auto_increment).issued() + 1) as i32,
            ) {
                Err(failure) => failure == e@,
                Ok(_) => old(auto_increment).issued() >= i32::MAX && e@
                    == Failure::IdentifiersExhausted,
            },
        },
{
    let date = match date {
        Some(date) => date,
        None => {
            return Err(ParseError::InvalidDate);
        },
    };
    let name = parse_name_translations(name_translations)?;
    if !auto_increment.has_next() {
        return Err(ParseError::IdentifiersExhausted);
    }
    Ok(Holiday::new(auto_increment.next(), date, name))
}

/// Year, month and day of a date.
pub open spec fn date_parts(date: Option<Date>) -> Option<(i32, u32, u32)> {
    match date {
        Some(date) => Some((date.year, date.month, date.day)),
        None => None,
    }
}

/// Decodes the content of a file of holidays.
pub fn parse(content: &[u8]) -> (result: Result<FxHashMap<i32, Holiday>, ParseError>)
    ensures
        match result {
            Ok(data) => decoded_file::<HolidaySink>(
                holiday_rows(),
                content@,
                0,
                Holidays::none(),
            ) matches Ok(state) && state.data == entity_views(data@),
            Err(e) => decoded_file::<HolidaySink>(holiday_rows(), content@, 0, Holidays::none())
                == Err::<Holidays, Failure>(e@),
        },
{
    HolidayParser::new().parse(content)
}

/// Reads the names of a holiday in its languages.
pub fn parse_name_translations(name_translations: String) -> (result: Result<
    Translations,
    ParseError,
>)
    ensures
        match result {
            Ok(names) => name_translations_of(name_translations@) == Ok::<TranslatedText, Failure>(
                names@,
            ),
            Err(e) => name_translations_of(name_translations@) == Err::<TranslatedText, Failure>(
                e@,
            ),
        },
{
    let text = name_translations.as_str();
    let chars = to_chars(text);
    assert(chars@.subrange(0, chars@.len() as int) =~= chars@);
    let parts = split_ranges(chars.as_slice(), 0, chars.len(), '>');
    let ghost pieces = split_on(chars@, '>');
    let mut names = Translations::new();
    let mut k: usize = 0;
    while k < parts.len()
        invariant
            k <= parts@.len(),
            chars@ == text@,
            text@ == name_translations@,
            pieces == split_on(chars@, '>'),
            pieces == cut(chars@, parts@),
            crate::text::ranges_within(parts@, chars@.len()),
            translations_after(pieces, k as nat) == Ok::<TranslatedText, Failure>(names@),
        decreases parts@.len() - k,
    {
        let (from, to) = parts[k];
        assert(pieces[k as int] == chars@.subrange(from as int, to as int));
        if from < to {
            let halves = split_ranges(chars.as_slice(), from, to, '<');
            if halves.len() < 2 {
                proof {
                    assert(translations_after(pieces, (k + 1) as nat) is Err);
                    lemma_translation_failure_is_final(pieces, (k + 1) as nat, pieces.len());
                }
                return Err(ParseError::MissingPart);
            }
            let (name_from, name_to) = halves[0];
            let (code_from, code_to) = halves[1];
            let ghost split = split_on(pieces[k as int], '<');
            assert(split[0] == chars@.subrange(name_from as int, name_to as int));
            assert(split[1] == chars@.subrange(code_from as int, code_to as int));
            let code = slice_subrange(chars.as_slice(), code_from, code_to);
            match Language::from_chars(code) {
                Err(e) => {
                    proof {
                        assert(translations_after(pieces, (k + 1) as nat) is Err);
                        lemma_translation_failure_is_final(pieces, (k + 1) as nat, pieces.len());
                    }
                    return Err(e);
                },
                Ok(language) => {
                    let name = text.substring_char(name_from, name_to).to_owned();
                    names.set(language, name);
                },
            }
        }
        k = k + 1;
    }
    Ok(names)
}

} // verus!
