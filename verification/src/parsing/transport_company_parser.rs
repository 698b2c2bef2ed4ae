//! Transport companies.
//!
//! A company has a line with its number and its names, and a line with its
//! number and the codes of its administrations:
//!
//! `00379 K "SBB" L "SBB" V "Schweizerische Bundesbahnen SBB"`
//! `00379 : 000011`
//!
//! The German file is read first, for the companies and their
//! administrations; then the file of each language is read for the names.
//!
//! Files read by the decoder: BETRIEB_DE, BETRIEB_EN, BETRIEB_FR, BETRIEB_IT

use vstd::prelude::*;
use rustc_hash::FxHashMap;
use crate::grammar::{capture, skip, Grammar, Token};
use crate::text::texts;
use crate::models::{Language, TransportCompany, TransportCompanyData, TranslatedText};
use crate::parsing::file_parser::{decode, decoded_file, feed, folded_all, records, FileParser, RecordSink};
use crate::parsing::{
    read_i32,
    read_text,
    row,
    value_i32,
    value_text,
    value_views,
    ExpectedType,
    Failure,
    ParseError,
    ParsedRow,
    ParsedValue,
    Record,
    RowDefinition,
    RowParser,
    RowShape,
    TypedValue,
};
use crate::patterns::{regex_parts, split_by_pattern};
use crate::storage::{
    entity_views,
    lemma_views_after_insert,
    lemma_views_of_empty,
    lemma_views_of_entry,
    new_table,
    store,
    take,
};
use crate::text::{cut, ranges_within, remove_char, to_chars, without_char, word_ranges, words};

verus! {

/// The names of a company.
pub const ROW_A: i32 = 1;

/// The administrations of a company.
pub const ROW_B: i32 = 2;

/// The business identifier of a company.
pub const ROW_C: i32 = 3;

/// The shapes of row in the file, in the order in which they are tried.
pub open spec fn transport_company_rows() -> Seq<RowShape> {
    seq![
        RowShape {
            id: ROW_A,
            columns: seq![
                ExpectedType::Integer32,
                ExpectedType::String,
            ],
            steps: seq![
                capture(Token::Take(5)),
                skip(Token::Tag("K")),
                skip(Token::Space1),
                capture(Token::Rest),
            ],
            whole: false,
        },
        RowShape {
            id: ROW_B,
            columns: seq![
                ExpectedType::Integer32,
                ExpectedType::String,
            ],
            steps: seq![
                capture(Token::Take(5)),
                skip(Token::Tag(":")),
                skip(Token::Space1),
                capture(Token::Rest),
            ],
            whole: false,
        },
        RowShape {
            id: ROW_B,
            columns: seq![
                ExpectedType::String,
            ],
            steps: seq![
                skip(Token::Take(5)),
                capture(Token::Tag("N")),
                skip(Token::Space1),
                skip(Token::Rest),
            ],
            whole: false,
        },
    ]
}

/// The decoder of the files of transport companies.
pub struct TransportCompanyParser {
    files: Vec<String>,
    row_parser: RowParser,
}

impl TransportCompanyParser {
    fn get_parser_1() -> (grammar: Grammar)
        ensures
            grammar.steps@ == seq![
                capture(Token::Take(5)),
                skip(Token::Tag("K")),
                skip(Token::Space1),
                capture(Token::Rest),
            ],
            !grammar.whole,
    {
        let steps = vec![
            capture(Token::Take(5)),
            skip(Token::Tag("K")),
            skip(Token::Space1),
            capture(Token::Rest),
        ];
        assert(steps@ =~= seq![
            capture(Token::Take(5)),
            skip(Token::Tag("K")),
            skip(Token::Space1),
            capture(Token::Rest),
        ]);
        Grammar::new(steps)
    }

    fn get_parser_2() -> (grammar: Grammar)
        ensures
            grammar.steps@ == seq![
                capture(Token::Take(5)),
                skip(Token::Tag(":")),
                skip(Token::Space1),
                capture(Token::Rest),
            ],
            !grammar.whole,
    {
        let steps = vec![
            capture(Token::Take(5)),
            skip(Token::Tag(":")),
            skip(Token::Space1),
            capture(Token::Rest),
        ];
        assert(steps@ =~= seq![
            capture(Token::Take(5)),
            skip(Token::Tag(":")),
            skip(Token::Space1),
            capture(Token::Rest),
        ]);
        Grammar::new(steps)
    }

    fn get_parser_3() -> (grammar: Grammar)
        ensures
            grammar.steps@ == seq![
                skip(Token::Take(5)),
                capture(Token::Tag("N")),
                skip(Token::Space1),
                skip(Token::Rest),
            ],
            !grammar.whole,
    {
        let steps = vec![
            skip(Token::Take(5)),
            capture(Token::Tag("N")),
            skip(Token::Space1),
            skip(Token::Rest),
        ];
        assert(steps@ =~= seq![
            skip(Token::Take(5)),
            capture(Token::Tag("N")),
            skip(Token::Space1),
            skip(Token::Rest),
        ]);
        Grammar::new(steps)
    }

    pub fn new() -> (parser: Self)
        ensures
            parser.shapes() == transport_company_rows(),
            parser.file_names() == seq!["BETRIEB_DE"@, "BETRIEB_EN"@, "BETRIEB_FR"@, "BETRIEB_IT"@],
    {
        let row_parser = {
            let mut rows: Vec<RowDefinition> = Vec::new();
            let kinds = vec![
                ExpectedType::Integer32,
                ExpectedType::String,
            ];
            assert(kinds@ =~= transport_company_rows()[0].columns);
            rows.push(row(ROW_A, kinds, Self::get_parser_1()));
            let kinds = vec![
                ExpectedType::Integer32,
                ExpectedType::String,
            ];
            assert(kinds@ =~= transport_company_rows()[1].columns);
            rows.push(row(ROW_B, kinds, Self::get_parser_2()));
            let kinds = vec![
                ExpectedType::String,
            ];
            assert(kinds@ =~= transport_company_rows()[2].columns);
            rows.push(row(ROW_B, kinds, Self::get_parser_3()));
            let row_parser = RowParser::new(rows);
            assert(row_parser@ =~= transport_company_rows());
            row_parser
        };
        let files = vec![
            "BETRIEB_DE".to_owned(),
            "BETRIEB_EN".to_owned(),
            "BETRIEB_FR".to_owned(),
            "BETRIEB_IT".to_owned(),
        ];
        assert(texts(files@) =~= seq!["BETRIEB_DE"@, "BETRIEB_EN"@, "BETRIEB_FR"@, "BETRIEB_IT"@]);
        Self { files, row_parser }
    }

    /// The shapes of row that the decoder knows.
    pub closed spec fn shapes(&self) -> Seq<RowShape> {
        self.row_parser@
    }

    /// The names of the files that the decoder reads.
    pub closed spec fn file_names(&self) -> Seq<Seq<char>> {
        texts(self.files@)
    }

    /// The names of the files that the decoder reads.
    pub fn files(&self) -> (names: &Vec<String>)
        ensures
            texts(names@) == self.file_names(),
    {
        &self.files
    }

    /// The classifier of the rows.
    pub fn row_parser(&self) -> (row_parser: &RowParser)
        ensures
            row_parser@ == self.shapes(),
    {
        &self.row_parser
    }

    /// The languages of the files, in the order in which they are read.
    pub fn languages(&self) -> (languages: Vec<Language>)
        ensures
            languages@ == seq![
                Language::German,
                Language::English,
                Language::French,
                Language::Italian,
            ],
    {
        vec![Language::German, Language::English, Language::French, Language::Italian]
    }

    /// Gives the companies their names in the language of a file.
    pub fn row_converter(
        &self,
        parser: FileParser,
        data: &mut FxHashMap<i32, TransportCompany>,
        language: Language,
    ) -> (result: Result<(), ParseError>)
        ensures
            match result {
                Ok(()) => folded_all::<DesignationSink>(
                    records(parser.shapes(), parser.lines()),
                    Names { data: entity_views(old(data)@), language },
                ) matches Ok(state) && state.data == entity_views(final(data)@),
                Err(e) => folded_all::<DesignationSink>(
                    records(parser.shapes(), parser.lines()),
                    Names { data: entity_views(old(data)@), language },
                ) == Err::<Names, Failure>(e@),
            },
    {
        let mut sink = DesignationSink { data: new_table(), language };
        std::mem::swap(data, &mut sink.data);
        let result = feed(&parser, &mut sink);
        std::mem::swap(data, &mut sink.data);
        result
    }

    /// Decodes the four files: the German one for the companies, then the
    /// German, the English, the French and the Italian one for their names.
    pub fn parse(&self, german: &[u8], english: &[u8], french: &[u8], italian: &[u8]) -> (result:
        Result<FxHashMap<i32, TransportCompany>, ParseError>)
        ensures
            match result {
                Ok(data) => decoded_companies(
                    self.shapes(),
                    german@,
                    english@,
                    french@,
                    italian@,
                ) == Ok::<Map<i32, TransportCompanyData>, Failure>(entity_views(data@)),
                Err(e) => decoded_companies(
                    self.shapes(),
                    german@,
                    english@,
                    french@,
                    italian@,
                ) == Err::<Map<i32, TransportCompanyData>, Failure>(e@),
            },
    {
        let mut sink = CompanySink::new();
        decode(german, 0, &self.row_parser, &mut sink)?;
        let data = sink.data;
        let data = self.load_designations(german, data, Language::German)?;
        let data = self.load_designations(english, data, Language::English)?;
        let data = self.load_designations(french, data, Language::French)?;
        let data = self.load_designations(italian, data, Language::Italian)?;
        Ok(data)
    }

    /// Builds the company of a row of administrations.
    pub fn create_instance(&self, values: Vec<ParsedValue>) -> (result: Result<
        TransportCompany,
        ParseError,
    >)
        ensures
            match result {
                Ok(company) => company_of(value_views(values@)) == Ok::<
                    TransportCompanyData,
                    Failure,
                >(company@),
                Err(e) => company_of(value_views(values@)) == Err::<TransportCompanyData, Failure>(
                    e@,
                ),
            },
    {
        create_company(values)
    }

    /// Reads the file of one language and gives the companies their names
    /// in that language.
    pub fn load_designations(
        &self,
        content: &[u8],
        data: FxHashMap<i32, TransportCompany>,
        language: Language,
    ) -> (result: Result<FxHashMap<i32, TransportCompany>, ParseError>)
        ensures
            match result {
                Ok(after) => names_after(self.shapes(), content@, entity_views(data@), language)
                    == Ok::<Map<i32, TransportCompanyData>, Failure>(entity_views(after@)),
                Err(e) => names_after(self.shapes(), content@, entity_views(data@), language)
                    == Err::<Map<i32, TransportCompanyData>, Failure>(e@),
            },
    {
        let mut sink = DesignationSink { data, language };
        decode(content, 0, &self.row_parser, &mut sink)?;
        Ok(sink.data)
    }
}

/// What a pass for the names works on: the companies by number, and the
/// language of the file.
pub ghost struct Names {
    pub data: Map<i32, TransportCompanyData>,
    pub language: Language,
}

/// The companies after the file of one language was read.
pub open spec fn names_after(
    shapes: Seq<RowShape>,
    content: Seq<u8>,
    data: Map<i32, TransportCompanyData>,
    language: Language,
) -> Result<Map<i32, TransportCompanyData>, Failure> {
    match decoded_file::<DesignationSink>(shapes, content, 0, Names { data, language }) {
        Err(failure) => Err(failure),
        Ok(state) => Ok(state.data),
    }
}

/// The companies that the four files decode to.
pub open spec fn decoded_companies(
    shapes: Seq<RowShape>,
    german: Seq<u8>,
    english: Seq<u8>,
    french: Seq<u8>,
    italian: Seq<u8>,
) -> Result<Map<i32, TransportCompanyData>, Failure> {
    match decoded_file::<CompanySink>(shapes, german, 0, Map::empty()) {
        Err(failure) => Err(failure),
        Ok(companies) => match names_after(shapes, german, companies, Language::German) {
            Err(failure) => Err(failure),
            Ok(first) => match names_after(shapes, english, first, Language::English) {
                Err(failure) => Err(failure),
                Ok(second) => match names_after(shapes, french, second, Language::French) {
                    Err(failure) => Err(failure),
                    Ok(third) => names_after(shapes, italian, third, Language::Italian),
                },
            },
        },
    }
}

/// The company that a row of administrations gives: the codes of the
/// administrations are the words of the second value.
pub open spec fn company_of(values: Seq<TypedValue>) -> Result<TransportCompanyData, Failure> {
    match read_i32(values, 0) {
        Err(failure) => Err(failure),
        Ok(id) => match read_text(values, 1) {
            Err(failure) => Err(failure),
            Ok(administrations) => Ok(
                TransportCompanyData {
                    id,
                    short_name: TranslatedText::none(),
                    long_name: TranslatedText::none(),
                    full_name: TranslatedText::none(),
                    administrations: words(administrations),
                },
            ),
        },
    }
}

/// What one more record makes of the companies in the pass that creates them.
pub open spec fn with_company(data: Map<i32, TransportCompanyData>, record: Record) -> Result<
    Map<i32, TransportCompanyData>,
    Failure,
> {
    if record.0 == ROW_A || record.0 == ROW_C {
        Ok(data)
    } else if record.0 == ROW_B {
        match company_of(record.2) {
            Err(failure) => Err(failure),
            Ok(company) => Ok(data.insert(company.id, company)),
        }
    } else {
        Err(Failure::UnexpectedRow)
    }
}

/// The pattern at which the names of a company are cut: one of the letters
/// K, L and V with a blank after it and, where there is one, a blank before it.
pub open spec fn designation_marker() -> Seq<char> {
    " ?([KLV]) "@
}

/// Short name, long name and full name among the parts of a text of names:
/// the first three parts, without their quotes.
pub open spec fn designations_from(parts: Option<Seq<Seq<char>>>) -> Result<
    (Seq<char>, Seq<char>, Seq<char>),
    Failure,
> {
    match parts {
        None => Err(Failure::InvalidPattern),
        Some(parts) => if parts.len() < 3 {
            Err(Failure::MissingPart)
        } else {
            Ok(
                (
                    without_char(parts[0], '"'),
                    without_char(parts[1], '"'),
                    without_char(parts[2], '"'),
                ),
            )
        },
    }
}

/// The companies after a row gave the names of one of them in a language.
pub open spec fn with_designations(state: Names, values: Seq<TypedValue>) -> Result<Names, Failure> {
    match read_i32(values, 0) {
        Err(failure) => Err(failure),
        Ok(id) => match read_text(values, 1) {
            Err(failure) => Err(failure),
            Ok(designations) => match designations_from(
                regex_parts(designation_marker(), designations),
            ) {
                Err(failure) => Err(failure),
                Ok((short_name, long_name, full_name)) => match state.data.get(id) {
                    None => Err(Failure::UnknownId),
                    Some(company) => Ok(
                        Names {
                            data: state.data.insert(
                                id,
                                TransportCompanyData {
                                    short_name: company.short_name.with(state.language, short_name),
                                    long_name: company.long_name.with(state.language, long_name),
                                    full_name: company.full_name.with(state.language, full_name),
                                    ..company
                                },
                            ),
                            ..state
                        },
                    ),
                },
            },
        },
    }
}

/// What one more record makes of the companies in a pass for the names.
pub open spec fn with_names(state: Names, record: Record) -> Result<Names, Failure> {
    if record.0 == ROW_A {
        with_designations(state, record.2)
    } else {
        Ok(state)
    }
}

/// The accumulator of the pass that creates the companies.
pub struct CompanySink {
    data: FxHashMap<i32, TransportCompany>,
}

impl CompanySink {
    /// An accumulator that holds nothing yet.
    pub fn new() -> (sink: Self)
        ensures
            sink.state() == Map::<i32, TransportCompanyData>::empty(),
    {
        proof {
            lemma_views_of_empty::<TransportCompany>();
        }
        CompanySink { data: new_table() }
    }
}

impl RecordSink for CompanySink {
    type State = Map<i32, TransportCompanyData>;

    closed spec fn state(&self) -> Map<i32, TransportCompanyData> {
        entity_views(self.data@)
    }

    open spec fn step(state: Map<i32, TransportCompanyData>, record: Record) -> Result<
        Map<i32, TransportCompanyData>,
        Failure,
    > {
        with_company(state, record)
    }

    fn accept(&mut self, row: ParsedRow) -> (result: Result<(), ParseError>) {
        let (id, _, values) = row;
        if id == ROW_A || id == ROW_C {
            Ok(())
        } else if id == ROW_B {
            let company = create_company(values)?;
            let id = company.id();
            proof {
                lemma_views_after_insert(self.data@, id, company);
            }
            store(&mut self.data, id, company);
            Ok(())
        } else {
            Err(ParseError::UnexpectedRow)
        }
    }
}

/// The accumulator of a pass for the names.
pub struct DesignationSink {
    data: FxHashMap<i32, TransportCompany>,
    language: Language,
}

impl RecordSink for DesignationSink {
    type State = Names;

    closed spec fn state(&self) -> Names {
        Names { data: entity_views(self.data@), language: self.language }
    }

    open spec fn step(state: Names, record: Record) -> Result<Names, Failure> {
        with_names(state, record)
    }

    fn accept(&mut self, row: ParsedRow) -> (result: Result<(), ParseError>) {
        let (id, _, values) = row;
        if id == ROW_A {
            set_designations(values, &mut self.data, self.language)
        } else {
            Ok(())
        }
    }
}

/// Builds the company of a row of administrations.
pub fn create_company(values: Vec<ParsedValue>) -> (result: Result<TransportCompany, ParseError>)
    ensures
        match result {
            Ok(company) => company_of(value_views(values@)) == Ok::<TransportCompanyData, Failure>(
                company@,
            ),
            Err(e) => company_of(value_views(values@)) == Err::<TransportCompanyData, Failure>(e@),
        },
{
    let id = value_i32(&values, 0)?;
    let administrations = value_text(&values, 1)?;
    let administrations = parse_administrations(administrations);
    Ok(TransportCompany::new(id, administrations))
}

/// Decodes the four files of transport companies.
pub fn parse(german: &[u8], english: &[u8], french: &[u8], italian: &[u8]) -> (result: Result<
    FxHashMap<i32, TransportCompany>,
    ParseError,
>)
    ensures
        match result {
            Ok(data) => decoded_companies(
                transport_company_rows(),
                german@,
                english@,
                french@,
                italian@,
            ) == Ok::<Map<i32, TransportCompanyData>, Failure>(entity_views(data@)),
            Err(e) => decoded_companies(
                transport_company_rows(),
                german@,
                english@,
                french@,
                italian@,
            ) == Err::<Map<i32, TransportCompanyData>, Failure>(e@),
        },
{
    TransportCompanyParser::new().parse(german, english, french, italian)
}

/// Gives the company that a row names its names in a language.
pub fn set_designations(
    values: Vec<ParsedValue>,
    data: &mut FxHashMap<i32, TransportCompany>,
    language: Language,
) -> (result: Result<(), ParseError>)
    ensures
        match result {
            Ok(()) => with_designations(
                Names { data: entity_views(old(data)@), language },
                value_views(values@),
            ) == Ok::<Names, Failure>(Names { data: entity_views(final(data)@), language }),
            Err(e) => with_designations(
                Names { data: entity_views(old(data)@), language },
                value_views(values@),
            ) == Err::<Names, Failure>(e@),
        },
{
    let id = value_i32(&values, 0)?;
    let designations = value_text(&values, 1)?;
    let (short_name, long_name, full_name) = parse_designations(designations)?;
    proof {
        lemma_views_of_entry(data@, id);
    }
    match take(data, id) {
        None => Err(ParseError::UnknownId),
        Some(mut transport_company) => {
            transport_company.set_short_name(language, short_name.as_str());
            transport_company.set_long_name(language, long_name.as_str());
            transport_company.set_full_name(language, full_name.as_str());
            proof {
                lemma_views_after_insert(old(data)@, id, transport_company);
            }
            store(data, id, transport_company);
            Ok(())
        },
    }
}

/// The codes of the administrations in a text: its words.
pub fn parse_administrations(administrations: String) -> (codes: Vec<String>)
    ensures
        texts(codes@) == words(administrations@),
{
    let text = administrations.as_str();
    let chars = to_chars(text);
    assert(chars@.subrange(0, chars@.len() as int) =~= chars@);
    let ranges = word_ranges(chars.as_slice(), 0, chars.len());
    let ghost all = words(text@);
    let mut codes: Vec<String> = Vec::new();
    let mut k: usize = 0;
    assert(texts(codes@) =~= all.take(0));
    while k < ranges.len()
        invariant
            k <= ranges@.len(),
            chars@ == text@,
            all == cut(chars@, ranges@),
            ranges_within(ranges@, chars@.len()),
            texts(codes@) == all.take(k as int),
        decreases ranges@.len() - k,
    {
        let (from, to) = ranges[k];
        let code = text.substring_char(from, to).to_owned();
        let ghost before = codes@;
        codes.push(code);
        proof {
            assert(texts(codes@) =~= texts(before).push(code@));
            assert(all.take(k + 1) =~= all.take(k as int).push(all[k as int]));
        }
        k = k + 1;
    }
    assert(all.take(all.len() as int) =~= all);
    codes
}

/// Reads short name, long name and full name of a company from a text of
/// names. The text is cut where a name is announced by its letter.
pub fn parse_designations(designations: String) -> (result: Result<
    (String, String, String),
    ParseError,
>)
    ensures
        match result {
            Ok(names) => designations_from(regex_parts(designation_marker(), designations@))
                == Ok::<(Seq<char>, Seq<char>, Seq<char>), Failure>(
                (names.0@, names.1@, names.2@),
            ),
            Err(e) => designations_from(regex_parts(designation_marker(), designations@)) == Err::<
                (Seq<char>, Seq<char>, Seq<char>),
                Failure,
            >(e@),
        },
{
    let parts = split_by_pattern(" ?([KLV]) ", designations.as_str());
    designations_from_parts(parts)
}

/// Picks short name, long name and full name from the parts of a text of
/// names and removes their quotes.
pub fn designations_from_parts(parts: Option<Vec<String>>) -> (result: Result<
    (String, String, String),
    ParseError,
>)
    ensures
        match result {
            Ok(names) => designations_from(part_texts(parts)) == Ok::<
                (Seq<char>, Seq<char>, Seq<char>),
                Failure,
            >((names.0@, names.1@, names.2@)),
            Err(e) => designations_from(part_texts(parts)) == Err::<
                (Seq<char>, Seq<char>, Seq<char>),
                Failure,
            >(e@),
        },
{
    match parts {
        None => Err(ParseError::InvalidPattern),
        Some(parts) => {
            if parts.len() < 3 {
                return Err(ParseError::MissingPart);
            }
            let short_name = remove_char(parts[0].as_str(), '"');
            let long_name = remove_char(parts[1].as_str(), '"');
            let full_name = remove_char(parts[2].as_str(), '"');
            Ok((short_name, long_name, full_name))
        },
    }
}

/// What the parts of a text read, where there are parts.
pub open spec fn part_texts(parts: Option<Vec<String>>) -> Option<Seq<Seq<char>>> {
    match parts {
        Some(parts) => Some(texts(parts@)),
        None => None,
    }
}

} // verus!
