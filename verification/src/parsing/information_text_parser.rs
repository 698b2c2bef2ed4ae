//! Information texts: texts that other records refer to by a number.
//!
//! Every line starts with the number of a text, nine digits long; after some
//! blanks the text follows in the language of the file:
//!
//! `000001921 ch:1:sjyid:100001:3995-001`
//!
//! The German file is read first, for the numbers alone; then the file of
//! each language is read for the texts.
//!
//! Files read by the decoder: INFOTEXT_DE, INFOTEXT_EN, INFOTEXT_FR, INFOTEXT_IT

use vstd::prelude::*;
use rustc_hash::FxHashMap;
use crate::grammar::{capture, skip, Grammar, Token};
use crate::models::{InformationText, InformationTextData, Language, TranslatedText};
use crate::parsing::file_parser::{
    decode,
    decoded_file,
    feed,
    folded_all,
    records,
    FileParser,
    RecordSink,
};
use crate::parsing::{
    read_i32,
    read_text,
    row,
    value_i32,
    value_text,
    value_views,
    ExpectedType,
    Failure,
    ParseError,
    ParsedRow,
    ParsedValue,
    Record,
    RowDefinition,
    RowParser,
    RowShape,
    TypedValue,
};
use crate::text::texts;
use crate::storage::{
    entity_views,
    lemma_views_after_insert,
    lemma_views_of_empty,
    lemma_views_of_entry,
    new_table,
    store,
    take,
};

verus! {

/// The shape of row that gives the number of a text.
pub open spec fn id_rows() -> Seq<RowShape> {
    seq![
        RowShape {
            id: 0,
            columns: seq![ExpectedType::Integer32],
            steps: seq![capture(Token::Take(9))],
            whole: false,
        },
    ]
}

/// The shape of row that gives the number of a text and the text.
pub open spec fn infotext_rows() -> Seq<RowShape> {
    seq![
        RowShape {
            id: 0,
            columns: seq![ExpectedType::Integer32, ExpectedType::String],
            steps: seq![capture(Token::Take(9)), skip(Token::Space1), capture(Token::Rest)],
            whole: false,
        },
    ]
}

/// The decoder of the files of information texts.
pub struct InformationTextParser {
    files: Vec<String>,
    languages: Vec<Language>,
    id_row_parser: RowParser,
    infotext_row_parser: RowParser,
}

impl InformationTextParser {
    fn get_parser_1() -> (grammar: Grammar)
        ensures
            grammar.steps@ == id_rows()[0].steps,
            !grammar.whole,
    {
        let steps = vec![capture(Token::Take(9))];
        assert(steps@ =~= id_rows()[0].steps);
        Grammar::new(steps)
    }

    fn get_parser_2() -> (grammar: Grammar)
        ensures
            grammar.steps@ == infotext_rows()[0].steps,
            !grammar.whole,
    {
        let steps = vec![capture(Token::Take(9)), skip(Token::Space1), capture(Token::Rest)];
        assert(steps@ =~= infotext_rows()[0].steps);
        Grammar::new(steps)
    }

    pub fn new() -> (parser: Self)
        ensures
            parser.id_shapes() == id_rows(),
            parser.file_names() == seq!["INFOTEXT_DE"@, "INFOTEXT_EN"@, "INFOTEXT_FR"@, "INFOTEXT_IT"@],
            parser.infotext_shapes() == infotext_rows(),
            parser.spec_languages() == all_languages(),
    {
        let id_row_parser = {
            let mut rows: Vec<RowDefinition> = Vec::new();
            let kinds = vec![ExpectedType::Integer32];
            assert(kinds@ =~= id_rows()[0].columns);
            rows.push(row(0, kinds, Self::get_parser_1()));
            let row_parser = RowParser::new(rows);
            assert(row_parser@ =~= id_rows());
            row_parser
        };
        let infotext_row_parser = {
            let mut rows: Vec<RowDefinition> = Vec::new();
            let kinds = vec![ExpectedType::Integer32, ExpectedType::String];
            assert(kinds@ =~= infotext_rows()[0].columns);
            rows.push(row(0, kinds, Self::get_parser_2()));
            let row_parser = RowParser::new(rows);
            assert(row_parser@ =~= infotext_rows());
            row_parser
        };
        let files = vec![
            "INFOTEXT_DE".to_owned(),
            "INFOTEXT_EN".to_owned(),
            "INFOTEXT_FR".to_owned(),
            "INFOTEXT_IT".to_owned(),
        ];
        assert(texts(files@) =~= seq!["INFOTEXT_DE"@, "INFOTEXT_EN"@, "INFOTEXT_FR"@, "INFOTEXT_IT"@]);
        let languages = vec![
            Language::German,
            Language::English,
            Language::French,
            Language::Italian,
        ];
        assert(languages@ =~= all_languages());
        Self { files, languages, id_row_parser, infotext_row_parser }
    }

    /// The shapes of row of the pass that reads the numbers.
    pub closed spec fn id_shapes(&self) -> Seq<RowShape> {
        self.id_row_parser@
    }

    /// The shapes of row of the passes that read the texts.
    pub closed spec fn infotext_shapes(&self) -> Seq<RowShape> {
        self.infotext_row_parser@
    }

    /// The languages of the files, in the order in which they are read.
    pub closed spec fn spec_languages(&self) -> Seq<Language> {
        self.languages@
    }

    /// The names of the files that the decoder reads.
    pub closed spec fn file_names(&self) -> Seq<Seq<char>> {
        texts(self.files@)
    }

    /// The names of the files that the decoder reads.
    pub fn files(&self) -> (names: &Vec<String>)
        ensures
            texts(names@) == self.file_names(),
    {
        &self.files
    }

    /// The languages of the files, in the order in which they are read.
    pub fn languages(&self) -> (languages: &Vec<Language>)
        ensures
            languages@ == self.spec_languages(),
    {
        &self.languages
    }

    /// The classifier of the pass that reads the numbers.
    pub fn id_row_parser(&self) -> (row_parser: &RowParser)
        ensures
            row_parser@ == self.id_shapes(),
    {
        &self.id_row_parser
    }

    /// The classifier of the passes that read the texts.
    pub fn infotext_row_parser(&self) -> (row_parser: &RowParser)
        ensures
            row_parser@ == self.infotext_shapes(),
    {
        &self.infotext_row_parser
    }

    /// Decodes the four files: the German one, then the English, the French
    /// and the Italian one.
    pub fn parse(&self, german: &[u8], english: &[u8], french: &[u8], italian: &[u8]) -> (result:
        Result<FxHashMap<i32, InformationText>, ParseError>)
        ensures
            match result {
                Ok(data) => decoded_texts(
                    self.id_shapes(),
                    self.infotext_shapes(),
                    german@,
                    english@,
                    french@,
                    italian@,
                ) == Ok::<Map<i32, InformationTextData>, Failure>(entity_views(data@)),
                Err(e) => decoded_texts(
                    self.id_shapes(),
                    self.infotext_shapes(),
                    german@,
                    english@,
                    french@,
                    italian@,
                ) == Err::<Map<i32, InformationTextData>, Failure>(e@),
            },
    {
        let mut sink = NumberSink::new();
        decode(german, 0, &self.id_row_parser, &mut sink)?;
        let data = sink.data;
        let data = self.parse_infotext(german, data, Language::German)?;
        let data = self.parse_infotext(english, data, Language::English)?;
        let data = self.parse_infotext(french, data, Language::French)?;
        let data = self.parse_infotext(italian, data, Language::Italian)?;
        Ok(data)
    }

    /// Reads the file of one language and gives each text its wording in
    /// that language.
    pub fn parse_infotext(
        &self,
        content: &[u8],
        data: FxHashMap<i32, InformationText>,
        language: Language,
    ) -> (result: Result<FxHashMap<i32, InformationText>, ParseError>)
        ensures
            match result {
                Ok(after) => texts_after(
                    self.infotext_shapes(),
                    content@,
                    entity_views(data@),
                    language,
                ) == Ok::<Map<i32, InformationTextData>, Failure>(entity_views(after@)),
                Err(e) => texts_after(
                    self.infotext_shapes(),
                    content@,
                    entity_views(data@),
                    language,
                ) == Err::<Map<i32, InformationTextData>, Failure>(e@),
            },
    {
        let mut sink = ContentSink { data, language };
        decode(content, 0, &self.infotext_row_parser, &mut sink)?;
        Ok(sink.data)
    }
}

/// The four languages, in the order in which their files are read.
pub open spec fn all_languages() -> Seq<Language> {
    seq![Language::German, Language::English, Language::French, Language::Italian]
}

/// What the pass for the texts has accumulated: the texts by number, and the
/// language of the file.
pub ghost struct Wordings {
    pub data: Map<i32, InformationTextData>,
    pub language: Language,
}

/// The texts after the file of one language was read.
pub open spec fn texts_after(
    shapes: Seq<RowShape>,
    content: Seq<u8>,
    data: Map<i32, InformationTextData>,
    language: Language,
) -> Result<Map<i32, InformationTextData>, Failure> {
    match decoded_file::<ContentSink>(shapes, content, 0, Wordings { data, language }) {
        Err(failure) => Err(failure),
        Ok(state) => Ok(state.data),
    }
}

/// The texts that the four files decode to.
pub open spec fn decoded_texts(
    id_shapes: Seq<RowShape>,
    infotext_shapes: Seq<RowShape>,
    german: Seq<u8>,
    english: Seq<u8>,
    french: Seq<u8>,
    italian: Seq<u8>,
) -> Result<Map<i32, InformationTextData>, Failure> {
    match decoded_file::<NumberSink>(id_shapes, german, 0, Map::empty()) {
        Err(failure) => Err(failure),
        Ok(numbered) => match texts_after(infotext_shapes, german, numbered, Language::German) {
            Err(failure) => Err(failure),
            Ok(first) => match texts_after(infotext_shapes, english, first, Language::English) {
                Err(failure) => Err(failure),
                Ok(second) => match texts_after(
                    infotext_shapes,
                    french,
                    second,
                    Language::French,
                ) {
                    Err(failure) => Err(failure),
                    Ok(third) => texts_after(infotext_shapes, italian, third, Language::Italian),
                },
            },
        },
    }
}

/// A new text without wording, under the number that a row gives.
pub open spec fn with_number(data: Map<i32, InformationTextData>, values: Seq<TypedValue>) -> Result<
    Map<i32, InformationTextData>,
    Failure,
> {
    match read_i32(values, 0) {
        Err(failure) => Err(failure),
        Ok(id) => Ok(
            data.insert(id, InformationTextData { id, content: TranslatedText::none() }),
        ),
    }
}

/// The texts after a row gave the wording of one of them.
pub open spec fn with_content(state: Wordings, values: Seq<TypedValue>) -> Result<
    Wordings,
    Failure,
> {
    match read_i32(values, 0) {
        Err(failure) => Err(failure),
        Ok(id) => match read_text(values, 1) {
            Err(failure) => Err(failure),
            Ok(description) => match state.data.get(id) {
                None => Err(Failure::UnknownId),
                Some(text) => Ok(
                    Wordings {
                        data: state.data.insert(
                            id,
                            InformationTextData {
                                content: text.content.with(state.language, description),
                                ..text
                            },
                        ),
                        ..state
                    },
                ),
            },
        },
    }
}

/// The accumulator of the pass that reads the numbers.
pub struct NumberSink {
    data: FxHashMap<i32, InformationText>,
}

impl NumberSink {
    /// An accumulator that holds nothing yet.
    pub fn new() -> (sink: Self)
        ensures
            sink.state() == Map::<i32, InformationTextData>::empty(),
    {
        proof {
            lemma_views_of_empty::<InformationText>();
        }
        NumberSink { data: new_table() }
    }
}

impl RecordSink for NumberSink {
    type State = Map<i32, InformationTextData>;

    closed spec fn state(&self) -> Map<i32, InformationTextData> {
        entity_views(self.data@)
    }

    open spec fn step(state: Map<i32, InformationTextData>, record: Record) -> Result<
        Map<i32, InformationTextData>,
        Failure,
    > {
        with_number(state, record.2)
    }

    fn accept(&mut self, row: ParsedRow) -> (result: Result<(), ParseError>) {
        let text = create_instance(row.2)?;
        let id = text.id();
        proof {
            lemma_views_after_insert(self.data@, id, text);
        }
        store(&mut self.data, id, text);
        Ok(())
    }
}

/// The accumulator of the passes that read the texts.
pub struct ContentSink {
    data: FxHashMap<i32, InformationText>,
    language: Language,
}

impl RecordSink for ContentSink {
    type State = Wordings;

    closed spec fn state(&self) -> Wordings {
        Wordings { data: entity_views(self.data@), language: self.language }
    }

    open spec fn step(state: Wordings, record: Record) -> Result<Wordings, Failure> {
        with_content(state, record.2)
    }

    fn accept(&mut self, row: ParsedRow) -> (result: Result<(), ParseError>) {
        set_content(row.2, &mut self.data, self.language)
    }
}

/// Turns the rows of the German file into texts without wording.
pub fn id_row_converter(parser: FileParser) -> (result: Result<
    FxHashMap<i32, InformationText>,
    ParseError,
>)
    ensures
        match result {
            Ok(data) => folded_all::<NumberSink>(
                records(parser.shapes(), parser.lines()),
                Map::empty(),
            ) == Ok::<Map<i32, InformationTextData>, Failure>(entity_views(data@)),
            Err(e) => folded_all::<NumberSink>(
                records(parser.shapes(), parser.lines()),
                Map::empty(),
            ) == Err::<Map<i32, InformationTextData>, Failure>(e@),
        },
{
    let mut sink = NumberSink::new();
    feed(&parser, &mut sink)?;
    Ok(sink.data)
}

/// Gives each text its wording in the language of a file.
pub fn infotext_row_converter(
    parser: FileParser,
    data: &mut FxHashMap<i32, InformationText>,
    language: Language,
) -> (result: Result<(), ParseError>)
    ensures
        match result {
            Ok(()) => folded_all::<ContentSink>(
                records(parser.shapes(), parser.lines()),
                Wordings { data: entity_views(old(data)@), language },
            ) matches Ok(state) && state.data == entity_views(final(data)@),
            Err(e) => folded_all::<ContentSink>(
                records(parser.shapes(), parser.lines()),
                Wordings { data: entity_views(old(data)@), language },
            ) == Err::<Wordings, Failure>(e@),
        },
{
    let mut sink = ContentSink { data: new_table(), language };
    std::mem::swap(data, &mut sink.data);
    let result = feed(&parser, &mut sink);
    std::mem::swap(data, &mut sink.data);
    result
}

/// Decodes the four files of information texts.
pub fn parse(german: &[u8], english: &[u8], french: &[u8], italian: &[u8]) -> (result: Result<
    FxHashMap<i32, InformationText>,
    ParseError,
>)
    ensures
        match result {
            Ok(data) => decoded_texts(
                id_rows(),
                infotext_rows(),
                german@,
                english@,
                french@,
                italian@,
            ) == Ok::<Map<i32, InformationTextData>, Failure>(entity_views(data@)),
            Err(e) => decoded_texts(
                id_rows(),
                infotext_rows(),
                german@,
                english@,
                french@,
                italian@,
            ) == Err::<Map<i32, InformationTextData>, Failure>(e@),
        },
{
    InformationTextParser::new().parse(german, english, french, italian)
}

/// Builds the text of a row, without wording.
pub fn create_instance(values: Vec<ParsedValue>) -> (result: Result<InformationText, ParseError>)
    ensures
        match result {
            Ok(text) => read_i32(value_views(values@), 0) == Ok::<i32, Failure>(text@.id)
                && text@.content == TranslatedText::none(),
            Err(e) => read_i32(value_views(values@), 0) == Err::<i32, Failure>(e@),
        },
{
    let id = value_i32(&values, 0)?;
    Ok(InformationText::new(id))
}

/// Gives the text that a row names its wording in a language.
pub fn set_content(
    values: Vec<ParsedValue>,
    data: &mut FxHashMap<i32, InformationText>,
    language: Language,
) -> (result: Result<(), ParseError>)
    ensures
        match result {
            Ok(()) => with_content(
                Wordings { data: entity_views(old(data)@), language },
                value_views(values@),
            ) == Ok::<Wordings, Failure>(Wordings { data: entity_views(final(data)@), language }),
            Err(e) => with_content(
                Wordings { data: entity_views(old(data)@), language },
                value_views(values@),
            ) == Err::<Wordings, Failure>(e@),
        },
{
    let id = value_i32(&values, 0)?;
    let description = value_text(&values, 1)?;
    proof {
        lemma_views_of_entry(data@, id);
    }
    match take(data, id) {
        None => Err(ParseError::UnknownId),
        Some(mut text) => {
            text.set_content(language, description.as_str());
            proof {
                lemma_views_after_insert(old(data)@, id, text);
            }
            store(data, id, text);
            Ok(())
        },
    }
}

} // verus!
