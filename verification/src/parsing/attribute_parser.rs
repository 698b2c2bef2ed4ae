//! Attributes: offers and restrictions that journeys refer to by a short code.
//!
//! The file has four shapes of row:
//!
//! - `Y  0   5  5`: the code `Y`, its scope, and two sorting priorities;
//! - `# Y  Y  Y`: how a code is shown, which is not used;
//! - `<deu>`: the language of the descriptions that follow; `<text>` opens
//!   the descriptions and names no language;
//! - `Y  Zu Fuss`: the description of the code `Y` in the current language.
//!
//! File read by the decoder: ATTRIBUT

use vstd::prelude::*;
use rustc_hash::FxHashMap;
use crate::grammar::{capture, skip, Grammar, Token};
use crate::models::{language_of, Attribute, AttributeData, Language, TranslatedText};
use crate::parsing::file_parser::{
    decode,
    decoded_file,
    feed,
    folded_all,
    records,
    FileParser,
    RecordSink,
};
use crate::parsing::{
    read_i16,
    read_text,
    row,
    value_i16,
    value_text,
    value_views,
    ExpectedType,
    Failure,
    ParseError,
    ParsedRow,
    ParsedValue,
    Record,
    RowParser,
    RowShape,
    TypedValue,
};
use crate::storage::{
    entity_views,
    legacy_ids,
    lemma_views_after_insert,
    lemma_views_of_empty,
    lemma_views_of_entry,
    new_table,
    store,
    take,
};
use crate::text::to_chars;
use crate::utils::{IdentityResolver, ResolverState};

verus! {

/// An offer or restriction with its priorities.
pub const ROW_A: i32 = 1;

/// How a code is shown.
pub const ROW_B: i32 = 2;

/// The language of the descriptions that follow.
pub const ROW_C: i32 = 3;

/// A description.
pub const ROW_D: i32 = 4;

/// The shapes of row in the file, the more particular ones first.
pub open spec fn attribute_rows() -> Seq<RowShape> {
    seq![
        RowShape {
            id: ROW_A,
            columns: seq![
                ExpectedType::String,
                ExpectedType::Integer16,
                ExpectedType::Integer16,
                ExpectedType::Integer16,
            ],
            steps: seq![
                capture(Token::Take(2)),
                skip(Token::Space1),
                capture(Token::Digit1),
                skip(Token::Space1),
                capture(Token::Digit1),
                skip(Token::Space1),
                capture(Token::Digit1),
            ],
            whole: false,
        },
        RowShape {
            id: ROW_B,
            columns: seq![ExpectedType::String],
            steps: seq![skip(Token::Tag("#")), skip(Token::Rest)],
            whole: true,
        },
        RowShape {
            id: ROW_C,
            columns: seq![ExpectedType::String],
            steps: seq![skip(Token::Tag("<")), skip(Token::Rest)],
            whole: true,
        },
        RowShape {
            id: ROW_D,
            columns: seq![ExpectedType::String, ExpectedType::String],
            steps: seq![capture(Token::TakeTill(' ')), skip(Token::Space1), capture(Token::Rest)],
            whole: false,
        },
    ]
}

/// The decoder of the file of attributes.
pub struct AttributeParser {
    file: String,
    row_parser: RowParser,
}

impl AttributeParser {
    fn get_parser_1() -> (grammar: Grammar)
        ensures
            grammar.steps@ == attribute_rows()[0].steps,
            !grammar.whole,
    {
        let steps = vec![
            capture(Token::Take(2)),
            skip(Token::Space1),
            capture(Token::Digit1),
            skip(Token::Space1),
            capture(Token::Digit1),
            skip(Token::Space1),
            capture(Token::Digit1),
        ];
        assert(steps@ =~= attribute_rows()[0].steps);
        Grammar::new(steps)
    }

    fn get_parser_2() -> (grammar: Grammar)
        ensures
            grammar.steps@ == attribute_rows()[1].steps,
            grammar.whole,
    {
        let steps = vec![skip(Token::Tag("#")), skip(Token::Rest)];
        assert(steps@ =~= attribute_rows()[1].steps);
        Grammar::recognize(steps)
    }

    fn get_parser_3() -> (grammar: Grammar)
        ensures
            grammar.steps@ == attribute_rows()[2].steps,
            grammar.whole,
    {
        let steps = vec![skip(Token::Tag("<")), skip(Token::Rest)];
        assert(steps@ =~= attribute_rows()[2].steps);
        Grammar::recognize(steps)
    }

    fn get_parser_4() -> (grammar: Grammar)
        ensures
            grammar.steps@ == attribute_rows()[3].steps,
            !grammar.whole,
    {
        let steps = vec![capture(Token::TakeTill(' ')), skip(Token::Space1), capture(Token::Rest)];
        assert(steps@ =~= attribute_rows()[3].steps);
        Grammar::new(steps)
    }

    pub fn new() -> (parser: Self)
        ensures
            parser.shapes() == attribute_rows(),
            parser.file_name() == "ATTRIBUT"@,
    {
        let kinds_a = vec![
            ExpectedType::String,
            ExpectedType::Integer16,
            ExpectedType::Integer16,
            ExpectedType::Integer16,
        ];
        let kinds_b = vec![ExpectedType::String];
        let kinds_c = vec![ExpectedType::String];
        let kinds_d = vec![ExpectedType::String, ExpectedType::String];
        assert(kinds_a@ =~= attribute_rows()[0].columns);
        assert(kinds_b@ =~= attribute_rows()[1].columns);
        assert(kinds_c@ =~= attribute_rows()[2].columns);
        assert(kinds_d@ =~= attribute_rows()[3].columns);
        let rows = vec![
            row(ROW_A, kinds_a, Self::get_parser_1()),
            row(ROW_B, kinds_b, Self::get_parser_2()),
            row(ROW_C, kinds_c, Self::get_parser_3()),
            row(ROW_D, kinds_d, Self::get_parser_4()),
        ];
        let row_parser = RowParser::new(rows);
        assert(row_parser@ =~= attribute_rows());
        Self { file: "ATTRIBUT".to_owned(), row_parser }
    }

    /// The shapes of row that the decoder knows.
    pub closed spec fn shapes(&self) -> Seq<RowShape> {
        self.row_parser@
    }

    /// The name of the file that the decoder reads.
    pub closed spec fn file_name(&self) -> Seq<char> {
        self.file@
    }

    /// The name of the file that the decoder reads.
    pub fn file(&self) -> (name: &String)
        ensures
            name@ == self.file_name(),
    {
        &self.file
    }

    /// The classifier of the file's rows.
    pub fn row_parser(&self) -> (row_parser: &RowParser)
        ensures
            row_parser@ == self.shapes(),
    {
        &self.row_parser
    }

    /// Decodes the content of the file: the attributes by identifier, and the
    /// identifiers by code.
    pub fn parse(&self, content: &[u8]) -> (result: Result<
        (FxHashMap<i32, Attribute>, FxHashMap<String, i32>),
        ParseError,
    >)
        ensures
            match result {
                Ok(tables) => decoded_file::<AttributeSink>(
                    self.shapes(),
                    content@,
                    0,
                    Attributes::none(),
                ) matches Ok(state) && state.data == entity_views(tables.0@) && state.resolver.ids
                    == legacy_ids(tables.1),
                Err(e) => decoded_file::<AttributeSink>(
                    self.shapes(),
                    content@,
                    0,
                    Attributes::none(),
                ) == Err::<Attributes, Failure>(e@),
            },
    {
        let mut sink = AttributeSink::new();
        decode(content, 0, &self.row_parser, &mut sink)?;
        Ok((sink.data, sink.resolver.into_table()))
    }
}

/// What the decoder has accumulated: the attributes by identifier, the
/// identifiers handed out and the codes they were registered for, and the
/// language of the descriptions that come next.
pub ghost struct Attributes {
    pub data: Map<i32, AttributeData>,
    pub resolver: ResolverState,
    pub language: Language,
}

impl Attributes {
    /// Nothing accumulated yet.
    pub open spec fn none() -> Attributes {
        Attributes { data: Map::empty(), resolver: ResolverState::fresh(), language: Language::German }
    }
}

/// The code and the numbers of a row of the first shape.
pub open spec fn row_a_of(values: Seq<TypedValue>) -> Result<(Seq<char>, i16, i16, i16), Failure> {
    match read_text(values, 0) {
        Err(failure) => Err(failure),
        Ok(designation) => match read_i16(values, 1) {
            Err(failure) => Err(failure),
            Ok(stop_scope) => match read_i16(values, 2) {
                Err(failure) => Err(failure),
                Ok(main) => match read_i16(values, 3) {
                    Err(failure) => Err(failure),
                    Ok(secondary) => Ok((designation, stop_scope, main, secondary)),
                },
            },
        },
    }
}

/// A new attribute: it gets the next identifier, and its code is registered
/// for that identifier.
pub open spec fn with_attribute(state: Attributes, values: Seq<TypedValue>) -> Result<
    Attributes,
    Failure,
> {
    match row_a_of(values) {
        Err(failure) => Err(failure),
        Ok((designation, stop_scope, main, secondary)) => if state.resolver.issued >= i32::MAX {
            Err(Failure::IdentifiersExhausted)
        } else {
            let id = (state.resolver.issued + 1) as i32;
            Ok(
                Attributes {
                    data: state.data.insert(
                        id,
                        AttributeData {
                            id,
                            designation,
                            stop_scope,
                            main_sorting_priority: main,
                            secondary_sorting_priority: secondary,
                            description: TranslatedText::none(),
                        },
                    ),
                    resolver: state.resolver.after_next().after_register(designation, id),
                    language: state.language,
                },
            )
        },
    }
}

/// A text without the characters `<` and `>`.
pub open spec fn without_angle_brackets(text: Seq<char>) -> Seq<char>
    decreases text.len(),
{
    if text.len() == 0 {
        text
    } else if text.last() == '<' || text.last() == '>' {
        without_angle_brackets(text.drop_last())
    } else {
        without_angle_brackets(text.drop_last()).push(text.last())
    }
}

/// The language that a language row switches to. The keyword `text` leaves
/// the language as it is.
pub open spec fn language_after(current: Language, values: Seq<TypedValue>) -> Result<
    Language,
    Failure,
> {
    match read_text(values, 0) {
        Err(failure) => Err(failure),
        Ok(text) => {
            let code = without_angle_brackets(text);
            if code == seq!['t', 'e', 'x', 't'] {
                Ok(current)
            } else {
                match language_of(code) {
                    Some(language) => Ok(language),
                    None => Err(Failure::UnknownLanguage),
                }
            }
        },
    }
}

/// The attributes after a description row: the attribute that the code
/// resolves to has the description in the current language.
pub open spec fn with_description(state: Attributes, values: Seq<TypedValue>) -> Result<
    Attributes,
    Failure,
> {
    match read_text(values, 0) {
        Err(failure) => Err(failure),
        Ok(legacy_id) => match read_text(values, 1) {
            Err(failure) => Err(failure),
            Ok(description) => match state.resolver.ids.get(legacy_id) {
                None => Err(Failure::UnknownLegacyId),
                Some(id) => match state.data.get(id) {
                    None => Err(Failure::UnknownId),
                    Some(attribute) => Ok(
                        Attributes {
                            data: state.data.insert(
                                id,
                                AttributeData {
                                    description: attribute.description.with(
                                        state.language,
                                        description,
                                    ),
                                    ..attribute
                                },
                            ),
                            ..state
                        },
                    ),
                },
            },
        },
    }
}

/// What one more record makes of the accumulated attributes.
pub open spec fn with_record(state: Attributes, record: Record) -> Result<Attributes, Failure> {
    if record.0 == ROW_A {
        with_attribute(state, record.2)
    } else if record.0 == ROW_B {
        Ok(state)
    } else if record.0 == ROW_C {
        match language_after(state.language, record.2) {
            Err(failure) => Err(failure),
            Ok(language) => Ok(Attributes { language, ..state }),
        }
    } else if record.0 == ROW_D {
        with_description(state, record.2)
    } else {
        Err(Failure::UnexpectedRow)
    }
}

/// The accumulator of the decoder.
pub struct AttributeSink {
    data: FxHashMap<i32, Attribute>,
    resolver: IdentityResolver,
    language: Language,
}

impl AttributeSink {
    /// An accumulator that holds nothing yet. The language is German until a
    /// row names another.
    pub fn new() -> (sink: Self)
        ensures
            sink.state() == Attributes::none(),
    {
        proof {
            lemma_views_of_empty::<Attribute>();
        }
        AttributeSink {
            data: new_table(),
            resolver: IdentityResolver::new(),
            language: Language::default(),
        }
    }
}

impl RecordSink for AttributeSink {
    type State = Attributes;

    closed spec fn state(&self) -> Attributes {
        Attributes {
            data: entity_views(self.data@),
            resolver: self.resolver@,
            language: self.language,
        }
    }

    open spec fn step(state: Attributes, record: Record) -> Result<Attributes, Failure> {
        with_record(state, record)
    }

    fn accept(&mut self, row: ParsedRow) -> (result: Result<(), ParseError>) {
        let (id, _, values) = row;
        if id == ROW_A {
            let attribute = create_instance(values, &mut self.resolver)?;
            let id = attribute.id();
            proof {
                lemma_views_after_insert(self.data@, id, attribute);
            }
            store(&mut self.data, id, attribute);
            Ok(())
        } else if id == ROW_B {
            Ok(())
        } else if id == ROW_C {
            update_current_language(values, &mut self.language)
        } else if id == ROW_D {
            set_description(values, &self.resolver, &mut self.data, self.language)
        } else {
            Err(ParseError::UnexpectedRow)
        }
    }
}

/// Decodes the rows of a file of attributes.
pub fn row_converter(parser: FileParser) -> (result: Result<
    (FxHashMap<i32, Attribute>, FxHashMap<String, i32>),
    ParseError,
>)
    ensures
        match result {
            Ok(tables) => folded_all::<AttributeSink>(
                records(parser.shapes(), parser.lines()),
                Attributes::none(),
            ) matches Ok(state) && state.data == entity_views(tables.0@) && state.resolver.ids
                == legacy_ids(tables.1),
            Err(e) => folded_all::<AttributeSink>(
                records(parser.shapes(), parser.lines()),
                Attributes::none(),
            ) == Err::<Attributes, Failure>(e@),
        },
{
    let mut sink = AttributeSink::new();
    feed(&parser, &mut sink)?;
    Ok((sink.data, sink.resolver.into_table()))
}

/// Builds the attribute of a row, with the next identifier, and registers
/// its code.
pub fn create_instance(values: Vec<ParsedValue>, resolver: &mut IdentityResolver) -> (result: Result<
    Attribute,
    ParseError,
>)
    ensures
        match result {
            Ok(attribute) => row_a_of(value_views(values@)) is Ok && old(resolver)@.issued
                < i32::MAX && attribute@ == (AttributeData {
                id: (old(resolver)@.issued + 1) as i32,
                designation: row_a_of(value_views(values@))->Ok_0.0,
                stop_scope: row_a_of(value_views(values@))->Ok_0.1,
                main_sorting_priority: row_a_of(value_views(values@))->Ok_0.2,
                secondary_sorting_priority: row_a_of(value_views(values@))->Ok_0.3,
                description: TranslatedText::none(),
            }) && final(resolver)@ == old(resolver)@.after_next().after_register(
                attribute@.designation,
                attribute@.id,
            ),
            Err(e) => final(resolver)@ == old(resolver)@ && match row_a_of(value_views(values@)) {
                Err(failure) => failure == e@,
                Ok(_) => old(resolver)@.issued >= i32::MAX && e@ == Failure::IdentifiersExhausted,
            },
        },
{
    let (designation, stop_scope, main_sorting_priority, secondary_sorting_priority) =
        row_a_from_parsed_values(&values)?;
    if !resolver.has_next() {
        return Err(ParseError::IdentifiersExhausted);
    }
    let id = resolver.next();
    resolver.register(designation.clone(), id);
    Ok(
        Attribute::new(
            id,
            designation,
            stop_scope,
            main_sorting_priority,
            secondary_sorting_priority,
        ),
    )
}

/// Decodes the content of a file of attributes.
pub fn parse(content: &[u8]) -> (result: Result<
    (FxHashMap<i32, Attribute>, FxHashMap<String, i32>),
    ParseError,
>)
    ensures
        match result {
            Ok(tables) => decoded_file::<AttributeSink>(
                attribute_rows(),
                content@,
                0,
                Attributes::none(),
            ) matches Ok(state) && state.data == entity_views(tables.0@) && state.resolver.ids
                == legacy_ids(tables.1),
            Err(e) => decoded_file::<AttributeSink>(
                attribute_rows(),
                content@,
                0,
                Attributes::none(),
            ) == Err::<Attributes, Failure>(e@),
        },
{
    AttributeParser::new().parse(content)
}

/// The code and the numbers that a row of the first shape holds.
pub fn row_a_from_parsed_values(values: &Vec<ParsedValue>) -> (result: Result<
    (String, i16, i16, i16),
    ParseError,
>)
    ensures
        match result {
            Ok(parts) => row_a_of(value_views(values@)) == Ok::<
                (Seq<char>, i16, i16, i16),
                Failure,
            >((parts.0@, parts.1, parts.2, parts.3)),
            Err(e) => row_a_of(value_views(values@)) == Err::<(Seq<char>, i16, i16, i16), Failure>(
                e@,
            ),
        },
{
    let designation = value_text(values, 0)?;
    let stop_scope = value_i16(values, 1)?;
    let main_sorting_priority = value_i16(values, 2)?;
    let secondary_sorting_priority = value_i16(values, 3)?;
    Ok((designation, stop_scope, main_sorting_priority, secondary_sorting_priority))
}

/// The text that a language row holds.
pub fn row_c_from_parsed_values(values: &Vec<ParsedValue>) -> (result: Result<String, ParseError>)
    ensures
        match result {
            Ok(text) => read_text(value_views(values@), 0) == Ok::<Seq<char>, Failure>(text@),
            Err(e) => read_text(value_views(values@), 0) == Err::<Seq<char>, Failure>(e@),
        },
{
    value_text(values, 0)
}

/// The code and the description that a description row holds.
pub fn row_d_from_parsed_values(values: &Vec<ParsedValue>) -> (result: Result<
    (String, String),
    ParseError,
>)
    ensures
        match result {
            Ok(pair) => read_text(value_views(values@), 0) == Ok::<Seq<char>, Failure>(pair.0@)
                && read_text(value_views(values@), 1) == Ok::<Seq<char>, Failure>(pair.1@),
            Err(e) => match read_text(value_views(values@), 0) {
                Err(failure) => failure == e@,
                Ok(_) => read_text(value_views(values@), 1) == Err::<Seq<char>, Failure>(e@),
            },
        },
{
    let legacy_id = value_text(values, 0)?;
    let description = value_text(values, 1)?;
    Ok((legacy_id, description))
}

/// Gives the attribute that a code resolves to its description in a language.
pub fn set_description(
    values: Vec<ParsedValue>,
    resolver: &IdentityResolver,
    data: &mut FxHashMap<i32, Attribute>,
    language: Language,
) -> (result: Result<(), ParseError>)
    ensures
        match result {
            Ok(()) => with_description(
                Attributes { data: entity_views(old(data)@), resolver: resolver@, language },
                value_views(values@),
            ) matches Ok(state) && state.data == entity_views(final(data)@),
            Err(e) => with_description(
                Attributes { data: entity_views(old(data)@), resolver: resolver@, language },
                value_views(values@),
            ) == Err::<Attributes, Failure>(e@),
        },
{
    let (legacy_id, description) = row_d_from_parsed_values(&values)?;
    let id = match resolver.resolve(legacy_id.as_str()) {
        Some(id) => id,
        None => {
            return Err(ParseError::UnknownLegacyId);
        },
    };
    proof {
        lemma_views_of_entry(data@, id);
    }
    match take(data, id) {
        None => Err(ParseError::UnknownId),
        Some(mut attribute) => {
            attribute.set_description(language, description.as_str());
            proof {
                lemma_views_after_insert(old(data)@, id, attribute);
            }
            store(data, id, attribute);
            Ok(())
        },
    }
}

/// Removes the characters `<` and `>` from a text.
pub fn remove_angle_brackets(text: &str) -> (code: Vec<char>)
    ensures
        code@ == without_angle_brackets(text@),
{
    let chars = to_chars(text);
    let mut code: Vec<char> = Vec::new();
    let mut i: usize = 0;
    while i < chars.len()
        invariant
            i <= chars@.len(),
            code@ == without_angle_brackets(chars@.take(i as int)),
        decreases chars@.len() - i,
    {
        assert(chars@.take(i + 1).drop_last() =~= chars@.take(i as int));
        let c = chars[i];
        if !(c == '<' || c == '>') {
            code.push(c);
        }
        i = i + 1;
    }
    assert(chars@.take(chars@.len() as int) =~= chars@);
    code
}

/// Switches to the language that a language row names.
pub fn update_current_language(values: Vec<ParsedValue>, current_language: &mut Language) -> (result:
    Result<(), ParseError>)
    ensures
        match result {
            Ok(()) => language_after(*old(current_language), value_views(values@)) == Ok::<
                Language,
                Failure,
            >(*final(current_language)),
            Err(e) => language_after(*old(current_language), value_views(values@)) == Err::<
                Language,
                Failure,
            >(e@),
        },
{
    let language = row_c_from_parsed_values(&values)?;
    let code = remove_angle_brackets(language.as_str());
    if is_text_keyword(code.as_slice()) {
        return Ok(());
    }
    *current_language = Language::from_chars(code.as_slice())?;
    Ok(())
}

/// Whether a text is the keyword that opens the descriptions.
pub fn is_text_keyword(chars: &[char]) -> (yes: bool)
    ensures
        yes == (chars@ == seq!['t', 'e', 'x', 't']),
{
    if chars.len() == 4 && chars[0] == 't' && chars[1] == 'e' && chars[2] == 'x' && chars[3]
        == 't' {
        assert(chars@ =~= seq!['t', 'e', 'x', 't']);
        true
    } else {
        proof {
            let word = seq!['t', 'e', 'x', 't'];
            assert(word.len() == 4 && word[0] == 't' && word[1] == 'e' && word[2] == 'x' && word[3]
                == 't');
        }
        false
    }
}

} // verus!
