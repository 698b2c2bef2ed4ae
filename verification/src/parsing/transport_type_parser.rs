//! Kinds of transport.
//!
//! The file starts with one line for each kind of transport. Lines with the
//! name of a language in angle brackets follow, and after each of them the
//! names of product classes and categories in that language. A name of a
//! product class goes to all kinds of that class; a name of a category goes
//! to the kind that was read last.
//!
//! File read by the decoder: ZUGART

use vstd::prelude::*;
use rustc_hash::FxHashMap;
use crate::grammar::{capture, skip, Grammar, Token};
use crate::models::{Language, TransportType, TransportTypeData, TranslatedText};
use crate::parsing::file_parser::{
    decode,
    decoded_file,
    feed,
    folded_all,
    records,
    FileParser,
    RecordSink,
};
use crate::parsing::{
    read_i16,
    read_i32,
    read_text,
    row,
    value_i16,
    value_i32,
    value_text,
    value_views,
    ExpectedType,
    Failure,
    ParseError,
    ParsedRow,
    ParsedValue,
    Record,
    RowDefinition,
    RowParser,
    RowShape,
    TypedValue,
};
use crate::storage::{
    entity_views,
    legacy_ids,
    lemma_views_after_insert,
    lemma_views_of_empty,
    lemma_views_of_entry,
    lookup,
    new_table,
    store,
    take,
};
use crate::text::{reads, to_chars};
use crate::utils::{IdentityResolver, ResolverState};

verus! {

/// A kind of transport.
pub const ROW_A: i32 = 1;

/// The language of the names that follow.
pub const ROW_B: i32 = 2;

/// The name of a product class.
pub const ROW_C: i32 = 3;

/// An option.
pub const ROW_D: i32 = 4;

/// The name of a category.
pub const ROW_E: i32 = 5;

/// A reference to an information text.
pub const ROW_F: i32 = 6;

/// The shapes of row in the file, in the order in which they are tried.
pub open spec fn transport_type_rows() -> Seq<RowShape> {
    seq![
        RowShape {
            id: ROW_A,
            columns: seq![
                ExpectedType::String,
                ExpectedType::Integer16,
                ExpectedType::String,
                ExpectedType::Integer16,
                ExpectedType::String,
                ExpectedType::Integer16,
                ExpectedType::String,
            ],
            steps: seq![
                capture(Token::Take(3)),
                skip(Token::Space1),
                capture(Token::Take(2)),
                skip(Token::Space1),
                capture(Token::Take(1)),
                skip(Token::Space1),
                capture(Token::Take(1)),
                skip(Token::Space1),
                capture(Token::Take(8)),
                skip(Token::Space1),
                capture(Token::Take(1)),
                skip(Token::Space1),
                capture(Token::Take(1)),
            ],
            whole: false,
        },
        RowShape {
            id: ROW_B,
            columns: seq![
                ExpectedType::String,
            ],
            steps: seq![
                skip(Token::Tag("<")),
                skip(Token::Rest),
            ],
            whole: true,
        },
        RowShape {
            id: ROW_C,
            columns: seq![
                ExpectedType::Integer16,
                ExpectedType::String,
            ],
            steps: seq![
                skip(Token::Tag("class")),
                capture(Token::Take(2)),
                skip(Token::Space1),
                capture(Token::Rest),
            ],
            whole: false,
        },
        RowShape {
            id: ROW_D,
            columns: Seq::empty(),
            steps: seq![
                skip(Token::Tag("option")),
            ],
            whole: false,
        },
        RowShape {
            id: ROW_E,
            columns: seq![
                ExpectedType::Integer32,
                ExpectedType::String,
            ],
            steps: seq![
                skip(Token::Tag("category")),
                capture(Token::Take(3)),
                skip(Token::Space1),
                capture(Token::Rest),
            ],
            whole: false,
        },
        RowShape {
            id: ROW_F,
            columns: seq![
                ExpectedType::String,
                ExpectedType::OptionInteger32,
            ],
            steps: seq![
                skip(Token::Tag("*I")),
                skip(Token::Space1),
                capture(Token::Take(2)),
                capture(Token::Take(7)),
                skip(Token::Space1),
                skip(Token::Take(9)),
            ],
            whole: false,
        },
    ]
}

/// The decoder of the file of kinds of transport.
pub struct TransportTypeParser {
    file: String,
    row_parser: RowParser,
}

impl TransportTypeParser {
    fn get_parser_1() -> (grammar: Grammar)
        ensures
            grammar.steps@ == seq![
                capture(Token::Take(3)),
                skip(Token::Space1),
                capture(Token::Take(2)),
                skip(Token::Space1),
                capture(Token::Take(1)),
                skip(Token::Space1),
                capture(Token::Take(1)),
                skip(Token::Space1),
                capture(Token::Take(8)),
                skip(Token::Space1),
                capture(Token::Take(1)),
                skip(Token::Space1),
                capture(Token::Take(1)),
            ],
            !grammar.whole,
    {
        let steps = vec![
            capture(Token::Take(3)),
            skip(Token::Space1),
            capture(Token::Take(2)),
            skip(Token::Space1),
            capture(Token::Take(1)),
            skip(Token::Space1),
            capture(Token::Take(1)),
            skip(Token::Space1),
            capture(Token::Take(8)),
            skip(Token::Space1),
            capture(Token::Take(1)),
            skip(Token::Space1),
            capture(Token::Take(1)),
        ];
        assert(steps@ =~= seq![
            capture(Token::Take(3)),
            skip(Token::Space1),
            capture(Token::Take(2)),
            skip(Token::Space1),
            capture(Token::Take(1)),
            skip(Token::Space1),
            capture(Token::Take(1)),
            skip(Token::Space1),
            capture(Token::Take(8)),
            skip(Token::Space1),
            capture(Token::Take(1)),
            skip(Token::Space1),
            capture(Token::Take(1)),
        ]);
        Grammar::new(steps)
    }

    fn get_parser_2() -> (grammar: Grammar)
        ensures
            grammar.steps@ == seq![
                skip(Token::Tag("<")),
                skip(Token::Rest),
            ],
            grammar.whole,
    {
        let steps = vec![
            skip(Token::Tag("<")),
            skip(Token::Rest),
        ];
        assert(steps@ =~= seq![
            skip(Token::Tag("<")),
            skip(Token::Rest),
        ]);
        Grammar::recognize(steps)
    }

    fn get_parser_3() -> (grammar: Grammar)
        ensures
            grammar.steps@ == seq![
                skip(Token::Tag("class")),
                capture(Token::Take(2)),
                skip(Token::Space1),
                capture(Token::Rest),
            ],
            !grammar.whole,
    {
        let steps = vec![
            skip(Token::Tag("class")),
            capture(Token::Take(2)),
            skip(Token::Space1),
            capture(Token::Rest),
        ];
        assert(steps@ =~= seq![
            skip(Token::Tag("class")),
            capture(Token::Take(2)),
            skip(Token::Space1),
            capture(Token::Rest),
        ]);
        Grammar::new(steps)
    }

    fn get_parser_4() -> (grammar: Grammar)
        ensures
            grammar.steps@ == seq![
                skip(Token::Tag("option")),
            ],
            !grammar.whole,
    {
        let steps = vec![
            skip(Token::Tag("option")),
        ];
        assert(steps@ =~= seq![
            skip(Token::Tag("option")),
        ]);
        Grammar::new(steps)
    }

    fn get_parser_5() -> (grammar: Grammar)
        ensures
            grammar.steps@ == seq![
                skip(Token::Tag("category")),
                capture(Token::Take(3)),
                skip(Token::Space1),
                capture(Token::Rest),
            ],
            !grammar.whole,
    {
        let steps = vec![
            skip(Token::Tag("category")),
            capture(Token::Take(3)),
            skip(Token::Space1),
            capture(Token::Rest),
        ];
        assert(steps@ =~= seq![
            skip(Token::Tag("category")),
            capture(Token::Take(3)),
            skip(Token::Space1),
            capture(Token::Rest),
        ]);
        Grammar::new(steps)
    }

    fn get_parser_6() -> (grammar: Grammar)
        ensures
            grammar.steps@ == seq![
                skip(Token::Tag("*I")),
                skip(Token::Space1),
                capture(Token::Take(2)),
                capture(Token::Take(7)),
                skip(Token::Space1),
                skip(Token::Take(9)),
            ],
            !grammar.whole,
    {
        let steps = vec![
            skip(Token::Tag("*I")),
            skip(Token::Space1),
            capture(Token::Take(2)),
            capture(Token::Take(7)),
            skip(Token::Space1),
            skip(Token::Take(9)),
        ];
        assert(steps@ =~= seq![
            skip(Token::Tag("*I")),
            skip(Token::Space1),
            capture(Token::Take(2)),
            capture(Token::Take(7)),
            skip(Token::Space1),
            skip(Token::Take(9)),
        ]);
        Grammar::new(steps)
    }

    pub fn new() -> (parser: Self)
        ensures
            parser.shapes() == transport_type_rows(),
            parser.file_name() == "ZUGART"@,
    {
        let row_parser = {
            let mut rows: Vec<RowDefinition> = Vec::new();
            let kinds = vec![
                ExpectedType::String,
                ExpectedType::Integer16,
                ExpectedType::String,
                ExpectedType::Integer16,
                ExpectedType::String,
                ExpectedType::Integer16,
                ExpectedType::String,
            ];
            assert(kinds@ =~= transport_type_rows()[0].columns);
            rows.push(row(ROW_A, kinds, Self::get_parser_1()));
            let kinds = vec![
                ExpectedType::String,
            ];
            assert(kinds@ =~= transport_type_rows()[1].columns);
            rows.push(row(ROW_B, kinds, Self::get_parser_2()));
            let kinds = vec![
                ExpectedType::Integer16,
                ExpectedType::String,
            ];
            assert(kinds@ =~= transport_type_rows()[2].columns);
            rows.push(row(ROW_C, kinds, Self::get_parser_3()));
            let kinds: Vec<ExpectedType> = Vec::new();
            assert(kinds@ =~= transport_type_rows()[3].columns);
            rows.push(row(ROW_D, kinds, Self::get_parser_4()));
            let kinds = vec![
                ExpectedType::Integer32,
                ExpectedType::String,
            ];
            assert(kinds@ =~= transport_type_rows()[4].columns);
            rows.push(row(ROW_E, kinds, Self::get_parser_5()));
            let kinds = vec![
                ExpectedType::String,
                ExpectedType::OptionInteger32,
            ];
            assert(kinds@ =~= transport_type_rows()[5].columns);
            rows.push(row(ROW_F, kinds, Self::get_parser_6()));
            let row_parser = RowParser::new(rows);
            assert(row_parser@ =~= transport_type_rows());
            row_parser
        };
        Self { file: "ZUGART".to_owned(), row_parser }
    }

    /// The shapes of row that the decoder knows.
    pub closed spec fn shapes(&self) -> Seq<RowShape> {
        self.row_parser@
    }

    /// The name of the file that the decoder reads.
    pub closed spec fn file_name(&self) -> Seq<char> {
        self.file@
    }

    /// The name of the file that the decoder reads.
    pub fn file(&self) -> (name: &String)
        ensures
            name@ == self.file_name(),
    {
        &self.file
    }

    /// The classifier of the rows.
    pub fn row_parser(&self) -> (row_parser: &RowParser)
        ensures
            row_parser@ == self.shapes(),
    {
        &self.row_parser
    }

    /// Turns the rows of a file into kinds of transport.
    pub fn row_converter(&self, parser: FileParser) -> (result: Result<
        (FxHashMap<i32, TransportType>, FxHashMap<String, i32>),
        ParseError,
    >)
        ensures
            match result {
                Ok(tables) => folded_all::<TransportTypeSink>(
                    records(parser.shapes(), parser.lines()),
                    TransportTypes::none(),
                ) matches Ok(state) && state.data == entity_views(tables.0@) && state.resolver.ids
                    == legacy_ids(tables.1),
                Err(e) => folded_all::<TransportTypeSink>(
                    records(parser.shapes(), parser.lines()),
                    TransportTypes::none(),
                ) == Err::<TransportTypes, Failure>(e@),
            },
    {
        let mut sink = TransportTypeSink::new();
        feed(&parser, &mut sink)?;
        Ok((sink.data, sink.resolver.into_table()))
    }

    /// Decodes the content of the file: the kinds of transport by
    /// identifier, and the identifiers by designation.
    pub fn parse(&self, content: &[u8]) -> (result: Result<
        (FxHashMap<i32, TransportType>, FxHashMap<String, i32>),
        ParseError,
    >)
        ensures
            match result {
                Ok(tables) => decoded_file::<TransportTypeSink>(
                    self.shapes(),
                    content@,
                    0,
                    TransportTypes::none(),
                ) matches Ok(state) && state.data == entity_views(tables.0@) && state.resolver.ids
                    == legacy_ids(tables.1),
                Err(e) => decoded_file::<TransportTypeSink>(
                    self.shapes(),
                    content@,
                    0,
                    TransportTypes::none(),
                ) == Err::<TransportTypes, Failure>(e@),
            },
    {
        let mut sink = TransportTypeSink::new();
        decode(content, 0, &self.row_parser, &mut sink)?;
        Ok((sink.data, sink.resolver.into_table()))
    }
}

/// What the decoder has accumulated: the kinds of transport by identifier,
/// the identifiers handed out, of which the last is that of the latest kind,
/// with the designations they were registered for, and the language of the
/// names that come next.
pub ghost struct TransportTypes {
    pub data: Map<i32, TransportTypeData>,
    pub resolver: ResolverState,
    pub language: Language,
}

impl TransportTypes {
    /// Nothing accumulated yet.
    pub open spec fn none() -> TransportTypes {
        TransportTypes {
            data: Map::empty(),
            resolver: ResolverState::fresh(),
            language: Language::German,
        }
    }
}

/// The kind of transport that a row gives when `issued` identifiers were
/// handed out before it: it gets the next one.
pub open spec fn transport_type_in_row(values: Seq<TypedValue>, issued: nat) -> Result<
    TransportTypeData,
    Failure,
> {
    match read_text(values, 0) {
        Err(failure) => Err(failure),
        Ok(designation) => match read_i16(values, 1) {
            Err(failure) => Err(failure),
            Ok(product_class_id) => match read_text(values, 2) {
                Err(failure) => Err(failure),
                Ok(tarrif_group) => match read_i16(values, 3) {
                    Err(failure) => Err(failure),
                    Ok(output_control) => match read_text(values, 4) {
                        Err(failure) => Err(failure),
                        Ok(short_name) => match read_i16(values, 5) {
                            Err(failure) => Err(failure),
                            Ok(surchage) => match read_text(values, 6) {
                                Err(failure) => Err(failure),
                                Ok(flag) => if issued >= i32::MAX {
                                    Err(Failure::IdentifiersExhausted)
                                } else {
                                    Ok(
                                        TransportTypeData {
                                            id: (issued + 1) as i32,
                                            designation,
                                            product_class_id,
                                            tarrif_group,
                                            output_control,
                                            short_name,
                                            surchage,
                                            flag,
                                            product_class_name: TranslatedText::none(),
                                            category_name: TranslatedText::none(),
                                        },
                                    )
                                },
                            },
                        },
                    },
                },
            },
        },
    }
}

/// The language that a name stands for.
pub open spec fn language_named(name: Seq<char>) -> Option<Language> {
    if name == "Deutsch"@ {
        Some(Language::German)
    } else if name == "Franzoesisch"@ {
        Some(Language::French)
    } else if name == "Englisch"@ {
        Some(Language::English)
    } else if name == "Italienisch"@ {
        Some(Language::Italian)
    } else {
        None
    }
}

/// The language that a language row switches to: the row holds the name of
/// the language between two angle brackets. The keyword `text` leaves the
/// language as it is.
pub open spec fn language_after(current: Language, values: Seq<TypedValue>) -> Result<
    Language,
    Failure,
> {
    match read_text(values, 0) {
        Err(failure) => Err(failure),
        Ok(text) => if text.len() < 2 {
            Err(Failure::UnknownLanguage)
        } else {
            let name = text.subrange(1, text.len() - 1);
            if name == "text"@ {
                Ok(current)
            } else {
                match language_named(name) {
                    Some(language) => Ok(language),
                    None => Err(Failure::UnknownLanguage),
                }
            }
        },
    }
}

/// The kinds of transport with the identifiers 1 to `k` after the kinds of
/// one product class among them got the name of the class in a language.
pub open spec fn with_class_name(
    data: Map<i32, TransportTypeData>,
    product_class_id: i16,
    language: Language,
    name: Seq<char>,
    k: nat,
) -> Map<i32, TransportTypeData>
    decreases k,
{
    if k == 0 {
        data
    } else {
        let before = with_class_name(data, product_class_id, language, name, (k - 1) as nat);
        match before.get(k as i32) {
            Some(transport_type) => if transport_type.product_class_id == product_class_id {
                before.insert(
                    k as i32,
                    TransportTypeData {
                        product_class_name: transport_type.product_class_name.with(
                            language,
                            name,
                        ),
                        ..transport_type
                    },
                )
            } else {
                before
            },
            None => before,
        }
    }
}

/// The product class and the name that a row gives.
pub open spec fn class_name_of(values: Seq<TypedValue>) -> Result<(i16, Seq<char>), Failure> {
    match read_i16(values, 0) {
        Err(failure) => Err(failure),
        Ok(product_class_id) => match read_text(values, 1) {
            Err(failure) => Err(failure),
            Ok(name) => Ok((product_class_id, name)),
        },
    }
}

/// The name of a category that a row gives.
pub open spec fn category_name_of(values: Seq<TypedValue>) -> Result<Seq<char>, Failure> {
    match read_i32(values, 0) {
        Err(failure) => Err(failure),
        Ok(_) => read_text(values, 1),
    }
}

/// What one more record makes of the accumulated kinds of transport. A row
/// that is no kind of transport needs a kind of transport before it.
pub open spec fn with_record(state: TransportTypes, record: Record) -> Result<
    TransportTypes,
    Failure,
> {
    if record.0 == ROW_A {
        match transport_type_in_row(record.2, state.resolver.issued) {
            Err(failure) => Err(failure),
            Ok(transport_type) => Ok(
                TransportTypes {
                    data: state.data.insert(transport_type.id, transport_type),
                    resolver: state.resolver.after_next().after_register(
                        transport_type.designation,
                        transport_type.id,
                    ),
                    ..state
                },
            ),
        }
    } else {
        match state.data.get(state.resolver.issued as i32) {
            None => Err(Failure::MissingParentRow),
            Some(latest) => if record.0 == ROW_B {
                match language_after(state.language, record.2) {
                    Err(failure) => Err(failure),
                    Ok(language) => Ok(TransportTypes { language, ..state }),
                }
            } else if record.0 == ROW_C {
                match class_name_of(record.2) {
                    Err(failure) => Err(failure),
                    Ok((product_class_id, name)) => Ok(
                        TransportTypes {
                            data: with_class_name(
                                state.data,
                                product_class_id,
                                state.language,
                                name,
                                state.resolver.issued,
                            ),
                            ..state
                        },
                    ),
                }
            } else if record.0 == ROW_D || record.0 == ROW_F {
                Ok(state)
            } else if record.0 == ROW_E {
                match category_name_of(record.2) {
                    Err(failure) => Err(failure),
                    Ok(name) => Ok(
                        TransportTypes {
                            data: state.data.insert(
                                state.resolver.issued as i32,
                                TransportTypeData {
                                    category_name: latest.category_name.with(state.language, name),
                                    ..latest
                                },
                            ),
                            ..state
                        },
                    ),
                }
            } else {
                Err(Failure::UnexpectedRow)
            },
        }
    }
}

/// The accumulator of the decoder.
pub struct TransportTypeSink {
    data: FxHashMap<i32, TransportType>,
    resolver: IdentityResolver,
    language: Language,
}

impl TransportTypeSink {
    /// An accumulator that holds nothing yet. The language is German until a
    /// row names another.
    pub fn new() -> (sink: Self)
        ensures
            sink.state() == TransportTypes::none(),
    {
        proof {
            lemma_views_of_empty::<TransportType>();
        }
        TransportTypeSink {
            data: new_table(),
            resolver: IdentityResolver::new(),
            language: Language::default(),
        }
    }
}

impl RecordSink for TransportTypeSink {
    type State = TransportTypes;

    closed spec fn state(&self) -> TransportTypes {
        TransportTypes {
            data: entity_views(self.data@),
            resolver: self.resolver@,
            language: self.language,
        }
    }

    open spec fn step(state: TransportTypes, record: Record) -> Result<TransportTypes, Failure> {
        with_record(state, record)
    }

    fn accept(&mut self, row: ParsedRow) -> (result: Result<(), ParseError>) {
        let (id, _, values) = row;
        if id == ROW_A {
            let transport_type = create_instance(values, &mut self.resolver)?;
            let id = transport_type.id();
            proof {
                lemma_views_after_insert(self.data@, id, transport_type);
            }
            store(&mut self.data, id, transport_type);
            Ok(())
        } else {
            let latest = self.resolver.latest();
            proof {
                lemma_views_of_entry(self.data@, latest);
            }
            if id == ROW_E {
                match take(&mut self.data, latest) {
                    None => Err(ParseError::MissingParentRow),
                    Some(mut transport_type) => {
                        let result = set_category_name(values, &mut transport_type, self.language);
                        proof {
                            lemma_views_after_insert(old(self).data@, latest, transport_type);
                        }
                        store(&mut self.data, latest, transport_type);
                        result
                    },
                }
            } else {
                if lookup(&self.data, latest).is_none() {
                    return Err(ParseError::MissingParentRow);
                }
                if id == ROW_B {
                    update_current_language(values, &mut self.language)
                } else if id == ROW_C {
                    set_product_class_name(values, &mut self.data, latest, self.language)
                } else if id == ROW_D || id == ROW_F {
                    Ok(())
                } else {
                    Err(ParseError::UnexpectedRow)
                }
            }
        }
    }
}

/// Builds the kind of transport of a row, with the next identifier, and
/// registers its designation.
pub fn create_instance(values: Vec<ParsedValue>, resolver: &mut IdentityResolver) -> (result: Result<
    TransportType,
    ParseError,
>)
    ensures
        match result {
            Ok(transport_type) => transport_type_in_row(value_views(values@), old(resolver)@.issued)
                == Ok::<TransportTypeData, Failure>(transport_type@) && final(resolver)@ == old(
                resolver,
            )@.after_next().after_register(transport_type@.designation, transport_type@.id),
            Err(e) => transport_type_in_row(value_views(values@), old(resolver)@.issued) == Err::<
                TransportTypeData,
                Failure,
            >(e@),
        },
{
    let designation = value_text(&values, 0)?;
    let product_class_id = value_i16(&values, 1)?;
    let tarrif_group = value_text(&values, 2)?;
    let output_control = value_i16(&values, 3)?;
    let short_name = value_text(&values, 4)?;
    let surchage = value_i16(&values, 5)?;
    let flag = value_text(&values, 6)?;
    if !resolver.has_next() {
        return Err(ParseError::IdentifiersExhausted);
    }
    let id = resolver.next();
    resolver.register(designation.clone(), id);
    Ok(
        TransportType::new(
            id,
            designation,
            product_class_id,
            tarrif_group,
            output_control,
            short_name,
            surchage,
            flag,
        ),
    )
}

/// Decodes the content of a file of kinds of transport.
pub fn parse(content: &[u8]) -> (result: Result<
    (FxHashMap<i32, TransportType>, FxHashMap<String, i32>),
    ParseError,
>)
    ensures
        match result {
            Ok(tables) => decoded_file::<TransportTypeSink>(
                transport_type_rows(),
                content@,
                0,
                TransportTypes::none(),
            ) matches Ok(state) && state.data == entity_views(tables.0@) && state.resolver.ids
                == legacy_ids(tables.1),
            Err(e) => decoded_file::<TransportTypeSink>(
                transport_type_rows(),
                content@,
                0,
                TransportTypes::none(),
            ) == Err::<TransportTypes, Failure>(e@),
        },
{
    TransportTypeParser::new().parse(content)
}

/// Gives the kinds of transport of a product class the name of the class in
/// a language. The kinds have the identifiers 1 to `latest`.
pub fn set_product_class_name(
    values: Vec<ParsedValue>,
    data: &mut FxHashMap<i32, TransportType>,
    latest: i32,
    language: Language,
) -> (result: Result<(), ParseError>)
    requires
        0 <= latest,
    ensures
        match result {
            Ok(()) => class_name_of(value_views(values@)) matches Ok(named)
                && entity_views(final(data)@) == with_class_name(
                entity_views(old(data)@),
                named.0,
                language,
                named.1,
                latest as nat,
            ),
            Err(e) => class_name_of(value_views(values@)) == Err::<(i16, Seq<char>), Failure>(e@),
        },
{
    let product_class_id = value_i16(&values, 0)?;
    let product_class_name = value_text(&values, 1)?;
    let mut id: i32 = 0;
    while id < latest
        invariant
            0 <= id <= latest,
            entity_views(data@) == with_class_name(
                entity_views(old(data)@),
                product_class_id,
                language,
                product_class_name@,
                id as nat,
            ),
        decreases latest - id,
    {
        id = id + 1;
        let ghost before = data@;
        proof {
            lemma_views_of_entry(data@, id);
        }
        match take(data, id) {
            None => {
                assert(data@ =~= before);
            },
            Some(mut transport_type) => {
                let ghost unchanged = transport_type@;
                if transport_type.product_class_id() == product_class_id {
                    transport_type.set_product_class_name(language, product_class_name.as_str());
                }
                proof {
                    lemma_views_after_insert(before, id, transport_type);
                    if unchanged.product_class_id != product_class_id {
                        assert(entity_views(before).insert(id, unchanged) =~= entity_views(before));
                    }
                }
                store(data, id, transport_type);
            },
        }
    }
    Ok(())
}

/// Gives a kind of transport the name of its category in a language.
pub fn set_category_name(
    values: Vec<ParsedValue>,
    transport_type: &mut TransportType,
    language: Language,
) -> (result: Result<(), ParseError>)
    ensures
        match result {
            Ok(()) => category_name_of(value_views(values@)) matches Ok(name)
                && final(transport_type)@ == (TransportTypeData {
                category_name: old(transport_type)@.category_name.with(language, name),
                ..old(transport_type)@
            }),
            Err(e) => category_name_of(value_views(values@)) == Err::<Seq<char>, Failure>(e@)
                && final(transport_type)@ == old(transport_type)@,
        },
{
    let _ = value_i32(&values, 0)?;
    let category_name = value_text(&values, 1)?;
    transport_type.set_category_name(language, category_name.as_str());
    Ok(())
}

/// Switches to the language that a language row names.
pub fn update_current_language(values: Vec<ParsedValue>, current_language: &mut Language) -> (result:
    Result<(), ParseError>)
    ensures
        match result {
            Ok(()) => language_after(*old(current_language), value_views(values@)) == Ok::<
                Language,
                Failure,
            >(*final(current_language)),
            Err(e) => language_after(*old(current_language), value_views(values@)) == Err::<
                Language,
                Failure,
            >(e@),
        },
{
    let language = value_text(&values, 0)?;
    let chars = to_chars(language.as_str());
    if chars.len() < 2 {
        return Err(ParseError::UnknownLanguage);
    }
    let from: usize = 1;
    let to: usize = chars.len() - 1;
    if reads(chars.as_slice(), from, to, "text") {
        Ok(())
    } else if reads(chars.as_slice(), from, to, "Deutsch") {
        *current_language = Language::German;
        Ok(())
    } else if reads(chars.as_slice(), from, to, "Franzoesisch") {
        *current_language = Language::French;
        Ok(())
    } else if reads(chars.as_slice(), from, to, "Englisch") {
        *current_language = Language::English;
        Ok(())
    } else if reads(chars.as_slice(), from, to, "Italienisch") {
        *current_language = Language::Italian;
        Ok(())
    } else {
        Err(ParseError::UnknownLanguage)
    }
}

} // verus!
