//! Row classification and typed-column extraction.
//!
//! A [`RowParser`] holds an ordered list of [`RowDefinition`]s. A line belongs
//! to the first definition whose grammar accepts it; the fields that the
//! grammar finds are trimmed and turned into [`ParsedValue`]s as the
//! definition's columns say.

pub mod attribute_parser;
pub mod coordinate_parser;
pub mod description_parser;
pub mod direction_parser;
pub mod exchange_administration_parser;
pub mod exchange_priority_parser;
pub mod exchange_time_parser;
pub mod file_parser;
pub mod holiday_parser;
pub mod information_text_parser;
pub mod line_parser;
pub mod platform_parser;
pub mod stop_connection_parser;
pub mod stop_parser;
pub mod through_service_parser;
pub mod timetable_metadata_parser;
pub mod transport_company_parser;
pub mod transport_type_parser;

pub use file_parser::{FileParser, ParsedRowIterator};

pub use attribute_parser::parse as load_attributes;
pub use direction_parser::parse as load_directions;
pub use exchange_administration_parser::parse as load_exchange_times_administration;
pub use holiday_parser::parse as load_holidays;
pub use information_text_parser::parse as load_information_texts;
pub use line_parser::parse as load_lines;
pub use platform_parser::parse as load_platforms;
pub use stop_connection_parser::parse as load_stop_connections;
pub use stop_parser::parse as load_stops;
pub use through_service_parser::parse as load_through_service;
pub use timetable_metadata_parser::parse as load_timetable_metadata;
pub use transport_company_parser::parse as load_transport_companies;
pub use transport_type_parser::parse as load_transport_types;

use vstd::prelude::*;
use vstd::utf8::encode_utf8;
use crate::grammar::{field_count, fields_of, lemma_field_count, Grammar, Step};
use crate::text::{
    cut,
    i16_value,
    i32_value,
    is_float_literal,
    is_float_text,
    parse_i16,
    parse_i32,
    ranges_within,
    to_chars,
    trim,
    trim_range,
};

verus! {

/// The kind of value that a column holds.
#[derive(Clone, Copy, Debug, PartialEq, Eq, Structural)]
pub enum ExpectedType {
    Float,
    Integer16,
    Integer32,
    String,
    OptionInteger32,
}

/// A typed value read from one column. A real-valued column keeps the decimal
/// text that was read, checked to denote a number.
#[derive(Debug, PartialEq)]
pub enum ParsedValue {
    Float(String),
    Integer16(i16),
    Integer32(i32),
    String(String),
    OptionInteger16(Option<i16>),
    OptionInteger32(Option<i32>),
}

/// What a [`ParsedValue`] holds, as mathematics.
pub ghost enum TypedValue {
    Float(Seq<char>),
    Integer16(i16),
    Integer32(i32),
    String(Seq<char>),
    OptionInteger16(Option<i16>),
    OptionInteger32(Option<i32>),
}

impl View for ParsedValue {
    type V = TypedValue;

    open spec fn view(&self) -> TypedValue {
        match self {
            ParsedValue::Float(text) => TypedValue::Float(text@),
            ParsedValue::Integer16(v) => TypedValue::Integer16(*v),
            ParsedValue::Integer32(v) => TypedValue::Integer32(*v),
            ParsedValue::String(text) => TypedValue::String(text@),
            ParsedValue::OptionInteger16(v) => TypedValue::OptionInteger16(*v),
            ParsedValue::OptionInteger32(v) => TypedValue::OptionInteger32(*v),
        }
    }
}

/// Why a file could not be decoded.
#[derive(Debug)]
pub enum ParseError {
    /// No row definition accepts the line.
    RowTypeNotFound { row: String },
    /// A field does not denote a value of its column's type.
    InvalidValue { column: usize, text: String },
    /// A grammar found another number of fields than its definition has columns.
    ColumnCountMismatch { expected: usize, found: usize },
    /// The line is too long for its length to be counted.
    LineTooLong,
    /// The content is not UTF-8 text.
    InvalidEncoding,
    /// A value was asked for as another variant than the one it is.
    VariantMismatch,
    /// A row has fewer values than its decoder reads.
    MissingValue,
    /// A legacy key that no earlier record has registered.
    UnknownLegacyId,
    /// An identifier that no earlier record has created.
    UnknownId,
    /// A row that belongs to an entity came before any entity.
    MissingParentRow,
    /// A text holds none of the parts that is required of it.
    MissingPart,
    /// A language code that is not one of the four known ones.
    UnknownLanguage,
    /// A text that does not denote a calendar date.
    InvalidDate,
    /// No further identifier can be allocated.
    IdentifiersExhausted,
    /// A record of a kind that the decoder does not know.
    UnexpectedRow,
    /// A pattern that is no regular expression.
    InvalidPattern,
}

/// What a [`ParseError`] holds, as mathematics.
pub ghost enum Failure {
    RowTypeNotFound { row: Seq<char> },
    InvalidValue { column: int, text: Seq<char> },
    ColumnCountMismatch { expected: int, found: int },
    LineTooLong,
    InvalidEncoding,
    VariantMismatch,
    MissingValue,
    UnknownLegacyId,
    UnknownId,
    MissingParentRow,
    MissingPart,
    UnknownLanguage,
    InvalidDate,
    IdentifiersExhausted,
    UnexpectedRow,
    InvalidPattern,
}

impl View for ParseError {
    type V = Failure;

    open spec fn view(&self) -> Failure {
        match self {
            ParseError::RowTypeNotFound { row } => Failure::RowTypeNotFound { row: row@ },
            ParseError::InvalidValue { column, text } => Failure::InvalidValue {
                column: *column as int,
                text: text@,
            },
            ParseError::ColumnCountMismatch { expected, found } => Failure::ColumnCountMismatch {
                expected: *expected as int,
                found: *found as int,
            },
            ParseError::LineTooLong => Failure::LineTooLong,
            ParseError::InvalidEncoding => Failure::InvalidEncoding,
            ParseError::VariantMismatch => Failure::VariantMismatch,
            ParseError::MissingValue => Failure::MissingValue,
            ParseError::UnknownLegacyId => Failure::UnknownLegacyId,
            ParseError::UnknownId => Failure::UnknownId,
            ParseError::MissingParentRow => Failure::MissingParentRow,
            ParseError::MissingPart => Failure::MissingPart,
            ParseError::UnknownLanguage => Failure::UnknownLanguage,
            ParseError::InvalidDate => Failure::InvalidDate,
            ParseError::IdentifiersExhausted => Failure::IdentifiersExhausted,
            ParseError::UnexpectedRow => Failure::UnexpectedRow,
            ParseError::InvalidPattern => Failure::InvalidPattern,
        }
    }
}

impl ParsedValue {
    /// The decimal text of a real-valued column.
    pub fn into_float_text(self) -> (result: Result<String, ParseError>)
        ensures
            match result {
                Ok(text) => self@ == TypedValue::Float(text@),
                Err(e) => !(self@ is Float) && e@ == Failure::VariantMismatch,
            },
    {
        match self {
            ParsedValue::Float(text) => Ok(text),
            _ => Err(ParseError::VariantMismatch),
        }
    }

    /// The value of a 16-bit integer column.
    pub fn into_i16(self) -> (result: Result<i16, ParseError>)
        ensures
            match result {
                Ok(v) => self@ == TypedValue::Integer16(v),
                Err(e) => !(self@ is Integer16) && e@ == Failure::VariantMismatch,
            },
    {
        match self {
            ParsedValue::Integer16(v) => Ok(v),
            _ => Err(ParseError::VariantMismatch),
        }
    }

    /// The value of a 32-bit integer column.
    pub fn into_i32(self) -> (result: Result<i32, ParseError>)
        ensures
            match result {
                Ok(v) => self@ == TypedValue::Integer32(v),
                Err(e) => !(self@ is Integer32) && e@ == Failure::VariantMismatch,
            },
    {
        match self {
            ParsedValue::Integer32(v) => Ok(v),
            _ => Err(ParseError::VariantMismatch),
        }
    }

    /// The text of a string column.
    pub fn into_string(self) -> (result: Result<String, ParseError>)
        ensures
            match result {
                Ok(text) => self@ == TypedValue::String(text@),
                Err(e) => !(self@ is String) && e@ == Failure::VariantMismatch,
            },
    {
        match self {
            ParsedValue::String(text) => Ok(text),
            _ => Err(ParseError::VariantMismatch),
        }
    }

    /// The value of an optional 16-bit integer column.
    pub fn into_option_i16(self) -> (result: Result<Option<i16>, ParseError>)
        ensures
            match result {
                Ok(v) => self@ == TypedValue::OptionInteger16(v),
                Err(e) => !(self@ is OptionInteger16) && e@ == Failure::VariantMismatch,
            },
    {
        match self {
            ParsedValue::OptionInteger16(v) => Ok(v),
            _ => Err(ParseError::VariantMismatch),
        }
    }

    /// The value of an optional 32-bit integer column.
    pub fn into_option_i32(self) -> (result: Result<Option<i32>, ParseError>)
        ensures
            match result {
                Ok(v) => self@ == TypedValue::OptionInteger32(v),
                Err(e) => !(self@ is OptionInteger32) && e@ == Failure::VariantMismatch,
            },
    {
        match self {
            ParsedValue::OptionInteger32(v) => Ok(v),
            _ => Err(ParseError::VariantMismatch),
        }
    }
}

/// One column of a row definition.
#[derive(Clone, Copy, Debug)]
pub struct ColumnDefinition {
    expected: ExpectedType,
}

impl ColumnDefinition {
    /// The kind of value that the column holds.
    pub closed spec fn kind(&self) -> ExpectedType {
        self.expected
    }

    pub fn new(expected: ExpectedType) -> (column: Self)
        ensures
            column.kind() == expected,
    {
        Self { expected }
    }

    /// The kind of value that the column holds.
    pub fn expected(&self) -> (expected: ExpectedType)
        ensures
            expected == self.kind(),
    {
        self.expected
    }
}

/// The value that a trimmed field denotes in a column of the given kind, or
/// `None` where it denotes none. An optional integer column takes every text.
pub open spec fn coerce(expected: ExpectedType, text: Seq<char>) -> Option<TypedValue> {
    match expected {
        ExpectedType::Float => if is_float_text(text) {
            Some(TypedValue::Float(text))
        } else {
            None
        },
        ExpectedType::Integer16 => match i16_value(text) {
            Some(v) => Some(TypedValue::Integer16(v)),
            None => None,
        },
        ExpectedType::Integer32 => match i32_value(text) {
            Some(v) => Some(TypedValue::Integer32(v)),
            None => None,
        },
        ExpectedType::String => Some(TypedValue::String(text)),
        ExpectedType::OptionInteger32 => Some(TypedValue::OptionInteger32(i32_value(text))),
    }
}

/// The values of the first `k` fields, or the failure of the first field among
/// them that denotes no value of its column's kind.
pub open spec fn converted(columns: Seq<ExpectedType>, fields: Seq<Seq<char>>, k: nat) -> Result<
    Seq<TypedValue>,
    Failure,
>
    decreases k,
{
    if k == 0 {
        Ok(Seq::empty())
    } else {
        match converted(columns, fields, (k - 1) as nat) {
            Err(failure) => Err(failure),
            Ok(values) => match coerce(columns[k - 1], trim(fields[k - 1])) {
                Some(value) => Ok(values.push(value)),
                None => Err(Failure::InvalidValue { column: k - 1, text: trim(fields[k - 1]) }),
            },
        }
    }
}

/// Once a field has failed, the fields after it do not change the failure.
pub proof fn lemma_conversion_failure_is_final(
    columns: Seq<ExpectedType>,
    fields: Seq<Seq<char>>,
    k: nat,
    m: nat,
)
    requires
        converted(columns, fields, k) is Err,
        m >= k,
    ensures
        converted(columns, fields, m) == converted(columns, fields, k),
    decreases m,
{
    if m > k {
        lemma_conversion_failure_is_final(columns, fields, k, (m - 1) as nat);
    }
}

/// The typed values of a row's fields. There must be as many fields as columns.
pub open spec fn convert(columns: Seq<ExpectedType>, fields: Seq<Seq<char>>) -> Result<
    Seq<TypedValue>,
    Failure,
> {
    if columns.len() != fields.len() {
        Err(
            Failure::ColumnCountMismatch {
                expected: columns.len() as int,
                found: fields.len() as int,
            },
        )
    } else {
        converted(columns, fields, columns.len())
    }
}

/// What a list of values holds, one after the other.
pub open spec fn value_views(values: Seq<ParsedValue>) -> Seq<TypedValue> {
    Seq::new(values.len(), |i: int| values[i]@)
}

/// One shape of row: a discriminant, the kinds of its columns, and its grammar.
#[derive(Debug)]
pub struct RowDefinition {
    pub id: i32,
    pub definition: Vec<ColumnDefinition>,
    pub parser: Grammar,
}

/// What a [`RowDefinition`] says, as mathematics.
pub ghost struct RowShape {
    pub id: i32,
    pub columns: Seq<ExpectedType>,
    pub steps: Seq<Step>,
    pub whole: bool,
}

/// The discriminant and the values of a classified line.
pub type Classified = (i32, Seq<TypedValue>);

impl RowShape {
    /// What this shape makes of a line: `None` where its grammar does not accept
    /// the line, else the typed values or the failure to make them.
    pub open spec fn outcome(self, line: Seq<char>) -> Option<Result<Classified, Failure>> {
        match fields_of(self.steps, self.whole, line) {
            None => None,
            Some(fields) => Some(
                match convert(self.columns, fields) {
                    Ok(values) => Ok((self.id, values)),
                    Err(failure) => Err(failure),
                },
            ),
        }
    }
}

impl RowShape {
    /// Whether the shape has as many columns as its grammar finds fields.
    pub open spec fn consistent(self) -> bool {
        self.columns.len() == field_count(self.steps, self.whole)
    }
}

/// A shape with as many columns as its grammar finds fields never fails for
/// the number of fields: on a line that its grammar accepts it either gives
/// the typed values or names a field that denotes no value of its column.
pub proof fn lemma_consistent_shape_counts_right(shape: RowShape, line: Seq<char>)
    requires
        shape.consistent(),
    ensures
        match shape.outcome(line) {
            Some(Err(failure)) => failure is InvalidValue,
            _ => true,
        },
{
    lemma_field_count(shape.steps, shape.whole, line);
    match fields_of(shape.steps, shape.whole, line) {
        Some(fields) => {
            lemma_conversion_names_a_field(shape.columns, fields, shape.columns.len());
        },
        None => {},
    }
}

/// The conversion of fields fails for a field, if it fails.
pub proof fn lemma_conversion_names_a_field(
    columns: Seq<ExpectedType>,
    fields: Seq<Seq<char>>,
    k: nat,
)
    ensures
        converted(columns, fields, k) matches Err(failure) ==> failure is InvalidValue,
    decreases k,
{
    if k > 0 {
        lemma_conversion_names_a_field(columns, fields, (k - 1) as nat);
    }
}

/// The kinds of a list of columns.
pub open spec fn column_kinds(columns: Seq<ColumnDefinition>) -> Seq<ExpectedType> {
    Seq::new(columns.len(), |i: int| columns[i].kind())
}

impl View for RowDefinition {
    type V = RowShape;

    open spec fn view(&self) -> RowShape {
        RowShape {
            id: self.id,
            columns: column_kinds(self.definition@),
            steps: self.parser.steps@,
            whole: self.parser.whole,
        }
    }
}

impl RowDefinition {
    pub fn new(id: i32, definition: Vec<ColumnDefinition>, parser: Grammar) -> (row: Self)
        ensures
            row.id == id,
            row.definition@ == definition@,
            row.parser.steps@ == parser.steps@,
            row.parser.whole == parser.whole,
    {
        Self { id, definition, parser }
    }

    /// Turns the fields that the grammar found into typed values.
    fn convert(&self, row: &str, chars: &[char], ranges: &Vec<(usize, usize)>) -> (result: Result<
        Vec<ParsedValue>,
        ParseError,
    >)
        requires
            chars@ == row@,
            ranges_within(ranges@, chars@.len()),
        ensures
            match result {
                Ok(values) => convert(self@.columns, cut(chars@, ranges@)) == Ok::<
                    Seq<TypedValue>,
                    Failure,
                >(value_views(values@)),
                Err(e) => convert(self@.columns, cut(chars@, ranges@)) == Err::<
                    Seq<TypedValue>,
                    Failure,
                >(e@),
            },
    {
        let ghost columns = self@.columns;
        let ghost fields = cut(chars@, ranges@);
        if self.definition.len() != ranges.len() {
            return Err(
                ParseError::ColumnCountMismatch {
                    expected: self.definition.len(),
                    found: ranges.len(),
                },
            );
        }
        let mut values: Vec<ParsedValue> = Vec::new();
        let mut k: usize = 0;
        assert(value_views(values@) =~= Seq::empty());
        while k < ranges.len()
            invariant
                k <= ranges@.len(),
                chars@ == row@,
                ranges_within(ranges@, chars@.len()),
                columns == self@.columns,
                columns.len() == ranges@.len(),
                fields == cut(chars@, ranges@),
                converted(columns, fields, k as nat) == Ok::<Seq<TypedValue>, Failure>(
                    value_views(values@),
                ),
            decreases ranges@.len() - k,
        {
            let (from, to) = ranges[k];
            let (a, b) = trim_range(chars, from, to);
            let ghost text = chars@.subrange(a as int, b as int);
            assert(text == trim(fields[k as int]));
            let expected = self.definition[k].expected();
            assert(expected == columns[k as int]);
            let value = match expected {
                ExpectedType::Float => {
                    if is_float_literal(chars, a, b) {
                        Some(ParsedValue::Float(row.substring_char(a, b).to_owned()))
                    } else {
                        None
                    }
                },
                ExpectedType::Integer16 => match parse_i16(chars, a, b) {
                    Some(v) => Some(ParsedValue::Integer16(v)),
                    None => None,
                },
                ExpectedType::Integer32 => match parse_i32(chars, a, b) {
                    Some(v) => Some(ParsedValue::Integer32(v)),
                    None => None,
                },
                ExpectedType::String => Some(
                    ParsedValue::String(row.substring_char(a, b).to_owned()),
                ),
                ExpectedType::OptionInteger32 => Some(
                    ParsedValue::OptionInteger32(parse_i32(chars, a, b)),
                ),
            };
            match value {
                Some(value) => {
                    assert(coerce(expected, text) == Some(value@));
                    let ghost before = values@;
                    values.push(value);
                    assert(value_views(values@) =~= value_views(before).push(value@));
                },
                None => {
                    assert(coerce(expected, text) is None);
                    let text = row.substring_char(a, b).to_owned();
                    proof {
                        lemma_conversion_failure_is_final(
                            columns,
                            fields,
                            (k + 1) as nat,
                            columns.len(),
                        );
                    }
                    return Err(ParseError::InvalidValue { column: k, text });
                },
            }
            k = k + 1;
        }
        Ok(values)
    }
}

/// A row definition from the kinds of its columns.
pub fn row(id: i32, kinds: Vec<ExpectedType>, parser: Grammar) -> (definition: RowDefinition)
    ensures
        definition@ == (RowShape {
            id,
            columns: kinds@,
            steps: parser.steps@,
            whole: parser.whole,
        }),
{
    let mut columns: Vec<ColumnDefinition> = Vec::new();
    let mut k: usize = 0;
    while k < kinds.len()
        invariant
            k <= kinds@.len(),
            column_kinds(columns@) == kinds@.take(k as int),
        decreases kinds@.len() - k,
    {
        let ghost before = columns@;
        columns.push(ColumnDefinition::new(kinds[k]));
        assert(column_kinds(columns@) =~= column_kinds(before).push(kinds@[k as int]));
        assert(kinds@.take(k + 1) =~= kinds@.take(k as int).push(kinds@[k as int]));
        k = k + 1;
    }
    assert(kinds@.take(kinds@.len() as int) =~= kinds@);
    RowDefinition::new(id, columns, parser)
}

/// The first outcome among the shapes from the `k`-th on, or the failure to
/// find a shape that accepts the line.
pub open spec fn classify_from(rows: Seq<RowShape>, line: Seq<char>, k: nat) -> Result<
    Classified,
    Failure,
>
    decreases rows.len() - k,
{
    if k >= rows.len() {
        Err(Failure::RowTypeNotFound { row: line })
    } else {
        match rows[k as int].outcome(line) {
            Some(outcome) => outcome,
            None => classify_from(rows, line, k + 1),
        }
    }
}

/// The discriminant and typed values of a line: those of the first shape whose
/// grammar accepts it.
pub open spec fn classify(rows: Seq<RowShape>, line: Seq<char>) -> Result<Classified, Failure> {
    classify_from(rows, line, 0)
}

/// The number of bytes that a line and its two-byte terminator take in a file.
pub open spec fn bytes_on_disk(line: Seq<char>) -> nat {
    encode_utf8(line).len() + 2
}

/// A classified line: discriminant, bytes consumed, values.
pub type Record = (i32, u64, Seq<TypedValue>);

/// The record that a line yields.
pub open spec fn record_of(rows: Seq<RowShape>, line: Seq<char>) -> Result<Record, Failure> {
    match classify(rows, line) {
        Err(failure) => Err(failure),
        Ok((id, values)) => if bytes_on_disk(line) <= u64::MAX {
            Ok((id, bytes_on_disk(line) as u64, values))
        } else {
            Err(Failure::LineTooLong)
        },
    }
}

/// (Discriminant of the row definition, number of bytes read, values of the row)
pub type ParsedRow = (i32, u64, Vec<ParsedValue>);

/// What the result of classifying a line holds.
pub open spec fn result_view(result: Result<ParsedRow, ParseError>) -> Result<Record, Failure> {
    match result {
        Ok((id, bytes, values)) => Ok((id, bytes, value_views(values@))),
        Err(e) => Err(e@),
    }
}

/// An ordered list of row definitions.
#[derive(Debug)]
pub struct RowParser {
    row_definitions: Vec<RowDefinition>,
}

/// What a list of row definitions says.
pub open spec fn row_shapes(rows: Seq<RowDefinition>) -> Seq<RowShape> {
    Seq::new(rows.len(), |i: int| rows[i]@)
}

impl View for RowParser {
    type V = Seq<RowShape>;

    closed spec fn view(&self) -> Seq<RowShape> {
        row_shapes(self.row_definitions@)
    }
}

impl RowParser {
    pub fn new(row_definitions: Vec<RowDefinition>) -> (parser: Self)
        ensures
            parser@ == row_shapes(row_definitions@),
    {
        Self { row_definitions }
    }

    /// The number of row definitions.
    pub fn len(&self) -> (n: usize)
        ensures
            n == self@.len(),
    {
        self.row_definitions.len()
    }

    /// Classifies one line and reads its typed values.
    pub fn parse(&self, row: &str) -> (result: Result<ParsedRow, ParseError>)
        ensures
            result_view(result) == record_of(self@, row@),
    {
        let chars = to_chars(row);
        let mut k: usize = 0;
        while k < self.row_definitions.len()
            invariant
                k <= self.row_definitions@.len(),
                chars@ == row@,
                self@ == row_shapes(self.row_definitions@),
                classify(self@, row@) == classify_from(self@, row@, k as nat),
            decreases self.row_definitions@.len() - k,
        {
            let definition = &self.row_definitions[k];
            assert(self@[k as int] == definition@);
            match definition.parser.split(chars.as_slice()) {
                None => {},
                Some(ranges) => {
                    let values = definition.convert(row, chars.as_slice(), &ranges)?;
                    let bytes: u64 = row.as_bytes().len() as u64;
                    if bytes > u64::MAX - 2 {
                        return Err(ParseError::LineTooLong);
                    }
                    return Ok((definition.id, bytes + 2, values));
                },
            }
            k = k + 1;
        }
        Err(ParseError::RowTypeNotFound { row: row.to_owned() })
    }
}

/// Declaration order decides: where the `k`-th shape accepts a line and none
/// before it does, the line is classified as the `k`-th shape reads it.
pub proof fn lemma_first_acceptor_wins(rows: Seq<RowShape>, line: Seq<char>, k: int)
    requires
        0 <= k < rows.len(),
        rows[k].outcome(line) is Some,
        forall|j: int| 0 <= j < k ==> (#[trigger] rows[j]).outcome(line) is None,
    ensures
        classify(rows, line) == rows[k].outcome(line)->0,
{
    lemma_skip_rejecting(rows, line, k, 0);
}

proof fn lemma_skip_rejecting(rows: Seq<RowShape>, line: Seq<char>, k: int, from: int)
    requires
        0 <= from <= k < rows.len(),
        rows[k].outcome(line) is Some,
        forall|j: int| 0 <= j < k ==> (#[trigger] rows[j]).outcome(line) is None,
    ensures
        classify_from(rows, line, from as nat) == rows[k].outcome(line)->0,
    decreases k - from,
{
    if from < k {
        assert(rows[from].outcome(line) is None);
        lemma_skip_rejecting(rows, line, k, from + 1);
    }
}

/// A line that no shape accepts is a classification failure that carries the line.
pub proof fn lemma_unclassified(rows: Seq<RowShape>, line: Seq<char>)
    requires
        forall|j: int| 0 <= j < rows.len() ==> (#[trigger] rows[j]).outcome(line) is None,
    ensures
        classify(rows, line) == Err::<Classified, Failure>(
            Failure::RowTypeNotFound { row: line },
        ),
{
    lemma_all_rejecting(rows, line, 0);
}

proof fn lemma_all_rejecting(rows: Seq<RowShape>, line: Seq<char>, from: int)
    requires
        0 <= from <= rows.len(),
        forall|j: int| 0 <= j < rows.len() ==> (#[trigger] rows[j]).outcome(line) is None,
    ensures
        classify_from(rows, line, from as nat) == Err::<Classified, Failure>(
            Failure::RowTypeNotFound { row: line },
        ),
    decreases rows.len() - from,
{
    if from < rows.len() {
        assert(rows[from].outcome(line) is None);
        lemma_all_rejecting(rows, line, from + 1);
    }
}

/// Every record counts the bytes of its line in UTF-8 and two for the terminator.
pub proof fn lemma_bytes_consumed(rows: Seq<RowShape>, line: Seq<char>)
    requires
        record_of(rows, line) is Ok,
    ensures
        record_of(rows, line)->Ok_0.1 == encode_utf8(line).len() + 2,
{
}

/// An optional integer column never fails: a text that denotes a 32-bit integer
/// gives that integer, every other text gives the absent value.
pub proof fn lemma_optional_integer_never_fails(text: Seq<char>)
    ensures
        coerce(ExpectedType::OptionInteger32, text) is Some,
        i32_value(text) is None ==> coerce(ExpectedType::OptionInteger32, text) == Some(
            TypedValue::OptionInteger32(None),
        ),
        i32_value(text) matches Some(v) ==> coerce(ExpectedType::OptionInteger32, text) == Some(
            TypedValue::OptionInteger32(Some(v)),
        ),
{
}

/// The `k`-th value of a row as a 32-bit integer.
pub open spec fn read_i32(values: Seq<TypedValue>, k: int) -> Result<i32, Failure> {
    if !(0 <= k < values.len()) {
        Err(Failure::MissingValue)
    } else {
        match values[k] {
            TypedValue::Integer32(v) => Ok(v),
            _ => Err(Failure::VariantMismatch),
        }
    }
}

/// The `k`-th value of a row as a 16-bit integer.
pub open spec fn read_i16(values: Seq<TypedValue>, k: int) -> Result<i16, Failure> {
    if !(0 <= k < values.len()) {
        Err(Failure::MissingValue)
    } else {
        match values[k] {
            TypedValue::Integer16(v) => Ok(v),
            _ => Err(Failure::VariantMismatch),
        }
    }
}

/// The `k`-th value of a row as an optional 32-bit integer.
pub open spec fn read_option_i32(values: Seq<TypedValue>, k: int) -> Result<Option<i32>, Failure> {
    if !(0 <= k < values.len()) {
        Err(Failure::MissingValue)
    } else {
        match values[k] {
            TypedValue::OptionInteger32(v) => Ok(v),
            _ => Err(Failure::VariantMismatch),
        }
    }
}

/// The `k`-th value of a row as a text.
pub open spec fn read_text(values: Seq<TypedValue>, k: int) -> Result<Seq<char>, Failure> {
    if !(0 <= k < values.len()) {
        Err(Failure::MissingValue)
    } else {
        match values[k] {
            TypedValue::String(text) => Ok(text),
            _ => Err(Failure::VariantMismatch),
        }
    }
}

/// The `k`-th value of a row as the decimal text of a real number.
pub open spec fn read_float_text(values: Seq<TypedValue>, k: int) -> Result<Seq<char>, Failure> {
    if !(0 <= k < values.len()) {
        Err(Failure::MissingValue)
    } else {
        match values[k] {
            TypedValue::Float(text) => Ok(text),
            _ => Err(Failure::VariantMismatch),
        }
    }
}

/// Reads the `k`-th value of a row as a 32-bit integer.
pub fn value_i32(values: &Vec<ParsedValue>, k: usize) -> (result: Result<i32, ParseError>)
    ensures
        match result {
            Ok(v) => read_i32(value_views(values@), k as int) == Ok::<i32, Failure>(v),
            Err(e) => read_i32(value_views(values@), k as int) == Err::<i32, Failure>(e@),
        },
{
    if k >= values.len() {
        return Err(ParseError::MissingValue);
    }
    match &values[k] {
        ParsedValue::Integer32(v) => Ok(*v),
        _ => Err(ParseError::VariantMismatch),
    }
}

/// Reads the `k`-th value of a row as a 16-bit integer.
pub fn value_i16(values: &Vec<ParsedValue>, k: usize) -> (result: Result<i16, ParseError>)
    ensures
        match result {
            Ok(v) => read_i16(value_views(values@), k as int) == Ok::<i16, Failure>(v),
            Err(e) => read_i16(value_views(values@), k as int) == Err::<i16, Failure>(e@),
        },
{
    if k >= values.len() {
        return Err(ParseError::MissingValue);
    }
    match &values[k] {
        ParsedValue::Integer16(v) => Ok(*v),
        _ => Err(ParseError::VariantMismatch),
    }
}

/// Reads the `k`-th value of a row as an optional 32-bit integer.
pub fn value_option_i32(values: &Vec<ParsedValue>, k: usize) -> (result: Result<
    Option<i32>,
    ParseError,
>)
    ensures
        match result {
            Ok(v) => read_option_i32(value_views(values@), k as int) == Ok::<Option<i32>, Failure>(
                v,
            ),
            Err(e) => read_option_i32(value_views(values@), k as int) == Err::<
                Option<i32>,
                Failure,
            >(e@),
        },
{
    if k >= values.len() {
        return Err(ParseError::MissingValue);
    }
    match &values[k] {
        ParsedValue::OptionInteger32(v) => Ok(*v),
        _ => Err(ParseError::VariantMismatch),
    }
}

/// Reads the `k`-th value of a row as a text.
pub fn value_text(values: &Vec<ParsedValue>, k: usize) -> (result: Result<String, ParseError>)
    ensures
        match result {
            Ok(text) => read_text(value_views(values@), k as int) == Ok::<Seq<char>, Failure>(
                text@,
            ),
            Err(e) => read_text(value_views(values@), k as int) == Err::<Seq<char>, Failure>(e@),
        },
{
    if k >= values.len() {
        return Err(ParseError::MissingValue);
    }
    match &values[k] {
        ParsedValue::String(text) => Ok(text.clone()),
        _ => Err(ParseError::VariantMismatch),
    }
}

/// Reads the `k`-th value of a row as the decimal text of a real number.
pub fn value_float_text(values: &Vec<ParsedValue>, k: usize) -> (result: Result<String, ParseError>)
    ensures
        match result {
            Ok(text) => read_float_text(value_views(values@), k as int) == Ok::<
                Seq<char>,
                Failure,
            >(text@),
            Err(e) => read_float_text(value_views(values@), k as int) == Err::<
                Seq<char>,
                Failure,
            >(e@),
        },
{
    if k >= values.len() {
        return Err(ParseError::MissingValue);
    }
    match &values[k] {
        ParsedValue::Float(text) => Ok(text.clone()),
        _ => Err(ParseError::VariantMismatch),
    }
}

} // verus!
