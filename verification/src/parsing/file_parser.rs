//! The line source and the stream of classified records.
//!
//! A [`FileParser`] holds the lines of a file, read from a byte offset on, and
//! the row parser to classify them with. Its [`ParsedRowIterator`] walks the
//! lines once, skips the blank ones and hands out one record for each of the
//! others, in the order of the file.

use vstd::prelude::*;
use vstd::utf8::{decode_utf8, encode_utf8, valid_utf8};
use crate::lines::{
    all_text,
    byte_lines,
    bytes_taken,
    decoded,
    lemma_resume_after_lines,
    lemma_text_without_line_feed,
    read_lines,
    remaining,
    source_lines,
    with_lines_before,
};
use crate::parsing::{
    bytes_on_disk,
    record_of,
    value_views,
    result_view,
    Failure,
    ParseError,
    ParsedRow,
    Record,
    RowParser,
    RowShape,
};
use crate::text::{is_blank, is_blank_line, texts, to_chars};

verus! {

/// The records of a list of lines: one for each line that is not blank.
pub open spec fn records(shapes: Seq<RowShape>, lines: Seq<Seq<char>>) -> Seq<
    Result<Record, Failure>,
>
    decreases lines.len(),
{
    if lines.len() == 0 {
        Seq::empty()
    } else if is_blank(lines[0]) {
        records(shapes, lines.drop_first())
    } else {
        seq![record_of(shapes, lines[0])] + records(shapes, lines.drop_first())
    }
}

/// The lines of a file and the row parser that classifies them.
pub struct FileParser<'a> {
    rows: Vec<String>,
    row_parser: &'a RowParser,
}

/// A single forward pass over the lines of a [`FileParser`].
pub struct ParsedRowIterator<'a> {
    rows: &'a Vec<String>,
    position: usize,
    row_parser: &'a RowParser,
}

impl<'a> FileParser<'a> {
    /// The lines that the parser holds, blank ones included.
    pub closed spec fn lines(&self) -> Seq<Seq<char>> {
        texts(self.rows@)
    }

    /// The row shapes that the lines are classified with.
    pub closed spec fn shapes(&self) -> Seq<RowShape> {
        self.row_parser@
    }

    /// A parser over lines that are already at hand.
    pub fn from_rows(rows: Vec<String>, row_parser: &'a RowParser) -> (parser: Self)
        ensures
            parser.lines() == texts(rows@),
            parser.shapes() == row_parser@,
    {
        FileParser { rows, row_parser }
    }

    /// A parser over all lines of a file.
    pub fn new(content: &[u8], row_parser: &'a RowParser) -> (result: Result<Self, ParseError>)
        ensures
            match result {
                Ok(parser) => source_lines(content@, 0) == Some(parser.lines())
                    && parser.shapes() == row_parser@,
                Err(e) => source_lines(content@, 0) is None && e@ == Failure::InvalidEncoding,
            },
    {
        Self::new_with_bytes_offset(content, row_parser, 0)
    }

    /// A parser over the lines of a file from a byte offset on.
    pub fn new_with_bytes_offset(
        content: &[u8],
        row_parser: &'a RowParser,
        bytes_offset: u64,
    ) -> (result: Result<Self, ParseError>)
        ensures
            match result {
                Ok(parser) => source_lines(content@, bytes_offset as nat) == Some(parser.lines())
                    && parser.shapes() == row_parser@,
                Err(e) => source_lines(content@, bytes_offset as nat) is None && e@
                    == Failure::InvalidEncoding,
            },
    {
        match read_lines(content, bytes_offset) {
            Some(rows) => Ok(FileParser { rows, row_parser }),
            None => Err(ParseError::InvalidEncoding),
        }
    }

    /// Starts a pass over the lines.
    pub fn parse(&self) -> (iterator: ParsedRowIterator<'_>)
        ensures
            iterator.pending() == self.lines(),
            iterator.shapes() == self.shapes(),
    {
        assert(texts(self.rows@).skip(0) =~= texts(self.rows@));
        ParsedRowIterator { rows: &self.rows, position: 0, row_parser: self.row_parser }
    }
}

impl<'a> ParsedRowIterator<'a> {
    #[verifier::type_invariant]
    spec fn within(&self) -> bool {
        self.position <= self.rows@.len()
    }

    /// The lines that the pass has not read yet.
    pub closed spec fn pending(&self) -> Seq<Seq<char>> {
        texts(self.rows@).skip(self.position as int)
    }

    /// The row shapes that the lines are classified with.
    pub closed spec fn shapes(&self) -> Seq<RowShape> {
        self.row_parser@
    }

    /// The records that the pass has yet to hand out.
    pub open spec fn upcoming(&self) -> Seq<Result<Record, Failure>> {
        records(self.shapes(), self.pending())
    }

    /// Hands out the record of the next line that is not blank, or `None` once
    /// no such line is left.
    pub fn next(&mut self) -> (item: Option<Result<ParsedRow, ParseError>>)
        ensures
            final(self).shapes() == old(self).shapes(),
            match item {
                Some(result) => old(self).upcoming().len() > 0 && result_view(result) == old(
                    self,
                ).upcoming()[0] && final(self).upcoming() == old(self).upcoming().drop_first(),
                None => old(self).upcoming().len() == 0 && final(self).pending().len() == 0,
            },
    {
        proof {
            use_type_invariant(&*self);
        }
        let ghost shapes = self.shapes();
        let ghost all = texts(self.rows@);
        while self.position < self.rows.len()
            invariant
                self.position <= self.rows@.len(),
                self.rows == old(self).rows,
                self.row_parser == old(self).row_parser,
                shapes == self.row_parser@,
                all == texts(self.rows@),
                records(shapes, all.skip(self.position as int)) == records(
                    shapes,
                    all.skip(old(self).position as int),
                ),
            decreases self.rows@.len() - self.position,
        {
            let row = &self.rows[self.position];
            let chars = to_chars(row.as_str());
            let ghost here = all.skip(self.position as int);
            assert(here[0] == row@);
            assert(here.drop_first() =~= all.skip(self.position + 1));
            self.position = self.position + 1;
            if !is_blank_line(chars.as_slice()) {
                let result = self.row_parser.parse(row.as_str());
                assert(records(shapes, here) =~= seq![record_of(shapes, row@)] + records(
                    shapes,
                    here.drop_first(),
                ));
                assert((seq![record_of(shapes, row@)] + records(
                    shapes,
                    here.drop_first(),
                )).drop_first() =~= records(shapes, here.drop_first()));
                return Some(result);
            }
        }
        None
    }
}

/// A file decodes to the same records whether it is read in one pass or
/// resumed after its first lines: the records of a list of lines are those of
/// its first `n` lines, followed by those of the rest.
pub proof fn lemma_records_split(shapes: Seq<RowShape>, lines: Seq<Seq<char>>, n: int)
    requires
        0 <= n <= lines.len(),
    ensures
        records(shapes, lines) == records(shapes, lines.take(n)) + records(shapes, lines.skip(n)),
    decreases n,
{
    if n == 0 {
        assert(lines.skip(0) =~= lines);
        assert(records(shapes, lines.take(0)) =~= Seq::empty());
        assert(Seq::<Result<Record, Failure>>::empty() + records(shapes, lines) =~= records(
            shapes,
            lines,
        ));
    } else {
        let rest = lines.drop_first();
        lemma_records_split(shapes, rest, n - 1);
        assert(rest.take(n - 1) =~= lines.take(n).drop_first());
        assert(rest.skip(n - 1) =~= lines.skip(n));
        assert(lines.take(n)[0] == lines[0]);
        if !is_blank(lines[0]) {
            assert(records(shapes, lines) =~= records(shapes, lines.take(n)) + records(
                shapes,
                lines.skip(n),
            ));
        }
    }
}

/// The UTF-8 encoding of each line.
pub open spec fn encoded(lines: Seq<Seq<char>>) -> Seq<Seq<u8>> {
    Seq::new(lines.len(), |i: int| encode_utf8(lines[i]))
}

/// The bytes that lines take in a file, terminators included: what the
/// records of these lines count as consumed, taken together.
pub open spec fn total_bytes_on_disk(lines: Seq<Seq<char>>) -> nat
    decreases lines.len(),
{
    if lines.len() == 0 {
        0
    } else {
        bytes_on_disk(lines[0]) + total_bytes_on_disk(lines.drop_first())
    }
}

/// The record of each line, blank or not.
pub open spec fn record_of_each(shapes: Seq<RowShape>, lines: Seq<Seq<char>>) -> Seq<
    Result<Record, Failure>,
> {
    Seq::new(lines.len(), |i: int| record_of(shapes, lines[i]))
}

/// Resuming a file at the byte offset that the records of its first lines
/// have counted yields the lines, and so the records, that follow those first
/// lines in a read of the whole file. This holds where none of these first
/// lines is blank or holds a line feed, and each ends with a carriage return
/// and a line feed. Where what follows them is no text, neither read yields
/// anything.
pub proof fn lemma_resumed_read(shapes: Seq<RowShape>, head: Seq<Seq<char>>, tail: Seq<u8>)
    requires
        forall|i: int, j: int|
            0 <= i < head.len() && 0 <= j < head[i].len() ==> (#[trigger] head[i][j]) != '\n',
        forall|i: int| 0 <= i < head.len() ==> !is_blank(#[trigger] head[i]),
    ensures
        ({
            let file = with_lines_before(encoded(head), tail);
            let offset = total_bytes_on_disk(head);
            &&& source_lines(file, offset) == source_lines(tail, 0)
            &&& source_lines(file, 0) == match source_lines(tail, 0) {
                Some(rest) => Some(head + rest),
                None => None,
            }
            &&& source_lines(tail, 0) matches Some(rest) ==> records(shapes, head + rest)
                == record_of_each(shapes, head) + records(shapes, rest)
        }),
{
    let file = with_lines_before(encoded(head), tail);
    let offset = total_bytes_on_disk(head);
    assert forall|i: int| 0 <= i < encoded(head).len() implies crate::lines::no_line_feed(
        #[trigger] encoded(head)[i],
    ) by {
        assert forall|j: int| 0 <= j < head[i].len() implies head[i][j] != '\n' by {
            assert(head[i][j] != '\n');
        }
        lemma_text_without_line_feed(head[i]);
    }
    lemma_resume_after_lines(encoded(head), tail);
    lemma_bytes_of_encoded(head);
    crate::lines::lemma_file_is_text_iff_lines_are(tail);
    crate::lines::lemma_file_is_text_iff_lines_are(file);
    assert(remaining(tail, 0) =~= tail);
    assert(remaining(file, 0) =~= file);
    let all = byte_lines(file);
    assert(all == encoded(head) + byte_lines(tail));
    if all_text(all) {
        assert forall|i: int| 0 <= i < byte_lines(tail).len() implies valid_utf8(
            #[trigger] byte_lines(tail)[i],
        ) by {
            assert(all[i + head.len()] == byte_lines(tail)[i]);
        }
    }
    if valid_utf8(tail) {
        let rest = source_lines(tail, 0)->0;
        assert(all_text(all)) by {
            assert forall|i: int| 0 <= i < all.len() implies valid_utf8(#[trigger] all[i]) by {
                if i < head.len() {
                    vstd::utf8::encode_utf8_valid_utf8(head[i]);
                    assert(all[i] == encode_utf8(head[i]));
                } else {
                    assert(all[i] == byte_lines(tail)[i - head.len()]);
                }
            }
        }
        assert(decoded(all) =~= head + rest) by {
            assert forall|i: int| 0 <= i < all.len() implies decoded(all)[i] == (head + rest)[i] by {
                if i < head.len() {
                    vstd::utf8::encode_utf8_decode_utf8(head[i]);
                    assert(all[i] == encode_utf8(head[i]));
                } else {
                    assert(all[i] == byte_lines(tail)[i - head.len()]);
                    assert(rest[i - head.len()] == decode_utf8(byte_lines(tail)[i - head.len()]));
                }
            }
        }
        lemma_records_split(shapes, head + rest, head.len() as int);
        assert((head + rest).take(head.len() as int) =~= head);
        assert((head + rest).skip(head.len() as int) =~= rest);
        lemma_records_without_blanks(shapes, head);
    }
}

/// The bytes that the encoded lines take are the bytes that their records count.
pub proof fn lemma_bytes_of_encoded(lines: Seq<Seq<char>>)
    ensures
        bytes_taken(encoded(lines)) == total_bytes_on_disk(lines),
    decreases lines.len(),
{
    if lines.len() > 0 {
        lemma_bytes_of_encoded(lines.drop_first());
        assert(encoded(lines).drop_first() =~= encoded(lines.drop_first()));
    }
}

/// Where no line is blank, every line has its record.
pub proof fn lemma_records_without_blanks(shapes: Seq<RowShape>, lines: Seq<Seq<char>>)
    requires
        forall|i: int| 0 <= i < lines.len() ==> !is_blank(#[trigger] lines[i]),
    ensures
        records(shapes, lines) == record_of_each(shapes, lines),
    decreases lines.len(),
{
    if lines.len() > 0 {
        let rest = lines.drop_first();
        assert forall|i: int| 0 <= i < rest.len() implies !is_blank(#[trigger] rest[i]) by {
            assert(rest[i] == lines[i + 1]);
        }
        lemma_records_without_blanks(shapes, rest);
        assert(!is_blank(lines[0]));
        assert(seq![record_of(shapes, lines[0])] + record_of_each(shapes, rest) =~= record_of_each(
            shapes,
            lines,
        ));
    } else {
        assert(records(shapes, lines) =~= record_of_each(shapes, lines));
    }
}

/// What a classified row holds.
pub open spec fn row_view(row: ParsedRow) -> Record {
    (row.0, row.1, value_views(row.2@))
}

/// A decoder's accumulator: it takes the records of a file one by one, and
/// each record changes what it has accumulated or makes it fail.
pub trait RecordSink {
    /// What the accumulator holds, as mathematics.
    type State;

    /// What the accumulator holds.
    spec fn state(&self) -> Self::State;

    /// What a record makes of an accumulated state.
    spec fn step(state: Self::State, record: Record) -> Result<Self::State, Failure>;

    /// Takes one record.
    fn accept(&mut self, row: ParsedRow) -> (result: Result<(), ParseError>)
        ensures
            match result {
                Ok(()) => Self::step(old(self).state(), row_view(row)) == Ok::<
                    Self::State,
                    Failure,
                >(final(self).state()),
                Err(e) => Self::step(old(self).state(), row_view(row)) == Err::<
                    Self::State,
                    Failure,
                >(e@),
            },
    ;
}

/// The state of an accumulator after the first `k` records of a stream. The
/// first record that cannot be classified, or that the accumulator refuses,
/// decides the failure.
pub open spec fn folded<S: RecordSink>(
    records: Seq<Result<Record, Failure>>,
    start: S::State,
    k: nat,
) -> Result<S::State, Failure>
    decreases k,
{
    if k == 0 {
        Ok(start)
    } else {
        match folded::<S>(records, start, (k - 1) as nat) {
            Err(failure) => Err(failure),
            Ok(state) => match records[k - 1] {
                Err(failure) => Err(failure),
                Ok(record) => S::step(state, record),
            },
        }
    }
}

/// The state of an accumulator after all records of a stream.
pub open spec fn folded_all<S: RecordSink>(
    records: Seq<Result<Record, Failure>>,
    start: S::State,
) -> Result<S::State, Failure> {
    folded::<S>(records, start, records.len())
}

/// Once a record has failed, the records after it do not change the failure.
pub proof fn lemma_fold_failure_is_final<S: RecordSink>(
    records: Seq<Result<Record, Failure>>,
    start: S::State,
    k: nat,
    m: nat,
)
    requires
        folded::<S>(records, start, k) is Err,
        m >= k,
    ensures
        folded::<S>(records, start, m) == folded::<S>(records, start, k),
    decreases m,
{
    if m > k {
        lemma_fold_failure_is_final::<S>(records, start, k, (m - 1) as nat);
    }
}

/// Hands every record of a pass over a file to an accumulator, in order, and
/// stops at the first failure.
pub fn feed<S: RecordSink>(parser: &FileParser, sink: &mut S) -> (result: Result<(), ParseError>)
    ensures
        match result {
            Ok(()) => folded_all::<S>(
                records(parser.shapes(), parser.lines()),
                old(sink).state(),
            ) == Ok::<S::State, Failure>(final(sink).state()),
            Err(e) => folded_all::<S>(
                records(parser.shapes(), parser.lines()),
                old(sink).state(),
            ) == Err::<S::State, Failure>(e@),
        },
{
    let mut stream = parser.parse();
    let ghost all = stream.upcoming();
    let ghost start = sink.state();
    let ghost mut k: nat = 0;
    assert(all.skip(0) =~= all);
    loop
        invariant
            k <= all.len(),
            all == records(parser.shapes(), parser.lines()),
            start == old(sink).state(),
            stream.upcoming() == all.skip(k as int),
            folded::<S>(all, start, k) == Ok::<S::State, Failure>(sink.state()),
        decreases all.len() - k,
    {
        match stream.next() {
            None => {
                return Ok(());
            },
            Some(Err(e)) => {
                proof {
                    assert(all.skip(k as int)[0] == all[k as int]);
                    assert(folded::<S>(all, start, k + 1) is Err);
                    lemma_fold_failure_is_final::<S>(all, start, k + 1, all.len());
                }
                return Err(e);
            },
            Some(Ok(row)) => {
                proof {
                    assert(all.skip(k as int)[0] == all[k as int]);
                    assert(all.skip(k as int).drop_first() =~= all.skip(k + 1 as int));
                }
                match sink.accept(row) {
                    Ok(()) => {},
                    Err(e) => {
                        proof {
                            assert(folded::<S>(all, start, k + 1) is Err);
                            lemma_fold_failure_is_final::<S>(all, start, k + 1, all.len());
                        }
                        return Err(e);
                    },
                }
                proof {
                    k = k + 1;
                }
            },
        }
    }
}

/// What the content of a file, read from a byte offset on, makes of an
/// accumulated state.
pub open spec fn decoded_file<S: RecordSink>(
    shapes: Seq<RowShape>,
    content: Seq<u8>,
    offset: nat,
    start: S::State,
) -> Result<S::State, Failure> {
    match source_lines(content, offset) {
        None => Err(Failure::InvalidEncoding),
        Some(lines) => folded_all::<S>(records(shapes, lines), start),
    }
}

/// Reads the content of a file from a byte offset on and hands its records to
/// an accumulator.
pub fn decode<S: RecordSink>(
    content: &[u8],
    bytes_offset: u64,
    row_parser: &RowParser,
    sink: &mut S,
) -> (result: Result<(), ParseError>)
    ensures
        match result {
            Ok(()) => decoded_file::<S>(
                row_parser@,
                content@,
                bytes_offset as nat,
                old(sink).state(),
            ) == Ok::<S::State, Failure>(final(sink).state()),
            Err(e) => decoded_file::<S>(
                row_parser@,
                content@,
                bytes_offset as nat,
                old(sink).state(),
            ) == Err::<S::State, Failure>(e@),
        },
{
    let parser = FileParser::new_with_bytes_offset(content, row_parser, bytes_offset)?;
    feed(&parser, sink)
}

} // verus!
