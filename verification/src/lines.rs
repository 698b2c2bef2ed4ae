//! The lines of a file, counted in bytes.
//!
//! A file is a sequence of bytes. A line ends with a line feed; a carriage
//! return right before that line feed belongs to the terminator. The last line
//! may lack its terminator.

use vstd::prelude::*;
use vstd::slice::slice_subrange;
use vstd::string::StringSliceAdditionalSpecFns;
use vstd::utf8::{decode_utf8, valid_utf8};
use crate::text::texts;

verus! {

/// The byte that ends a line.
pub const LINE_FEED: u8 = 0x0A;

/// The byte that may come right before the line feed.
pub const CARRIAGE_RETURN: u8 = 0x0D;

/// The number of bytes before the first line feed.
pub open spec fn line_length(bytes: Seq<u8>) -> nat
    decreases bytes.len(),
{
    if bytes.len() > 0 && bytes[0] != LINE_FEED {
        1 + line_length(bytes.drop_first())
    } else {
        0
    }
}

/// A line without the carriage return that it ends with, if it ends with one.
pub open spec fn without_carriage_return(line: Seq<u8>) -> Seq<u8> {
    if line.len() > 0 && line.last() == CARRIAGE_RETURN {
        line.drop_last()
    } else {
        line
    }
}

/// The first line of a file that is not empty, without its terminator.
pub open spec fn first_line(bytes: Seq<u8>) -> Seq<u8> {
    let n = line_length(bytes);
    if n < bytes.len() {
        without_carriage_return(bytes.take(n as int))
    } else {
        bytes
    }
}

/// What follows the first line and its terminator.
pub open spec fn after_first_line(bytes: Seq<u8>) -> Seq<u8> {
    let n = line_length(bytes);
    if n < bytes.len() {
        bytes.skip(n + 1 as int)
    } else {
        Seq::empty()
    }
}

/// The lines of a file, without their terminators.
pub open spec fn byte_lines(bytes: Seq<u8>) -> Seq<Seq<u8>>
    decreases bytes.len(),
{
    if bytes.len() == 0 {
        Seq::empty()
    } else {
        seq![first_line(bytes)] + byte_lines(after_first_line(bytes))
    }
}

/// What is left of a file from a byte offset on. An offset beyond the end
/// leaves nothing.
pub open spec fn remaining(bytes: Seq<u8>, offset: nat) -> Seq<u8> {
    if offset >= bytes.len() {
        Seq::empty()
    } else {
        bytes.skip(offset as int)
    }
}

/// Whether every line is well-formed UTF-8.
pub open spec fn all_text(lines: Seq<Seq<u8>>) -> bool {
    forall|i: int| 0 <= i < lines.len() ==> valid_utf8(#[trigger] lines[i])
}

/// The text that each line encodes.
pub open spec fn decoded(lines: Seq<Seq<u8>>) -> Seq<Seq<char>> {
    Seq::new(lines.len(), |i: int| decode_utf8(lines[i]))
}

/// The lines of text that a file holds from a byte offset on, or `None` where
/// what the file holds from there on is not well-formed UTF-8.
pub open spec fn source_lines(bytes: Seq<u8>, offset: nat) -> Option<Seq<Seq<char>>> {
    let rest = remaining(bytes, offset);
    if valid_utf8(rest) {
        Some(decoded(byte_lines(rest)))
    } else {
        None
    }
}

/// The first line ends at a line feed or at the end of the file.
pub proof fn lemma_line_length_bound(bytes: Seq<u8>)
    ensures
        line_length(bytes) <= bytes.len(),
        line_length(bytes) < bytes.len() ==> bytes[line_length(bytes) as int] == LINE_FEED,
    decreases bytes.len(),
{
    if bytes.len() > 0 && bytes[0] != LINE_FEED {
        lemma_line_length_bound(bytes.drop_first());
    }
}

proof fn lemma_low_bits_are_no_surrogate(byte: u8)
    by (bit_vector)
    requires
        byte <= 0x7f,
    ensures
        (byte & 0x7F) as u32 <= 0x7f,
{
}

/// A single byte below 128 is well-formed UTF-8.
pub proof fn lemma_ascii_byte_is_text(byte: u8)
    requires
        byte <= 0x7f,
    ensures
        valid_utf8(seq![byte]),
{
    let bytes = seq![byte];
    lemma_low_bits_are_no_surrogate(byte);
    assert(bytes[0] == byte);
    assert(vstd::utf8::valid_first_scalar(bytes));
    assert(vstd::utf8::pop_first_scalar(bytes) =~= Seq::<u8>::empty());
    reveal_with_fuel(vstd::utf8::valid_utf8, 2);
}

/// Well-formed UTF-8 can be cut at a byte below 128: what comes before the
/// byte and what comes after it are well-formed too.
pub proof fn lemma_cut_at_ascii_byte(bytes: Seq<u8>, i: int)
    requires
        valid_utf8(bytes),
        0 <= i < bytes.len(),
        bytes[i] <= 0x7f,
    ensures
        valid_utf8(bytes.take(i)),
        valid_utf8(bytes.skip(i + 1)),
{
    vstd::utf8::is_char_boundary_iff_not_is_continuation_byte(bytes, i);
    vstd::utf8::valid_utf8_split(bytes, i);
    let tail = bytes.subrange(i, bytes.len() as int);
    assert(tail[0] == bytes[i]);
    assert(vstd::utf8::pop_first_scalar(tail) =~= bytes.skip(i + 1));
    assert(bytes.subrange(0, i) =~= bytes.take(i));
}

/// A line without its carriage return is well-formed where the line is.
pub proof fn lemma_without_carriage_return_is_text(line: Seq<u8>)
    requires
        valid_utf8(line),
    ensures
        valid_utf8(without_carriage_return(line)),
{
    if line.len() > 0 && line.last() == CARRIAGE_RETURN {
        lemma_cut_at_ascii_byte(line, line.len() - 1);
        assert(line.take(line.len() - 1) =~= line.drop_last());
    }
}

/// A file is well-formed UTF-8 exactly when each of its lines is.
pub proof fn lemma_file_is_text_iff_lines_are(bytes: Seq<u8>)
    ensures
        valid_utf8(bytes) <==> all_text(byte_lines(bytes)),
    decreases bytes.len(),
{
    if bytes.len() > 0 {
        lemma_line_length_bound(bytes);
        let n = line_length(bytes) as int;
        if n < bytes.len() {
            let head = bytes.take(n);
            let line = first_line(bytes);
            let rest = after_first_line(bytes);
            lemma_file_is_text_iff_lines_are(rest);
            let lines = byte_lines(bytes);
            assert(lines[0] == line);
            assert(lines.drop_first() =~= byte_lines(rest));
            if valid_utf8(bytes) {
                lemma_cut_at_ascii_byte(bytes, n);
                lemma_without_carriage_return_is_text(head);
                assert forall|i: int| 0 <= i < lines.len() implies valid_utf8(
                    #[trigger] lines[i],
                ) by {
                    if i > 0 {
                        assert(lines[i] == byte_lines(rest)[i - 1]);
                    }
                }
            }
            if all_text(lines) {
                assert(valid_utf8(line));
                assert(all_text(byte_lines(rest))) by {
                    assert forall|i: int| 0 <= i < byte_lines(rest).len() implies valid_utf8(
                        #[trigger] byte_lines(rest)[i],
                    ) by {
                        assert(byte_lines(rest)[i] == lines[i + 1]);
                    }
                }
                lemma_ascii_byte_is_text(LINE_FEED);
                lemma_ascii_byte_is_text(CARRIAGE_RETURN);
                vstd::utf8::valid_utf8_concat(seq![LINE_FEED], rest);
                if head.len() > 0 && head.last() == CARRIAGE_RETURN {
                    vstd::utf8::valid_utf8_concat(seq![CARRIAGE_RETURN], seq![LINE_FEED] + rest);
                    vstd::utf8::valid_utf8_concat(
                        line,
                        seq![CARRIAGE_RETURN] + (seq![LINE_FEED] + rest),
                    );
                    assert(line + (seq![CARRIAGE_RETURN] + (seq![LINE_FEED] + rest)) =~= bytes);
                } else {
                    vstd::utf8::valid_utf8_concat(line, seq![LINE_FEED] + rest);
                    assert(line + (seq![LINE_FEED] + rest) =~= bytes);
                }
            }
        } else {
            assert(first_line(bytes) == bytes);
            assert(byte_lines(after_first_line(bytes)) =~= Seq::<Seq<u8>>::empty());
            assert(byte_lines(bytes) =~= seq![bytes]);
            assert(byte_lines(bytes)[0] == bytes);
        }
    } else {
        reveal_with_fuel(vstd::utf8::valid_utf8, 1);
    }
}

/// Finds the end of the line that starts at `start`.
pub fn find_line_end(bytes: &[u8], start: usize) -> (end: usize)
    requires
        start <= bytes@.len(),
    ensures
        start <= end <= bytes@.len(),
        end - start == line_length(bytes@.skip(start as int)),
{
    let mut i: usize = start;
    while i < bytes.len() && bytes[i] != LINE_FEED
        invariant
            start <= i <= bytes@.len(),
            line_length(bytes@.skip(start as int)) == (i - start) + line_length(
                bytes@.skip(i as int),
            ),
        decreases bytes@.len() - i,
    {
        assert(bytes@.skip(i as int).drop_first() =~= bytes@.skip(i + 1));
        i = i + 1;
    }
    i
}

/// Reads bytes as text. This is `core::str::from_utf8`: it yields the text of
/// which the bytes are the UTF-8 encoding, and nothing where the bytes are not
/// well-formed UTF-8.
#[verifier::external_body]
fn utf8_text(bytes: &[u8]) -> (text: Option<&str>)
    ensures
        text is Some <==> valid_utf8(bytes@),
        text matches Some(t) ==> t.spec_bytes() == bytes@,
{
    std::str::from_utf8(bytes).ok()
}

/// Splits what a file holds from `offset` on into its lines of text.
pub fn read_lines(bytes: &[u8], offset: u64) -> (rows: Option<Vec<String>>)
    ensures
        match rows {
            Some(rows) => source_lines(bytes@, offset as nat) == Some(texts(rows@)),
            None => source_lines(bytes@, offset as nat) is None,
        },
{
    let len = bytes.len();
    let start: usize = if offset >= len as u64 {
        len
    } else {
        offset as usize
    };
    let ghost rest = remaining(bytes@, offset as nat);
    assert(rest =~= bytes@.skip(start as int));
    let mut rows: Vec<String> = Vec::new();
    let mut at: usize = start;
    let ghost mut done: Seq<Seq<u8>> = Seq::empty();
    assert(done + byte_lines(bytes@.skip(at as int)) =~= byte_lines(rest));
    assert(decoded(done) =~= texts(rows@));
    while at < len
        invariant
            start <= at <= len == bytes@.len(),
            rest == remaining(bytes@, offset as nat),
            byte_lines(rest) == done + byte_lines(bytes@.skip(at as int)),
            all_text(done),
            decoded(done) == texts(rows@),
        decreases len - at,
    {
        let ghost tail = bytes@.skip(at as int);
        let end = find_line_end(bytes, at);
        let line_end: usize = if end < len && end > at && bytes[end - 1] == CARRIAGE_RETURN {
            end - 1
        } else {
            end
        };
        let next: usize = if end < len {
            end + 1
        } else {
            end
        };
        let ghost line = bytes@.subrange(at as int, line_end as int);
        proof {
            assert(tail.take(end - at) =~= bytes@.subrange(at as int, end as int));
            assert(first_line(tail) =~= line);
            assert(after_first_line(tail) =~= bytes@.skip(next as int));
            assert(done + (seq![line] + byte_lines(bytes@.skip(next as int))) =~= done.push(line)
                + byte_lines(bytes@.skip(next as int)));
        }
        match utf8_text(slice_subrange(bytes, at, line_end)) {
            None => {
                assert(byte_lines(rest)[done.len() as int] == line);
                proof {
                    lemma_file_is_text_iff_lines_are(rest);
                }
                return None;
            },
            Some(text) => {
                let row = text.to_owned();
                let ghost before = rows@;
                rows.push(row);
                proof {
                    vstd::utf8::encode_utf8_decode_utf8(text@);
                    assert(decode_utf8(line) == row@);
                    assert(rows@.take(before.len() as int) =~= before);
                    lemma_one_more_line(done, line, before, rows@);
                    done = done.push(line);
                }
            },
        }
        at = next;
    }
    assert(byte_lines(bytes@.skip(at as int)) =~= Seq::<Seq<u8>>::empty());
    assert(byte_lines(rest) =~= done);
    proof {
        lemma_file_is_text_iff_lines_are(rest);
    }
    Some(rows)
}

proof fn lemma_one_more_line(
    done: Seq<Seq<u8>>,
    line: Seq<u8>,
    before: Seq<String>,
    after: Seq<String>,
)
    requires
        all_text(done),
        valid_utf8(line),
        decoded(done) == texts(before),
        after.len() == before.len() + 1,
        after.take(before.len() as int) == before,
        after.last()@ == decode_utf8(line),
    ensures
        all_text(done.push(line)),
        decoded(done.push(line)) == texts(after),
{
    assert forall|i: int| 0 <= i < done.push(line).len() implies valid_utf8(
        #[trigger] done.push(line)[i],
    ) by {
        if i < done.len() {
            assert(done.push(line)[i] == done[i]);
        }
    }
    assert(decoded(done).len() == before.len());
    assert forall|i: int| 0 <= i < after.len() implies decoded(done.push(line))[i] == texts(
        after,
    )[i] by {
        if i < done.len() {
            assert(done.push(line)[i] == done[i]);
            assert(after[i] == after.take(before.len() as int)[i]);
            assert(decoded(done)[i] == texts(before)[i]);
        }
    }
    assert(decoded(done.push(line)) =~= texts(after));
}

/// Whether a line holds no line feed.
pub open spec fn no_line_feed(line: Seq<u8>) -> bool {
    forall|i: int| 0 <= i < line.len() ==> line[i] != LINE_FEED
}

/// The file that starts with the lines `head`, each followed by a carriage
/// return and a line feed, and goes on with `tail`.
pub open spec fn with_lines_before(head: Seq<Seq<u8>>, tail: Seq<u8>) -> Seq<u8>
    decreases head.len(),
{
    if head.len() == 0 {
        tail
    } else {
        head[0] + seq![CARRIAGE_RETURN, LINE_FEED] + with_lines_before(head.drop_first(), tail)
    }
}

/// The bytes that lines take in a file, two for each terminator included.
pub open spec fn bytes_taken(lines: Seq<Seq<u8>>) -> nat
    decreases lines.len(),
{
    if lines.len() == 0 {
        0
    } else {
        lines[0].len() + 2 + bytes_taken(lines.drop_first())
    }
}

/// A file that starts with a line without line feed, a carriage return and a
/// line feed has that line as its first line.
pub proof fn lemma_first_line_before(line: Seq<u8>, rest: Seq<u8>)
    requires
        no_line_feed(line),
    ensures
        first_line(line + seq![CARRIAGE_RETURN, LINE_FEED] + rest) == line,
        after_first_line(line + seq![CARRIAGE_RETURN, LINE_FEED] + rest) == rest,
        (line + seq![CARRIAGE_RETURN, LINE_FEED] + rest).len() == line.len() + 2 + rest.len(),
{
    let file = line + seq![CARRIAGE_RETURN, LINE_FEED] + rest;
    let n = line.len() as int;
    assert forall|i: int| 0 <= i < n + 1 implies file[i] != LINE_FEED by {
        if i < n {
            assert(file[i] == line[i]);
        }
    }
    assert(file[n + 1] == LINE_FEED);
    lemma_line_length_prefix(file, n + 1);
    assert(file.take(n + 1) =~= line.push(CARRIAGE_RETURN));
    assert(line.push(CARRIAGE_RETURN).drop_last() =~= line);
    assert(file.skip(n + 2) =~= rest);
}

/// Reading a file from the byte offset that its first lines take leaves what
/// follows those lines, and the lines of the whole file are those first lines
/// followed by the lines of what is left.
pub proof fn lemma_resume_after_lines(head: Seq<Seq<u8>>, tail: Seq<u8>)
    requires
        forall|i: int| 0 <= i < head.len() ==> no_line_feed(#[trigger] head[i]),
    ensures
        with_lines_before(head, tail).len() == bytes_taken(head) + tail.len(),
        remaining(with_lines_before(head, tail), bytes_taken(head)) == tail,
        byte_lines(with_lines_before(head, tail)) == head + byte_lines(tail),
    decreases head.len(),
{
    let file = with_lines_before(head, tail);
    if head.len() == 0 {
        assert(file.skip(0) =~= file);
        assert(remaining(file, 0) =~= tail);
        assert(head + byte_lines(tail) =~= byte_lines(tail));
    } else {
        let line = head[0];
        let others = head.drop_first();
        let rest = with_lines_before(others, tail);
        assert forall|i: int| 0 <= i < others.len() implies no_line_feed(#[trigger] others[i]) by {
            assert(others[i] == head[i + 1]);
        }
        lemma_resume_after_lines(others, tail);
        assert(no_line_feed(line));
        lemma_first_line_before(line, rest);
        assert(byte_lines(file) == seq![line] + byte_lines(rest));
        assert(seq![line] + (others + byte_lines(tail)) =~= head + byte_lines(tail));
        assert(remaining(file, bytes_taken(head)) =~= tail) by {
            if bytes_taken(head) < file.len() {
                assert(file.skip(bytes_taken(head) as int) =~= rest.skip(
                    bytes_taken(others) as int,
                ));
            }
        }
    }
}

/// Where the first `n` bytes hold no line feed and the next byte is one, the
/// first line is `n` bytes long.
pub proof fn lemma_line_length_prefix(bytes: Seq<u8>, n: int)
    requires
        0 <= n < bytes.len(),
        forall|i: int| 0 <= i < n ==> bytes[i] != LINE_FEED,
        bytes[n] == LINE_FEED,
    ensures
        line_length(bytes) == n,
    decreases n,
{
    if n > 0 {
        let rest = bytes.drop_first();
        assert forall|i: int| 0 <= i < n - 1 implies rest[i] != LINE_FEED by {
            assert(rest[i] == bytes[i + 1]);
        }
        lemma_line_length_prefix(rest, n - 1);
    }
}

proof fn lemma_low_byte_is_no_line_feed(scalar: u32)
    by (bit_vector)
    requires
        scalar <= 0x7F,
        scalar != 0x0A,
    ensures
        (scalar & 0x7F) as u8 != 0x0Au8,
{
}

proof fn lemma_high_byte_is_no_line_feed(low: u8)
    by (bit_vector)
    ensures
        0x80u8 | low != 0x0Au8,
        0xC0u8 | low != 0x0Au8,
        0xE0u8 | low != 0x0Au8,
        0xF0u8 | low != 0x0Au8,
{
}

/// The encoding of a character other than the line feed holds no line feed.
pub proof fn lemma_scalar_without_line_feed(c: char)
    requires
        c != '\n',
    ensures
        no_line_feed(vstd::utf8::encode_scalar(c as u32)),
{
    let scalar = c as u32;
    if scalar <= 0x7F {
        lemma_low_byte_is_no_line_feed(scalar);
    }
    lemma_high_byte_is_no_line_feed(((scalar >> 6) & 0x1F) as u8);
    lemma_high_byte_is_no_line_feed(((scalar >> 12) & 0x0F) as u8);
    lemma_high_byte_is_no_line_feed(((scalar >> 18) & 0x7) as u8);
    lemma_high_byte_is_no_line_feed((scalar & 0x3F) as u8);
    lemma_high_byte_is_no_line_feed(((scalar >> 6) & 0x3F) as u8);
    lemma_high_byte_is_no_line_feed(((scalar >> 12) & 0x3F) as u8);
}

/// A text without line feed characters is encoded without line feed bytes.
pub proof fn lemma_text_without_line_feed(text: Seq<char>)
    requires
        forall|i: int| 0 <= i < text.len() ==> text[i] != '\n',
    ensures
        no_line_feed(vstd::utf8::encode_utf8(text)),
    decreases text.len(),
{
    if text.len() > 0 {
        lemma_scalar_without_line_feed(text[0]);
        assert forall|i: int| 0 <= i < text.drop_first().len() implies text.drop_first()[i]
            != '\n' by {
            assert(text.drop_first()[i] == text[i + 1]);
        }
        lemma_text_without_line_feed(text.drop_first());
    }
}

/// A line of text without the carriage return that it ends with, if it ends
/// with one.
pub open spec fn without_final_carriage_return(line: Seq<char>) -> Seq<char> {
    if line.len() > 0 && line.last() == '\r' {
        line.drop_last()
    } else {
        line
    }
}

/// The lines of a text: a line ends with a line feed, a carriage return right
/// before that line feed belongs to the terminator, and the last line may
/// lack its terminator.
pub open spec fn text_lines(text: Seq<char>) -> Seq<Seq<char>>
    decreases text.len(),
    via text_lines_decreases
{
    if text.len() == 0 {
        Seq::empty()
    } else {
        let n = crate::text::leading_until(text, '\n');
        if n < text.len() {
            seq![without_final_carriage_return(text.take(n as int))] + text_lines(
                text.skip(n + 1 as int),
            )
        } else {
            seq![text]
        }
    }
}

#[via_fn]
proof fn text_lines_decreases(text: Seq<char>) {
    crate::text::lemma_leading_until_bound(text, '\n');
}

/// The UTF-8 encoding of each line.
pub open spec fn encoded_lines(lines: Seq<Seq<char>>) -> Seq<Seq<u8>> {
    Seq::new(lines.len(), |i: int| vstd::utf8::encode_utf8(lines[i]))
}

/// A text of two parts is encoded part by part.
pub proof fn lemma_encoding_of_parts(first: Seq<char>, second: Seq<char>)
    ensures
        vstd::utf8::encode_utf8(first + second) == vstd::utf8::encode_utf8(first)
            + vstd::utf8::encode_utf8(second),
    decreases first.len(),
{
    if first.len() == 0 {
        assert(first + second =~= second);
        assert(vstd::utf8::encode_utf8(first) + vstd::utf8::encode_utf8(second)
            =~= vstd::utf8::encode_utf8(second));
    } else {
        lemma_encoding_of_parts(first.drop_first(), second);
        assert((first + second).drop_first() =~= first.drop_first() + second);
        assert((first + second)[0] == first[0]);
        assert(vstd::utf8::encode_scalar(first[0] as u32) + (vstd::utf8::encode_utf8(
            first.drop_first(),
        ) + vstd::utf8::encode_utf8(second)) =~= vstd::utf8::encode_utf8(first)
            + vstd::utf8::encode_utf8(second));
    }
}

proof fn lemma_low_byte_is_itself(scalar: u32)
    by (bit_vector)
    requires
        scalar <= 0x7F,
    ensures
        (scalar & 0x7F) as u8 == scalar as u8,
{
}

proof fn lemma_high_byte_is_no_carriage_return(low: u8)
    by (bit_vector)
    ensures
        0x80u8 | low != 0x0Du8,
{
}

/// The encoding of a character ends with a carriage return byte exactly when
/// the character is the carriage return; it is never empty.
pub proof fn lemma_last_byte_of_scalar(c: char)
    ensures
        vstd::utf8::encode_scalar(c as u32).len() >= 1,
        (vstd::utf8::encode_scalar(c as u32).last() == CARRIAGE_RETURN) == (c == '\r'),
        c == '\r' ==> vstd::utf8::encode_scalar(c as u32) == seq![CARRIAGE_RETURN],
        c == '\n' ==> vstd::utf8::encode_scalar(c as u32) == seq![LINE_FEED],
{
    let scalar = c as u32;
    if scalar <= 0x7F {
        lemma_low_byte_is_itself(scalar);
    }
    lemma_high_byte_is_no_carriage_return((scalar & 0x3F) as u8);
    if c == '\r' {
        assert(vstd::utf8::encode_scalar(scalar) =~= seq![CARRIAGE_RETURN]);
    }
    if c == '\n' {
        assert(vstd::utf8::encode_scalar(scalar) =~= seq![LINE_FEED]);
    }
}

/// The encoding of a text ends with a carriage return byte exactly when the
/// text ends with a carriage return, and dropping the one drops the other.
pub proof fn lemma_final_carriage_return(line: Seq<char>)
    ensures
        without_carriage_return(vstd::utf8::encode_utf8(line)) == vstd::utf8::encode_utf8(
            without_final_carriage_return(line),
        ),
        line.len() > 0 ==> vstd::utf8::encode_utf8(line).len() > 0,
{
    if line.len() > 0 {
        let front = line.drop_last();
        let last = seq![line.last()];
        assert(front + last =~= line);
        lemma_encoding_of_parts(front, last);
        lemma_last_byte_of_scalar(line.last());
        assert(last.drop_first() =~= Seq::<char>::empty());
        assert(vstd::utf8::encode_utf8(last) =~= vstd::utf8::encode_scalar(line.last() as u32)) by {
            reveal_with_fuel(vstd::utf8::encode_utf8, 2);
        }
        let bytes = vstd::utf8::encode_utf8(line);
        assert(bytes.last() == vstd::utf8::encode_scalar(line.last() as u32).last());
        if line.last() == '\r' {
            assert(bytes.drop_last() =~= vstd::utf8::encode_utf8(front));
        }
    }
}

/// The lines of an encoded text are the encoded lines of the text.
pub proof fn lemma_lines_of_encoded_text(text: Seq<char>)
    ensures
        byte_lines(vstd::utf8::encode_utf8(text)) == encoded_lines(text_lines(text)),
    decreases text.len(),
{
    let bytes = vstd::utf8::encode_utf8(text);
    if text.len() == 0 {
        assert(byte_lines(bytes) =~= encoded_lines(text_lines(text)));
    } else {
        crate::text::lemma_leading_until_bound(text, '\n');
        let n = crate::text::leading_until(text, '\n') as int;
        let head = text.take(n);
        lemma_head_has_no_line_feed(text);
        lemma_text_without_line_feed(head);
        lemma_final_carriage_return(text);
        if n < text.len() {
            let rest = text.skip(n + 1);
            lemma_first_line_feed(text);
            assert(head + (seq!['\n'] + rest) =~= text);
            lemma_encoding_of_parts(head, seq!['\n'] + rest);
            lemma_encoding_of_parts(seq!['\n'], rest);
            lemma_last_byte_of_scalar('\n');
            assert(vstd::utf8::encode_utf8(seq!['\n']) =~= seq![LINE_FEED]) by {
                reveal_with_fuel(vstd::utf8::encode_utf8, 2);
                assert(seq!['\n'].drop_first() =~= Seq::<char>::empty());
            }
            let first = vstd::utf8::encode_utf8(head);
            let after = vstd::utf8::encode_utf8(rest);
            assert(bytes =~= first + (seq![LINE_FEED] + after));
            assert forall|i: int| 0 <= i < first.len() implies bytes[i] != LINE_FEED by {
                assert(bytes[i] == first[i]);
            }
            assert(bytes[first.len() as int] == LINE_FEED);
            lemma_line_length_prefix(bytes, first.len() as int);
            assert(bytes.take(first.len() as int) =~= first);
            assert(bytes.skip(first.len() + 1 as int) =~= after);
            lemma_final_carriage_return(head);
            lemma_lines_of_encoded_text(rest);
            assert(byte_lines(bytes) =~= encoded_lines(text_lines(text)));
        } else {
            assert(head =~= text);
            lemma_whole_is_one_line(bytes);
            assert(byte_lines(bytes) =~= encoded_lines(text_lines(text)));
        }
    }
}

/// The characters before the first line feed are no line feeds.
pub proof fn lemma_head_has_no_line_feed(text: Seq<char>)
    ensures
        forall|i: int|
            0 <= i < crate::text::leading_until(text, '\n') ==> text.take(
                crate::text::leading_until(text, '\n') as int,
            )[i] != '\n',
    decreases text.len(),
{
    crate::text::lemma_leading_until_bound(text, '\n');
    if text.len() > 0 && text[0] != '\n' {
        let rest = text.drop_first();
        lemma_head_has_no_line_feed(rest);
        crate::text::lemma_leading_until_bound(rest, '\n');
        let n = crate::text::leading_until(text, '\n') as int;
        assert forall|i: int| 0 <= i < n implies text.take(n)[i] != '\n' by {
            if i > 0 {
                assert(text.take(n)[i] == rest.take(n - 1)[i - 1]);
            }
        }
    }
}

/// The character at the place where the leading characters end is a line
/// feed, if there is a character.
pub proof fn lemma_first_line_feed(text: Seq<char>)
    ensures
        crate::text::leading_until(text, '\n') < text.len() ==> text[crate::text::leading_until(
            text,
            '\n',
        ) as int] == '\n',
    decreases text.len(),
{
    if text.len() > 0 && text[0] != '\n' {
        lemma_first_line_feed(text.drop_first());
    }
}

/// A file without line feed that is not empty is one line.
pub proof fn lemma_whole_is_one_line(bytes: Seq<u8>)
    requires
        bytes.len() > 0,
        no_line_feed(bytes),
    ensures
        byte_lines(bytes) == seq![bytes],
{
    lemma_line_length_bound(bytes);
    assert(line_length(bytes) == bytes.len());
    assert(first_line(bytes) == bytes);
    assert(byte_lines(after_first_line(bytes)) =~= Seq::<Seq<u8>>::empty());
    assert(byte_lines(bytes) =~= seq![bytes]);
}

/// The lines that a file holds are the lines of the text that it encodes.
pub proof fn lemma_source_lines_are_text_lines(bytes: Seq<u8>)
    requires
        valid_utf8(bytes),
    ensures
        source_lines(bytes, 0) == Some(text_lines(decode_utf8(bytes))),
{
    let text = decode_utf8(bytes);
    vstd::utf8::decode_utf8_encode_utf8(bytes);
    lemma_lines_of_encoded_text(text);
    assert(remaining(bytes, 0) =~= bytes);
    let lines = text_lines(text);
    assert(decoded(encoded_lines(lines)) =~= lines) by {
        assert forall|i: int| 0 <= i < lines.len() implies decoded(encoded_lines(lines))[i]
            == lines[i] by {
            vstd::utf8::encode_utf8_decode_utf8(lines[i]);
        }
    }
}

} // verus!
