//! Row grammars: the shape of one physical line, written down as data.
//!
//! A grammar is a list of steps that are matched one after the other from the
//! start of the line. Each step consumes some characters; the steps marked as
//! captures hand the characters they consumed to the caller, in order. What is
//! left of the line after the last step is ignored.

use vstd::prelude::*;
use crate::text::{
    cut,
    leading_digits,
    leading_until,
    ranges_within,
    skip_digits,
    skip_until,
    texts,
    to_chars,
};

verus! {

/// What one step of a grammar matches.
#[derive(Clone, Copy, Debug)]
pub enum Token {
    /// Exactly this many characters, whatever they are.
    Take(usize),
    /// One or more spaces or tabs.
    Space1,
    /// One or more decimal digits.
    Digit1,
    /// This very text.
    Tag(&'static str),
    /// Everything up to the end of the line.
    Rest,
    /// Everything up to, and without, the first occurrence of this character.
    TakeTill(char),
    /// This many characters where the line still has that many, nothing otherwise.
    OptTake(usize),
}

/// One step of a grammar: a token, and whether what it matched is a field.
#[derive(Clone, Copy, Debug)]
pub struct Step {
    pub token: Token,
    pub capture: bool,
}

/// The shape of a line. With `whole` set, the line has one field: everything
/// that the steps consumed together.
#[derive(Debug)]
pub struct Grammar {
    pub steps: Vec<Step>,
    pub whole: bool,
}

/// A step whose match is a field.
pub open spec fn spec_capture(token: Token) -> Step {
    Step { token, capture: true }
}

/// A step whose match is a field.
#[verifier::when_used_as_spec(spec_capture)]
pub fn capture(token: Token) -> (step: Step)
    ensures
        step == spec_capture(token),
{
    Step { token, capture: true }
}

/// A step whose match is dropped.
pub open spec fn spec_skip(token: Token) -> Step {
    Step { token, capture: false }
}

/// A step whose match is dropped.
#[verifier::when_used_as_spec(spec_skip)]
pub fn skip(token: Token) -> (step: Step)
    ensures
        step == spec_skip(token),
{
    Step { token, capture: false }
}

/// Spaces and tabs.
pub open spec fn is_space(c: char) -> bool {
    c == ' ' || c == '\t'
}

/// The number of spaces and tabs that `s` starts with.
pub open spec fn leading_spaces(s: Seq<char>) -> nat
    decreases s.len(),
{
    if s.len() > 0 && is_space(s[0]) {
        1 + leading_spaces(s.drop_first())
    } else {
        0
    }
}

/// Whether `input` begins with `tag`.
pub open spec fn starts_with(input: Seq<char>, tag: Seq<char>) -> bool {
    tag.len() <= input.len() && input.take(tag.len() as int) == tag
}

impl Token {
    /// How many characters of `input` the token consumes, or `None` where it
    /// does not match.
    pub open spec fn consumed(self, input: Seq<char>) -> Option<nat> {
        match self {
            Token::Take(n) => if n <= input.len() {
                Some(n as nat)
            } else {
                None
            },
            Token::Space1 => if leading_spaces(input) > 0 {
                Some(leading_spaces(input))
            } else {
                None
            },
            Token::Digit1 => if leading_digits(input) > 0 {
                Some(leading_digits(input))
            } else {
                None
            },
            Token::Tag(tag) => if starts_with(input, tag@) {
                Some(tag@.len())
            } else {
                None
            },
            Token::Rest => Some(input.len()),
            Token::TakeTill(stop) => Some(leading_until(input, stop)),
            Token::OptTake(n) => if n <= input.len() {
                Some(n as nat)
            } else {
                Some(0)
            },
        }
    }

    /// Matches the token against `chars[start..]` and returns where it stops.
    pub fn matches(&self, chars: &[char], start: usize) -> (stop: Option<usize>)
        requires
            start <= chars@.len(),
        ensures
            match stop {
                Some(stop) => start <= stop <= chars@.len() && self.consumed(
                    chars@.skip(start as int),
                ) == Some((stop - start) as nat),
                None => self.consumed(chars@.skip(start as int)) is None,
            },
    {
        let end = chars.len();
        let ghost input = chars@.skip(start as int);
        assert(input =~= chars@.subrange(start as int, end as int));
        match *self {
            Token::Take(n) => if n <= end - start {
                Some(start + n)
            } else {
                None
            },
            Token::Space1 => {
                let stop = skip_spaces(chars, start, end);
                if stop > start {
                    Some(stop)
                } else {
                    None
                }
            },
            Token::Digit1 => {
                let stop = skip_digits(chars, start, end);
                if stop > start {
                    Some(stop)
                } else {
                    None
                }
            },
            Token::Tag(tag) => {
                let tag_chars = to_chars(tag);
                let n = tag_chars.len();
                if n > end - start {
                    return None;
                }
                let mut i: usize = 0;
                while i < n
                    invariant
                        start <= end == chars@.len(),
                        *self == Token::Tag(tag),
                        tag_chars@ == tag@,
                        n == tag_chars@.len(),
                        n <= end - start,
                        i <= n,
                        input == chars@.skip(start as int),
                        forall|j: int| 0 <= j < i ==> input[j] == tag_chars@[j],
                    decreases n - i,
                {
                    if chars[start + i] != tag_chars[i] {
                        assert(input.take(n as int)[i as int] != tag_chars@[i as int]);
                        return None;
                    }
                    i = i + 1;
                }
                assert(input.take(n as int) =~= tag_chars@);
                Some(start + n)
            },
            Token::Rest => Some(end),
            Token::TakeTill(stop) => Some(skip_until(chars, start, end, stop)),
            Token::OptTake(n) => if n <= end - start {
                Some(start + n)
            } else {
                Some(start)
            },
        }
    }
}

/// Counts the spaces and tabs from `start` on.
pub fn skip_spaces(chars: &[char], start: usize, end: usize) -> (stop: usize)
    requires
        start <= end <= chars@.len(),
    ensures
        start <= stop <= end,
        stop - start == leading_spaces(chars@.subrange(start as int, end as int)),
{
    let mut i: usize = start;
    while i < end && (chars[i] == ' ' || chars[i] == '\t')
        invariant
            start <= i <= end <= chars@.len(),
            leading_spaces(chars@.subrange(start as int, end as int)) == (i - start)
                + leading_spaces(chars@.subrange(i as int, end as int)),
        decreases end - i,
    {
        assert(chars@.subrange(i as int, end as int).drop_first() =~= chars@.subrange(
            i + 1,
            end as int,
        ));
        i = i + 1;
    }
    i
}

/// Where the matching stands after the first `k` steps: how many characters are
/// consumed, and which fields are captured. `None` once a step has failed.
pub open spec fn progress(steps: Seq<Step>, input: Seq<char>, k: nat) -> Option<
    (nat, Seq<Seq<char>>),
>
    decreases k,
{
    if k == 0 {
        Some((0, Seq::empty()))
    } else {
        match progress(steps, input, (k - 1) as nat) {
            None => None,
            Some((at, fields)) => {
                let step = steps[k - 1];
                match step.token.consumed(input.skip(at as int)) {
                    None => None,
                    Some(n) => Some(
                        (
                            at + n,
                            if step.capture {
                                fields.push(input.subrange(at as int, (at + n) as int))
                            } else {
                                fields
                            },
                        ),
                    ),
                }
            },
        }
    }
}

/// The fields that a grammar finds in a line, or `None` where the line does not
/// have the grammar's shape.
pub open spec fn fields_of(steps: Seq<Step>, whole: bool, input: Seq<char>) -> Option<
    Seq<Seq<char>>,
> {
    match progress(steps, input, steps.len()) {
        None => None,
        Some((at, fields)) => if whole {
            Some(seq![input.take(at as int)])
        } else {
            Some(fields)
        },
    }
}

impl Grammar {
    /// A grammar whose captured steps are its fields.
    pub fn new(steps: Vec<Step>) -> (grammar: Self)
        ensures
            grammar.steps@ == steps@,
            !grammar.whole,
    {
        Grammar { steps, whole: false }
    }

    /// A grammar with one field: all that its steps consume.
    pub fn recognize(steps: Vec<Step>) -> (grammar: Self)
        ensures
            grammar.steps@ == steps@,
            grammar.whole,
    {
        Grammar { steps, whole: true }
    }

    /// The fields of `input` under this grammar.
    pub open spec fn spec_fields(&self, input: Seq<char>) -> Option<Seq<Seq<char>>> {
        fields_of(self.steps@, self.whole, input)
    }

    /// Matches a line and returns the character ranges of its fields.
    pub fn split(&self, chars: &[char]) -> (ranges: Option<Vec<(usize, usize)>>)
        ensures
            match ranges {
                Some(ranges) => ranges_within(ranges@, chars@.len()) && self.spec_fields(chars@)
                    == Some(cut(chars@, ranges@)),
                None => self.spec_fields(chars@) is None,
            },
    {
        let mut at: usize = 0;
        let mut ranges: Vec<(usize, usize)> = Vec::new();
        let mut k: usize = 0;
        while k < self.steps.len()
            invariant
                k <= self.steps@.len(),
                at <= chars@.len(),
                ranges_within(ranges@, chars@.len()),
                progress(self.steps@, chars@, k as nat) == Some(
                    (at as nat, cut(chars@, ranges@)),
                ),
            decreases self.steps@.len() - k,
        {
            let step = self.steps[k];
            match step.token.matches(chars, at) {
                None => {
                    assert(progress(self.steps@, chars@, (k + 1) as nat) is None);
                    proof {
                        lemma_failure_is_final(self.steps@, chars@, (k + 1) as nat);
                    }
                    return None;
                },
                Some(stop) => {
                    let ghost before = ranges@;
                    if step.capture {
                        ranges.push((at, stop));
                        assert(cut(chars@, ranges@) =~= cut(chars@, before).push(
                            chars@.subrange(at as int, stop as int),
                        ));
                    }
                    at = stop;
                },
            }
            k = k + 1;
        }
        if self.whole {
            let mut whole: Vec<(usize, usize)> = Vec::new();
            whole.push((0, at));
            assert(cut(chars@, whole@) =~= seq![chars@.take(at as int)]);
            Some(whole)
        } else {
            Some(ranges)
        }
    }

    /// Matches a line and returns its fields as text.
    pub fn parse(&self, row: &str) -> (fields: Option<Vec<String>>)
        ensures
            match fields {
                Some(fields) => self.spec_fields(row@) == Some(texts(fields@)),
                None => self.spec_fields(row@) is None,
            },
    {
        let chars = to_chars(row);
        match self.split(chars.as_slice()) {
            None => None,
            Some(ranges) => {
                let mut fields: Vec<String> = Vec::new();
                let mut i: usize = 0;
                while i < ranges.len()
                    invariant
                        i <= ranges@.len(),
                        chars@ == row@,
                        ranges_within(ranges@, chars@.len()),
                        texts(fields@) == cut(chars@, ranges@).take(i as int),
                    decreases ranges@.len() - i,
                {
                    let (from, to) = ranges[i];
                    let field = row.substring_char(from, to).to_owned();
                    let ghost before = fields@;
                    fields.push(field);
                    assert(texts(fields@) =~= texts(before).push(field@));
                    assert(cut(chars@, ranges@).take(i + 1) =~= cut(chars@, ranges@).take(
                        i as int,
                    ).push(chars@.subrange(from as int, to as int)));
                    i = i + 1;
                }
                assert(cut(chars@, ranges@).take(ranges@.len() as int) =~= cut(chars@, ranges@));
                Some(fields)
            },
        }
    }
}

/// Once a step has failed, the steps after it cannot mend the match.
pub proof fn lemma_failure_is_final(steps: Seq<Step>, input: Seq<char>, k: nat)
    requires
        progress(steps, input, k) is None,
    ensures
        forall|m: nat| m >= k ==> progress(steps, input, m) is None,
{
    assert forall|m: nat| m >= k implies progress(steps, input, m) is None by {
        lemma_failure_persists(steps, input, k, m);
    }
}

proof fn lemma_failure_persists(steps: Seq<Step>, input: Seq<char>, k: nat, m: nat)
    requires
        progress(steps, input, k) is None,
        m >= k,
    ensures
        progress(steps, input, m) is None,
    decreases m,
{
    if m > k {
        lemma_failure_persists(steps, input, k, (m - 1) as nat);
    }
}

/// The number of capturing steps among the first `k` steps.
pub open spec fn captures(steps: Seq<Step>, k: nat) -> nat
    decreases k,
{
    if k == 0 {
        0
    } else if steps[k - 1].capture {
        captures(steps, (k - 1) as nat) + 1
    } else {
        captures(steps, (k - 1) as nat)
    }
}

/// How many fields a grammar finds in every line that it accepts.
pub open spec fn field_count(steps: Seq<Step>, whole: bool) -> nat {
    if whole {
        1
    } else {
        captures(steps, steps.len())
    }
}

/// A token never consumes more than there is.
pub proof fn lemma_consumed_bound(token: Token, input: Seq<char>)
    ensures
        token.consumed(input) matches Some(n) ==> n <= input.len(),
{
    lemma_leading_spaces_bound(input);
    crate::text::lemma_leading_digits_bound(input);
    match token {
        Token::TakeTill(stop) => {
            crate::text::lemma_leading_until_bound(input, stop);
        },
        _ => {},
    }
}

/// Leading spaces never reach beyond the text.
pub proof fn lemma_leading_spaces_bound(s: Seq<char>)
    ensures
        leading_spaces(s) <= s.len(),
    decreases s.len(),
{
    if s.len() > 0 && is_space(s[0]) {
        lemma_leading_spaces_bound(s.drop_first());
    }
}

/// After any number of steps the matching stands within the line, and it has
/// captured one field for each capturing step.
pub proof fn lemma_progress_is_within(steps: Seq<Step>, input: Seq<char>, k: nat)
    requires
        k <= steps.len(),
    ensures
        progress(steps, input, k) matches Some(state) ==> state.0 <= input.len()
            && state.1.len() == captures(steps, k),
    decreases k,
{
    if k > 0 {
        lemma_progress_is_within(steps, input, (k - 1) as nat);
        match progress(steps, input, (k - 1) as nat) {
            Some((at, fields)) => {
                lemma_consumed_bound(steps[k - 1].token, input.skip(at as int));
            },
            None => {},
        }
    }
}

/// The number of fields is a matter of the grammar, not of the line: every
/// line that a grammar accepts has as many fields as the grammar has
/// capturing steps, or one field where the grammar takes the line as a whole.
pub proof fn lemma_field_count(steps: Seq<Step>, whole: bool, input: Seq<char>)
    ensures
        fields_of(steps, whole, input) matches Some(fields) ==> fields.len() == field_count(
            steps,
            whole,
        ),
{
    lemma_progress_is_within(steps, input, steps.len());
}

} // verus!
