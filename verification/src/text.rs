//! Character-level helpers shared by the grammars and the typed-column coercions.
//!
//! Every function works on a slice of characters and a half-open range into it,
//! and is specified over the corresponding `Seq<char>`.

use vstd::prelude::*;
use vstd::std_specs::iter::IteratorSpec;
use vstd::string::StringExecFns;

verus! {

/// The characters of `text`, in order.
pub fn to_chars(text: &str) -> (chars: Vec<char>)
    ensures
        chars@ == text@,
{
    let mut chars: Vec<char> = Vec::new();
    for c in it: text.chars()
        invariant
            chars@ == it.seq().take(it.index() as int),
            it.seq() == text@,
    {
        chars.push(c);
    }
    chars
}

/// Characters with the Unicode `White_Space` property.
pub open spec fn is_whitespace(c: char) -> bool {
    let u = c as u32;
    ||| 0x09 <= u <= 0x0D
    ||| u == 0x20
    ||| u == 0x85
    ||| u == 0xA0
    ||| u == 0x1680
    ||| 0x2000 <= u <= 0x200A
    ||| u == 0x2028
    ||| u == 0x2029
    ||| u == 0x202F
    ||| u == 0x205F
    ||| u == 0x3000
}

/// Decides [`is_whitespace`].
pub fn is_whitespace_char(c: char) -> (b: bool)
    ensures
        b == is_whitespace(c),
{
    let u: u32 = c as u32;
    (0x09 <= u && u <= 0x0D) || u == 0x20 || u == 0x85 || u == 0xA0 || u == 0x1680 || (0x2000 <= u
        && u <= 0x200A) || u == 0x2028 || u == 0x2029 || u == 0x202F || u == 0x205F || u == 0x3000
}

/// `s` without its leading whitespace.
pub open spec fn trim_start(s: Seq<char>) -> Seq<char>
    decreases s.len(),
{
    if s.len() > 0 && is_whitespace(s[0]) {
        trim_start(s.drop_first())
    } else {
        s
    }
}

/// `s` without its trailing whitespace.
pub open spec fn trim_end(s: Seq<char>) -> Seq<char>
    decreases s.len(),
{
    if s.len() > 0 && is_whitespace(s.last()) {
        trim_end(s.drop_last())
    } else {
        s
    }
}

/// `s` without leading and trailing whitespace.
pub open spec fn trim(s: Seq<char>) -> Seq<char> {
    trim_end(trim_start(s))
}

/// A line is blank when nothing is left of it after trimming.
pub open spec fn is_blank(s: Seq<char>) -> bool {
    trim(s).len() == 0
}

/// Finds the trimmed part of `chars[start..end]`.
pub fn trim_range(chars: &[char], start: usize, end: usize) -> (range: (usize, usize))
    requires
        start <= end <= chars@.len(),
    ensures
        start <= range.0 <= range.1 <= end,
        chars@.subrange(range.0 as int, range.1 as int) == trim(
            chars@.subrange(start as int, end as int),
        ),
{
    let mut a: usize = start;
    while a < end && is_whitespace_char(chars[a])
        invariant
            start <= a <= end <= chars@.len(),
            trim_start(chars@.subrange(start as int, end as int)) == trim_start(
                chars@.subrange(a as int, end as int),
            ),
        decreases end - a,
    {
        assert(chars@.subrange(a as int, end as int).drop_first() =~= chars@.subrange(
            a + 1,
            end as int,
        ));
        a = a + 1;
    }
    let mut b: usize = end;
    while a < b && is_whitespace_char(chars[b - 1])
        invariant
            a <= b <= end <= chars@.len(),
            trim_end(chars@.subrange(a as int, end as int)) == trim_end(
                chars@.subrange(a as int, b as int),
            ),
        decreases b - a,
    {
        assert(chars@.subrange(a as int, b as int).drop_last() =~= chars@.subrange(
            a as int,
            b - 1,
        ));
        b = b - 1;
    }
    (a, b)
}

/// Decides [`is_blank`] for a whole line.
pub fn is_blank_line(chars: &[char]) -> (blank: bool)
    ensures
        blank == is_blank(chars@),
{
    let (a, b) = trim_range(chars, 0, chars.len());
    assert(chars@.subrange(0, chars@.len() as int) =~= chars@);
    a == b
}

/// ASCII decimal digits.
pub open spec fn is_digit(c: char) -> bool {
    '0' <= c <= '9'
}

/// Decides [`is_digit`].
pub fn is_digit_char(c: char) -> (b: bool)
    ensures
        b == is_digit(c),
{
    '0' <= c && c <= '9'
}

/// The number a decimal digit stands for.
pub open spec fn digit_value(c: char) -> int {
    c as u32 - '0' as u32
}

/// Whether `s` holds decimal digits only.
pub open spec fn all_digits(s: Seq<char>) -> bool {
    forall|i: int| 0 <= i < s.len() ==> is_digit(#[trigger] s[i])
}

/// The value of a run of decimal digits, read most significant digit first.
pub open spec fn decimal_value(s: Seq<char>) -> int
    decreases s.len(),
{
    if s.len() == 0 {
        0
    } else {
        decimal_value(s.drop_last()) * 10 + digit_value(s.last())
    }
}

/// The integer a text denotes: an optional sign, then one or more decimal digits.
pub open spec fn integer_value(s: Seq<char>) -> Option<int> {
    let signed = s.len() > 0 && (s[0] == '-' || s[0] == '+');
    let digits = if signed {
        s.drop_first()
    } else {
        s
    };
    if digits.len() == 0 || !all_digits(digits) {
        None
    } else if s[0] == '-' {
        Some(-decimal_value(digits))
    } else {
        Some(decimal_value(digits))
    }
}

/// The integer a text denotes, if it lies in `lo..=hi`.
pub open spec fn bounded_integer_value(s: Seq<char>, lo: int, hi: int) -> Option<int> {
    match integer_value(s) {
        Some(v) => if lo <= v <= hi {
            Some(v)
        } else {
            None
        },
        None => None,
    }
}

/// A run of digits is worth at least as much as any of its prefixes.
pub proof fn lemma_decimal_value_monotonic(s: Seq<char>, k: int)
    requires
        all_digits(s),
        0 <= k <= s.len(),
    ensures
        0 <= decimal_value(s.take(k)) <= decimal_value(s),
    decreases s.len() - k,
{
    lemma_decimal_value_nonnegative(s.take(k));
    if k == s.len() {
        assert(s.take(k) =~= s);
    } else {
        lemma_decimal_value_monotonic(s, k + 1);
        assert(s.take(k + 1).drop_last() =~= s.take(k));
        assert(is_digit(s[k]));
        assert(s.take(k + 1).last() == s[k]);
    }
}

/// A run of digits has a value that is not negative.
pub proof fn lemma_decimal_value_nonnegative(s: Seq<char>)
    requires
        all_digits(s),
    ensures
        0 <= decimal_value(s),
    decreases s.len(),
{
    if s.len() > 0 {
        assert(all_digits(s.drop_last())) by {
            assert forall|i: int| 0 <= i < s.drop_last().len() implies is_digit(
                #[trigger] s.drop_last()[i],
            ) by {
                assert(s.drop_last()[i] == s[i]);
            }
        }
        lemma_decimal_value_nonnegative(s.drop_last());
        assert(is_digit(s[s.len() - 1]));
    }
}

/// Reads `chars[start..end]` as an integer of the range `lo..=hi`.
pub fn parse_bounded(chars: &[char], start: usize, end: usize, lo: i64, hi: i64) -> (value: Option<
    i64,
>)
    requires
        start <= end <= chars@.len(),
        -0x1_0000_0000 <= lo <= 0 <= hi < 0x1_0000_0000,
    ensures
        match value {
            Some(v) => bounded_integer_value(
                chars@.subrange(start as int, end as int),
                lo as int,
                hi as int,
            ) == Some(v as int),
            None => bounded_integer_value(
                chars@.subrange(start as int, end as int),
                lo as int,
                hi as int,
            ) is None,
        },
{
    let ghost text = chars@.subrange(start as int, end as int);
    if start == end {
        return None;
    }
    let first = chars[start];
    assert(first == text[0]);
    let negative = first == '-';
    let from: usize = if first == '-' || first == '+' {
        start + 1
    } else {
        start
    };
    let ghost digits = chars@.subrange(from as int, end as int);
    assert(digits =~= if text[0] == '-' || text[0] == '+' {
        text.drop_first()
    } else {
        text
    });
    if from == end {
        return None;
    }
    let mut acc: i64 = 0;
    let mut i: usize = from;
    while i < end
        invariant
            start <= from <= i <= end <= chars@.len(),
            text == chars@.subrange(start as int, end as int),
            digits == chars@.subrange(from as int, end as int),
            digits.len() > 0,
            digits == if text[0] == '-' || text[0] == '+' {
                text.drop_first()
            } else {
                text
            },
            -0x1_0000_0000 <= lo <= 0 <= hi < 0x1_0000_0000,
            all_digits(digits.take(i - from)),
            acc == decimal_value(digits.take(i - from)),
            0 <= acc <= 0x1_0000_0000,
        decreases end - i,
    {
        let c = chars[i];
        assert(c == digits[i - from]);
        if !is_digit_char(c) {
            assert(!all_digits(digits));
            return None;
        }
        let d: i64 = (c as u32 - '0' as u32) as i64;
        assert(digits.take(i - from + 1).drop_last() =~= digits.take(i - from));
        assert(digits.take(i - from + 1).last() == c);
        assert(all_digits(digits.take(i - from + 1))) by {
            assert forall|j: int| 0 <= j < i - from + 1 implies is_digit(
                #[trigger] digits.take(i - from + 1)[j],
            ) by {
                if j < i - from {
                    assert(digits.take(i - from)[j] == digits[j]);
                }
            }
        }
        acc = acc * 10 + d;
        if acc > 0x1_0000_0000 {
            proof {
                if all_digits(digits) {
                    lemma_decimal_value_monotonic(digits, i - from + 1);
                }
            }
            return None;
        }
        i = i + 1;
    }
    assert(digits.take(end - from) =~= digits);
    let value: i64 = if negative {
        -acc
    } else {
        acc
    };
    if lo <= value && value <= hi {
        Some(value)
    } else {
        None
    }
}

/// The 32-bit integer a text denotes, if any.
pub open spec fn i32_value(s: Seq<char>) -> Option<i32> {
    match bounded_integer_value(s, i32::MIN as int, i32::MAX as int) {
        Some(v) => Some(v as i32),
        None => None,
    }
}

/// The 16-bit integer a text denotes, if any.
pub open spec fn i16_value(s: Seq<char>) -> Option<i16> {
    match bounded_integer_value(s, i16::MIN as int, i16::MAX as int) {
        Some(v) => Some(v as i16),
        None => None,
    }
}

/// Reads `chars[start..end]` as a 32-bit integer.
pub fn parse_i32(chars: &[char], start: usize, end: usize) -> (value: Option<i32>)
    requires
        start <= end <= chars@.len(),
    ensures
        value == i32_value(chars@.subrange(start as int, end as int)),
{
    match parse_bounded(chars, start, end, -0x8000_0000, 0x7fff_ffff) {
        Some(v) => Some(v as i32),
        None => None,
    }
}

/// Reads `chars[start..end]` as a 16-bit integer.
pub fn parse_i16(chars: &[char], start: usize, end: usize) -> (value: Option<i16>)
    requires
        start <= end <= chars@.len(),
    ensures
        value == i16_value(chars@.subrange(start as int, end as int)),
{
    match parse_bounded(chars, start, end, -0x8000, 0x7fff) {
        Some(v) => Some(v as i16),
        None => None,
    }
}

/// Reads a whole text as a 32-bit integer.
pub fn text_to_i32(text: &str) -> (value: Option<i32>)
    ensures
        value == i32_value(text@),
{
    let chars = to_chars(text);
    assert(chars@.subrange(0, chars@.len() as int) =~= chars@);
    parse_i32(chars.as_slice(), 0, chars.len())
}

/// The number of decimal digits that `s` starts with.
pub open spec fn leading_digits(s: Seq<char>) -> nat
    decreases s.len(),
{
    if s.len() > 0 && is_digit(s[0]) {
        1 + leading_digits(s.drop_first())
    } else {
        0
    }
}

/// Leading digits never reach beyond the text.
pub proof fn lemma_leading_digits_bound(s: Seq<char>)
    ensures
        leading_digits(s) <= s.len(),
    decreases s.len(),
{
    if s.len() > 0 && is_digit(s[0]) {
        lemma_leading_digits_bound(s.drop_first());
    }
}

/// An exponent: `e` or `E`, an optional sign, then one or more digits up to the end.
pub open spec fn is_exponent(s: Seq<char>) -> bool {
    &&& s.len() > 0
    &&& (s[0] == 'e' || s[0] == 'E')
    &&& {
        let tail = s.drop_first();
        let digits = if tail.len() > 0 && (tail[0] == '+' || tail[0] == '-') {
            tail.drop_first()
        } else {
            tail
        };
        digits.len() > 0 && leading_digits(digits) == digits.len()
    }
}

/// An unsigned decimal number: digits with an optional fraction point and at least
/// one digit before or after it, then an optional exponent.
pub open spec fn is_decimal_number(s: Seq<char>) -> bool {
    let whole = leading_digits(s);
    let after_whole = s.skip(whole as int);
    let has_point = after_whole.len() > 0 && after_whole[0] == '.';
    let after_point = if has_point {
        after_whole.drop_first()
    } else {
        after_whole
    };
    let fraction = if has_point {
        leading_digits(after_point)
    } else {
        0
    };
    let tail = after_point.skip(fraction as int);
    &&& whole + fraction > 0
    &&& (tail.len() == 0 || is_exponent(tail))
}

/// Whether `s` reads `word` when ASCII letter case is ignored.
pub open spec fn matches_ignoring_case(s: Seq<char>, word: Seq<char>) -> bool {
    &&& s.len() == word.len()
    &&& forall|i: int|
        0 <= i < s.len() ==> (#[trigger] s[i] == word[i] || (('A' <= s[i] <= 'Z') && s[i] as u32
            + 32 == word[i] as u32))
}

/// The three spellings of the values that are not numbers.
pub open spec fn is_special_float(s: Seq<char>) -> bool {
    ||| matches_ignoring_case(s, seq!['i', 'n', 'f'])
    ||| matches_ignoring_case(s, seq!['i', 'n', 'f', 'i', 'n', 'i', 't', 'y'])
    ||| matches_ignoring_case(s, seq!['n', 'a', 'n'])
}

/// The texts that denote a real-valued column: an optional sign, then a decimal
/// number or one of the special spellings.
pub open spec fn is_float_text(s: Seq<char>) -> bool {
    let body = if s.len() > 0 && (s[0] == '+' || s[0] == '-') {
        s.drop_first()
    } else {
        s
    };
    is_decimal_number(body) || is_special_float(body)
}

/// Counts the digits from `start` on.
pub fn skip_digits(chars: &[char], start: usize, end: usize) -> (stop: usize)
    requires
        start <= end <= chars@.len(),
    ensures
        start <= stop <= end,
        stop - start == leading_digits(chars@.subrange(start as int, end as int)),
{
    let mut i: usize = start;
    while i < end && is_digit_char(chars[i])
        invariant
            start <= i <= end <= chars@.len(),
            leading_digits(chars@.subrange(start as int, end as int)) == (i - start)
                + leading_digits(chars@.subrange(i as int, end as int)),
        decreases end - i,
    {
        assert(chars@.subrange(i as int, end as int).drop_first() =~= chars@.subrange(
            i + 1,
            end as int,
        ));
        i = i + 1;
    }
    i
}

/// Decides [`matches_ignoring_case`] for a lower-case word.
pub fn matches_word(chars: &[char], start: usize, end: usize, word: &[char]) -> (same: bool)
    requires
        start <= end <= chars@.len(),
    ensures
        same == matches_ignoring_case(chars@.subrange(start as int, end as int), word@),
{
    if end - start != word.len() {
        return false;
    }
    let ghost text = chars@.subrange(start as int, end as int);
    let mut i: usize = 0;
    while i < word.len()
        invariant
            start <= end <= chars@.len(),
            text == chars@.subrange(start as int, end as int),
            text.len() == word@.len(),
            i <= word@.len(),
            forall|j: int|
                0 <= j < i ==> (#[trigger] text[j] == word@[j] || (('A' <= text[j] <= 'Z')
                    && text[j] as u32 + 32 == word@[j] as u32)),
        decreases word@.len() - i,
    {
        let c = chars[start + i];
        let w = word[i];
        assert(c == text[i as int]);
        let same = c == w || ('A' <= c && c <= 'Z' && c as u32 + 32 == w as u32);
        if !same {
            return false;
        }
        i = i + 1;
    }
    true
}

/// Decides [`is_exponent`].
pub fn is_exponent_at(chars: &[char], start: usize, end: usize) -> (yes: bool)
    requires
        start <= end <= chars@.len(),
    ensures
        yes == is_exponent(chars@.subrange(start as int, end as int)),
{
    let ghost text = chars@.subrange(start as int, end as int);
    if start == end {
        return false;
    }
    assert(chars@[start as int] == text[0]);
    if !(chars[start] == 'e' || chars[start] == 'E') {
        return false;
    }
    let ghost tail = text.drop_first();
    assert(tail =~= chars@.subrange(start + 1, end as int));
    let mut from: usize = start + 1;
    if from < end && (chars[from] == '+' || chars[from] == '-') {
        assert(tail.drop_first() =~= chars@.subrange(from + 1, end as int));
        from = from + 1;
    }
    let stop = skip_digits(chars, from, end);
    from < end && stop == end
}

/// Decides [`is_special_float`].
pub fn is_special_float_at(chars: &[char], start: usize, end: usize) -> (yes: bool)
    requires
        start <= end <= chars@.len(),
    ensures
        yes == is_special_float(chars@.subrange(start as int, end as int)),
{
    let inf: [char; 3] = ['i', 'n', 'f'];
    let infinity: [char; 8] = ['i', 'n', 'f', 'i', 'n', 'i', 't', 'y'];
    let nan: [char; 3] = ['n', 'a', 'n'];
    assert(inf@ =~= seq!['i', 'n', 'f']);
    assert(infinity@ =~= seq!['i', 'n', 'f', 'i', 'n', 'i', 't', 'y']);
    assert(nan@ =~= seq!['n', 'a', 'n']);
    matches_word(chars, start, end, &inf) || matches_word(chars, start, end, &infinity)
        || matches_word(chars, start, end, &nan)
}

/// Decides [`is_decimal_number`].
pub fn is_decimal_number_at(chars: &[char], start: usize, end: usize) -> (yes: bool)
    requires
        start <= end <= chars@.len(),
    ensures
        yes == is_decimal_number(chars@.subrange(start as int, end as int)),
{
    let ghost body = chars@.subrange(start as int, end as int);
    let whole_end = skip_digits(chars, start, end);
    assert(body.skip(whole_end - start) =~= chars@.subrange(whole_end as int, end as int));
    let has_point = whole_end < end && chars[whole_end] == '.';
    let mut fraction_start: usize = whole_end;
    let mut fraction_end: usize = whole_end;
    if has_point {
        fraction_start = whole_end + 1;
        assert(chars@.subrange(whole_end as int, end as int).drop_first() =~= chars@.subrange(
            fraction_start as int,
            end as int,
        ));
        fraction_end = skip_digits(chars, fraction_start, end);
    }
    assert(chars@.subrange(fraction_start as int, end as int).skip(fraction_end - fraction_start)
        =~= chars@.subrange(fraction_end as int, end as int));
    let digits = (whole_end - start) + (fraction_end - fraction_start);
    if digits == 0 {
        return false;
    }
    fraction_end == end || is_exponent_at(chars, fraction_end, end)
}

/// Decides [`is_float_text`].
pub fn is_float_literal(chars: &[char], start: usize, end: usize) -> (yes: bool)
    requires
        start <= end <= chars@.len(),
    ensures
        yes == is_float_text(chars@.subrange(start as int, end as int)),
{
    let ghost text = chars@.subrange(start as int, end as int);
    let mut from: usize = start;
    if start < end && (chars[start] == '+' || chars[start] == '-') {
        assert(text.drop_first() =~= chars@.subrange(start + 1, end as int));
        from = start + 1;
    }
    is_decimal_number_at(chars, from, end) || is_special_float_at(chars, from, end)
}

/// The number of characters of `s` before the first `stop`.
pub open spec fn leading_until(s: Seq<char>, stop: char) -> nat
    decreases s.len(),
{
    if s.len() > 0 && s[0] != stop {
        1 + leading_until(s.drop_first(), stop)
    } else {
        0
    }
}

/// The characters before a stop never reach beyond the text.
pub proof fn lemma_leading_until_bound(s: Seq<char>, stop: char)
    ensures
        leading_until(s, stop) <= s.len(),
    decreases s.len(),
{
    if s.len() > 0 && s[0] != stop {
        lemma_leading_until_bound(s.drop_first(), stop);
    }
}

/// Counts the characters from `start` on that come before the first `stop_at`.
pub fn skip_until(chars: &[char], start: usize, end: usize, stop_at: char) -> (stop: usize)
    requires
        start <= end <= chars@.len(),
    ensures
        start <= stop <= end,
        stop - start == leading_until(chars@.subrange(start as int, end as int), stop_at),
{
    let mut i: usize = start;
    while i < end && chars[i] != stop_at
        invariant
            start <= i <= end <= chars@.len(),
            leading_until(chars@.subrange(start as int, end as int), stop_at) == (i - start)
                + leading_until(chars@.subrange(i as int, end as int), stop_at),
        decreases end - i,
    {
        assert(chars@.subrange(i as int, end as int).drop_first() =~= chars@.subrange(
            i + 1,
            end as int,
        ));
        i = i + 1;
    }
    i
}

/// The text that a list of character ranges cuts out of a line.
pub open spec fn cut(input: Seq<char>, ranges: Seq<(usize, usize)>) -> Seq<Seq<char>> {
    Seq::new(ranges.len(), |i: int| input.subrange(ranges[i].0 as int, ranges[i].1 as int))
}

/// Whether every range lies within a line of `len` characters.
pub open spec fn ranges_within(ranges: Seq<(usize, usize)>, len: nat) -> bool {
    forall|i: int| 0 <= i < ranges.len() ==> (#[trigger] ranges[i]).0 <= ranges[i].1 <= len
}

/// What a list of strings reads, one text for each.
pub open spec fn texts(strings: Seq<String>) -> Seq<Seq<char>> {
    Seq::new(strings.len(), |i: int| strings[i]@)
}

/// The parts of a text between the occurrences of a separator. A text without
/// the separator is its own single part; two separators in a row have an empty
/// part between them.
pub open spec fn split_on(text: Seq<char>, separator: char) -> Seq<Seq<char>>
    decreases text.len(),
{
    let n = leading_until(text, separator);
    if n >= text.len() {
        seq![text]
    } else {
        seq![text.take(n as int)] + split_on(text.skip(n + 1 as int), separator)
    }
}

/// Splits `chars[start..end]` at every occurrence of a separator.
pub fn split_ranges(chars: &[char], start: usize, end: usize, separator: char) -> (ranges: Vec<
    (usize, usize),
>)
    requires
        start <= end <= chars@.len(),
    ensures
        ranges@.len() >= 1,
        ranges_within(ranges@, chars@.len()),
        forall|i: int|
            0 <= i < ranges@.len() ==> start <= (#[trigger] ranges@[i]).0 && ranges@[i].1 <= end,
        cut(chars@, ranges@) == split_on(chars@.subrange(start as int, end as int), separator),
{
    let mut ranges: Vec<(usize, usize)> = Vec::new();
    let mut at: usize = start;
    assert(cut(chars@, ranges@) =~= Seq::empty());
    loop
        invariant
            start <= at <= end <= chars@.len(),
            ranges_within(ranges@, chars@.len()),
            forall|i: int|
                0 <= i < ranges@.len() ==> start <= (#[trigger] ranges@[i]).0 && ranges@[i].1
                    <= end,
            split_on(chars@.subrange(start as int, end as int), separator) == cut(
                chars@,
                ranges@,
            ) + split_on(chars@.subrange(at as int, end as int), separator),
        decreases end - at,
    {
        let stop = skip_until(chars, at, end, separator);
        let ghost rest = chars@.subrange(at as int, end as int);
        let ghost before = ranges@;
        ranges.push((at, stop));
        proof {
            assert(rest.take(stop - at) =~= chars@.subrange(at as int, stop as int));
            assert(cut(chars@, ranges@) =~= cut(chars@, before).push(
                chars@.subrange(at as int, stop as int),
            ));
        }
        if stop >= end {
            proof {
                assert(rest =~= chars@.subrange(at as int, stop as int));
                assert(cut(chars@, before) + seq![rest] =~= cut(chars@, ranges@));
            }
            return ranges;
        }
        proof {
            assert(rest.skip(stop - at + 1) =~= chars@.subrange(stop + 1, end as int));
            assert(cut(chars@, before) + (seq![rest.take(stop - at)] + split_on(
                chars@.subrange(stop + 1, end as int),
                separator,
            )) =~= cut(chars@, ranges@) + split_on(
                chars@.subrange(stop + 1, end as int),
                separator,
            ));
        }
        at = stop + 1;
    }
}

/// The number of characters that are no whitespace which `s` starts with.
pub open spec fn leading_word(s: Seq<char>) -> nat
    decreases s.len(),
{
    if s.len() > 0 && !is_whitespace(s[0]) {
        1 + leading_word(s.drop_first())
    } else {
        0
    }
}

/// A word never reaches beyond the text it is cut from.
pub proof fn lemma_leading_word_bound(s: Seq<char>)
    ensures
        leading_word(s) <= s.len(),
    decreases s.len(),
{
    if s.len() > 0 && !is_whitespace(s[0]) {
        lemma_leading_word_bound(s.drop_first());
    }
}

/// The words of a text: its longest parts without whitespace, in order.
pub open spec fn words(text: Seq<char>) -> Seq<Seq<char>>
    decreases text.len(),
    via words_decreases
{
    if text.len() == 0 {
        Seq::empty()
    } else if is_whitespace(text[0]) {
        words(text.drop_first())
    } else {
        let n = leading_word(text);
        seq![text.take(n as int)] + words(text.skip(n as int))
    }
}

#[via_fn]
proof fn words_decreases(text: Seq<char>) {
    lemma_leading_word_bound(text);
}

/// Finds the end of the word that starts at `start`.
pub fn skip_word(chars: &[char], start: usize, end: usize) -> (stop: usize)
    requires
        start <= end <= chars@.len(),
    ensures
        start <= stop <= end,
        stop - start == leading_word(chars@.subrange(start as int, end as int)),
{
    let mut i: usize = start;
    while i < end && !is_whitespace_char(chars[i])
        invariant
            start <= i <= end <= chars@.len(),
            leading_word(chars@.subrange(start as int, end as int)) == (i - start) + leading_word(
                chars@.subrange(i as int, end as int),
            ),
        decreases end - i,
    {
        assert(chars@.subrange(i as int, end as int).drop_first() =~= chars@.subrange(
            i + 1,
            end as int,
        ));
        i = i + 1;
    }
    i
}

/// Finds the words of `chars[start..end]`.
pub fn word_ranges(chars: &[char], start: usize, end: usize) -> (ranges: Vec<(usize, usize)>)
    requires
        start <= end <= chars@.len(),
    ensures
        ranges_within(ranges@, chars@.len()),
        cut(chars@, ranges@) == words(chars@.subrange(start as int, end as int)),
{
    let mut ranges: Vec<(usize, usize)> = Vec::new();
    let mut at: usize = start;
    assert(cut(chars@, ranges@) + words(chars@.subrange(at as int, end as int)) =~= words(
        chars@.subrange(start as int, end as int),
    ));
    while at < end
        invariant
            start <= at <= end <= chars@.len(),
            ranges_within(ranges@, chars@.len()),
            words(chars@.subrange(start as int, end as int)) == cut(chars@, ranges@) + words(
                chars@.subrange(at as int, end as int),
            ),
        decreases end - at,
    {
        let ghost rest = chars@.subrange(at as int, end as int);
        assert(rest[0] == chars@[at as int]);
        if is_whitespace_char(chars[at]) {
            assert(rest.drop_first() =~= chars@.subrange(at + 1, end as int));
            at = at + 1;
        } else {
            let stop = skip_word(chars, at, end);
            let ghost before = ranges@;
            ranges.push((at, stop));
            proof {
                assert(rest.take(stop - at) =~= chars@.subrange(at as int, stop as int));
                assert(rest.skip(stop - at) =~= chars@.subrange(stop as int, end as int));
                assert(cut(chars@, ranges@) =~= cut(chars@, before).push(
                    chars@.subrange(at as int, stop as int),
                ));
                assert(cut(chars@, before) + (seq![rest.take(stop - at)] + words(
                    chars@.subrange(stop as int, end as int),
                )) =~= cut(chars@, ranges@) + words(chars@.subrange(stop as int, end as int)));
            }
            at = stop;
        }
    }
    assert(words(chars@.subrange(at as int, end as int)) =~= Seq::<Seq<char>>::empty());
    assert(cut(chars@, ranges@) + Seq::<Seq<char>>::empty() =~= cut(chars@, ranges@));
    ranges
}

/// The number of characters before the first place where `a` is followed by
/// `b`, or the length of the text where there is no such place.
pub open spec fn until_pair(s: Seq<char>, a: char, b: char) -> nat
    decreases s.len(),
{
    if s.len() == 0 || (s.len() >= 2 && s[0] == a && s[1] == b) {
        0
    } else {
        1 + until_pair(s.drop_first(), a, b)
    }
}

/// The pair that is found lies within the text.
pub proof fn lemma_until_pair_bound(s: Seq<char>, a: char, b: char)
    ensures
        until_pair(s, a, b) <= s.len(),
        until_pair(s, a, b) < s.len() ==> until_pair(s, a, b) + 2 <= s.len(),
    decreases s.len(),
{
    if !(s.len() == 0 || (s.len() >= 2 && s[0] == a && s[1] == b)) {
        lemma_until_pair_bound(s.drop_first(), a, b);
    }
}

/// The parts of a text between the places where `a` is followed by `b`.
pub open spec fn split_on_pair(text: Seq<char>, a: char, b: char) -> Seq<Seq<char>>
    decreases text.len(),
    via split_on_pair_decreases
{
    let n = until_pair(text, a, b);
    if n >= text.len() {
        seq![text]
    } else {
        seq![text.take(n as int)] + split_on_pair(text.skip(n + 2 as int), a, b)
    }
}

#[via_fn]
proof fn split_on_pair_decreases(text: Seq<char>, a: char, b: char) {
    lemma_until_pair_bound(text, a, b);
}

/// Finds the first place from `start` on where `a` is followed by `b`.
pub fn skip_until_pair(chars: &[char], start: usize, end: usize, a: char, b: char) -> (stop: usize)
    requires
        start <= end <= chars@.len(),
    ensures
        start <= stop <= end,
        stop < end ==> stop + 2 <= end,
        stop - start == until_pair(chars@.subrange(start as int, end as int), a, b),
{
    let mut i: usize = start;
    while i < end && !(end - i >= 2 && chars[i] == a && chars[i + 1] == b)
        invariant
            start <= i <= end <= chars@.len(),
            until_pair(chars@.subrange(start as int, end as int), a, b) == (i - start)
                + until_pair(chars@.subrange(i as int, end as int), a, b),
        decreases end - i,
    {
        assert(chars@.subrange(i as int, end as int).drop_first() =~= chars@.subrange(
            i + 1,
            end as int,
        ));
        i = i + 1;
    }
    proof {
        lemma_until_pair_bound(chars@.subrange(i as int, end as int), a, b);
    }
    i
}

/// Splits `chars[start..end]` at every place where `a` is followed by `b`.
pub fn split_pair_ranges(chars: &[char], start: usize, end: usize, a: char, b: char) -> (ranges:
    Vec<(usize, usize)>)
    requires
        start <= end <= chars@.len(),
    ensures
        ranges@.len() >= 1,
        ranges_within(ranges@, chars@.len()),
        forall|i: int|
            0 <= i < ranges@.len() ==> start <= (#[trigger] ranges@[i]).0 && ranges@[i].1 <= end,
        cut(chars@, ranges@) == split_on_pair(chars@.subrange(start as int, end as int), a, b),
{
    let mut ranges: Vec<(usize, usize)> = Vec::new();
    let mut at: usize = start;
    assert(cut(chars@, ranges@) =~= Seq::empty());
    loop
        invariant
            start <= at <= end <= chars@.len(),
            ranges_within(ranges@, chars@.len()),
            forall|i: int|
                0 <= i < ranges@.len() ==> start <= (#[trigger] ranges@[i]).0 && ranges@[i].1
                    <= end,
            split_on_pair(chars@.subrange(start as int, end as int), a, b) == cut(
                chars@,
                ranges@,
            ) + split_on_pair(chars@.subrange(at as int, end as int), a, b),
        decreases end - at,
    {
        let stop = skip_until_pair(chars, at, end, a, b);
        let ghost rest = chars@.subrange(at as int, end as int);
        let ghost before = ranges@;
        ranges.push((at, stop));
        proof {
            assert(rest.take(stop - at) =~= chars@.subrange(at as int, stop as int));
            assert(cut(chars@, ranges@) =~= cut(chars@, before).push(
                chars@.subrange(at as int, stop as int),
            ));
        }
        if stop >= end {
            proof {
                assert(rest =~= chars@.subrange(at as int, stop as int));
                assert(cut(chars@, before) + seq![rest] =~= cut(chars@, ranges@));
            }
            return ranges;
        }
        proof {
            assert(rest.skip(stop - at + 2) =~= chars@.subrange(stop + 2, end as int));
            assert(cut(chars@, before) + (seq![rest.take(stop - at)] + split_on_pair(
                chars@.subrange(stop + 2, end as int),
                a,
                b,
            )) =~= cut(chars@, ranges@) + split_on_pair(
                chars@.subrange(stop + 2, end as int),
                a,
                b,
            ));
        }
        at = stop + 2;
    }
}

/// The parts of a text put together again, with nothing in between.
pub open spec fn joined(parts: Seq<Seq<char>>) -> Seq<char>
    decreases parts.len(),
{
    if parts.len() == 0 {
        Seq::empty()
    } else {
        joined(parts.drop_last()) + parts.last()
    }
}

/// A text without the occurrences of one character.
pub open spec fn without_char(text: Seq<char>, unwanted: char) -> Seq<char> {
    joined(split_on(text, unwanted))
}

/// Removes the occurrences of one character from a text.
pub fn remove_char(text: &str, unwanted: char) -> (cleaned: String)
    ensures
        cleaned@ == without_char(text@, unwanted),
{
    let chars = to_chars(text);
    assert(chars@.subrange(0, chars@.len() as int) =~= chars@);
    let ranges = split_ranges(chars.as_slice(), 0, chars.len(), unwanted);
    let ghost parts = split_on(text@, unwanted);
    let mut cleaned = String::new();
    let mut k: usize = 0;
    assert(parts.take(0) =~= Seq::empty());
    while k < ranges.len()
        invariant
            k <= ranges@.len(),
            chars@ == text@,
            parts == cut(chars@, ranges@),
            ranges_within(ranges@, chars@.len()),
            cleaned@ == joined(parts.take(k as int)),
        decreases ranges@.len() - k,
    {
        let (from, to) = ranges[k];
        cleaned.append(text.substring_char(from, to));
        proof {
            assert(parts.take(k + 1).drop_last() =~= parts.take(k as int));
            assert(parts.take(k + 1).last() == chars@.subrange(from as int, to as int));
        }
        k = k + 1;
    }
    assert(parts.take(parts.len() as int) =~= parts);
    cleaned
}

/// Whether `chars[from..to]` reads a given word.
pub fn reads(chars: &[char], from: usize, to: usize, word: &str) -> (same: bool)
    requires
        from <= to <= chars@.len(),
    ensures
        same == (chars@.subrange(from as int, to as int) == word@),
{
    let expected = to_chars(word);
    let ghost text = chars@.subrange(from as int, to as int);
    if to - from != expected.len() {
        return false;
    }
    let mut i: usize = 0;
    while i < expected.len()
        invariant
            from <= to <= chars@.len(),
            text == chars@.subrange(from as int, to as int),
            expected@ == word@,
            text.len() == expected@.len(),
            i <= expected@.len(),
            forall|j: int| 0 <= j < i ==> text[j] == expected@[j],
        decreases expected@.len() - i,
    {
        if chars[from + i] != expected[i] {
            assert(text[i as int] != expected@[i as int]);
            return false;
        }
        i = i + 1;
    }
    assert(text =~= expected@);
    true
}

} // verus!
