use hrdf_parser::grammar::{Grammar, Step, Token};
use hrdf_parser::lines::read_lines;
use hrdf_parser::text::{
    is_blank_line, is_float_literal, is_whitespace_char, parse_i16, parse_i32, remove_char,
    split_ranges, text_to_i32, trim_range, word_ranges,
};

/// All texts over an alphabet up to a length.
fn texts_over(alphabet: &[char], max_len: usize) -> Vec<String> {
    let mut all = vec![String::new()];
    let mut last = vec![String::new()];
    for _ in 0..max_len {
        let mut next = Vec::new();
        for text in &last {
            for c in alphabet {
                let mut longer = text.clone();
                longer.push(*c);
                next.push(longer);
            }
        }
        all.extend(next.iter().cloned());
        last = next;
    }
    all
}

#[test]
fn whitespace_is_what_the_standard_library_calls_whitespace() {
    for code in 0..=0x10FFFFu32 {
        if let Some(c) = char::from_u32(code) {
            assert_eq!(is_whitespace_char(c), c.is_whitespace(), "{:x}", code);
        }
    }
}

#[test]
fn trimming_is_what_the_standard_library_does() {
    let alphabet = [' ', '\t', 'a', '\u{a0}', 'é', '\n'];
    for text in texts_over(&alphabet, 5) {
        let chars: Vec<char> = text.chars().collect();
        let (from, to) = trim_range(&chars, 0, chars.len());
        let trimmed: String = chars[from..to].iter().collect();
        assert_eq!(trimmed, text.trim(), "{:?}", text);
        assert_eq!(is_blank_line(&chars), text.trim().is_empty());
    }
    let chars: Vec<char> = "ab  cd  ef".chars().collect();
    assert_eq!(trim_range(&chars, 2, 8), (4, 6));
}

#[test]
fn integers_are_read_as_the_standard_library_reads_them() {
    let alphabet = ['0', '1', '9', '+', '-', ' '];
    for text in texts_over(&alphabet, 6) {
        let chars: Vec<char> = text.chars().collect();
        assert_eq!(parse_i32(&chars, 0, chars.len()), text.parse::<i32>().ok(), "{:?}", text);
        assert_eq!(parse_i16(&chars, 0, chars.len()), text.parse::<i16>().ok(), "{:?}", text);
    }
    for text in [
        "2147483647",
        "2147483648",
        "-2147483648",
        "-2147483649",
        "+2147483647",
        "32767",
        "32768",
        "-32768",
        "-32769",
        "000000000000000000000000000001",
        "99999999999999999999999999999999999999",
        "-0",
        "+",
        "-",
        "",
        "١٢",
    ] {
        let chars: Vec<char> = text.chars().collect();
        assert_eq!(parse_i32(&chars, 0, chars.len()), text.parse::<i32>().ok(), "{:?}", text);
        assert_eq!(parse_i16(&chars, 0, chars.len()), text.parse::<i16>().ok(), "{:?}", text);
        assert_eq!(text_to_i32(text), text.parse::<i32>().ok());
    }
}

#[test]
fn real_numbers_are_told_as_the_standard_library_tells_them() {
    let alphabet = ['0', '7', '+', '-', '.', 'e', 'E', 'i', 'n', 'f', 'a', 'N', ' '];
    for text in texts_over(&alphabet, 5) {
        let chars: Vec<char> = text.chars().collect();
        assert_eq!(
            is_float_literal(&chars, 0, chars.len()),
            text.parse::<f64>().is_ok(),
            "{:?}",
            text
        );
    }
    for text in
        ["infinity", "-Infinity", "+INFINITY", "infinit", "infinityy", "nan", "-nan", "1e400", "1_000", "1e+5", "1e-", "0x1p3", "١"]
    {
        let chars: Vec<char> = text.chars().collect();
        assert_eq!(
            is_float_literal(&chars, 0, chars.len()),
            text.parse::<f64>().is_ok(),
            "{:?}",
            text
        );
    }
}

#[test]
fn lines_are_what_the_standard_library_calls_lines() {
    let alphabet = ['a', '\r', '\n', 'é', ' '];
    for text in texts_over(&alphabet, 6) {
        let rows = read_lines(text.as_bytes(), 0).unwrap();
        let expected: Vec<String> = text.lines().map(String::from).collect();
        assert_eq!(rows, expected, "{:?}", text);
    }
    assert_eq!(read_lines("a\r\nb".as_bytes(), 3), Some(vec!["b".to_string()]));
    assert_eq!(read_lines("a\r\nb".as_bytes(), 4), Some(vec![]));
    assert_eq!(read_lines("a\r\nb".as_bytes(), 4000), Some(vec![]));
    assert_eq!(read_lines("é\n".as_bytes(), 1), None);
    assert_eq!(read_lines(&[b'a', b'\n', 0xC3], 0), None);
    assert_eq!(read_lines(&[b'a', b'\n', 0xC3], 3), Some(vec![]));
}

#[test]
fn texts_are_split_as_the_standard_library_splits_them() {
    let alphabet = ['a', '$', ' ', 'é'];
    for text in texts_over(&alphabet, 6) {
        let chars: Vec<char> = text.chars().collect();
        let parts: Vec<String> = split_ranges(&chars, 0, chars.len(), '$')
            .into_iter()
            .map(|(from, to)| chars[from..to].iter().collect())
            .collect();
        let expected: Vec<String> = text.split('$').map(String::from).collect();
        assert_eq!(parts, expected, "{:?}", text);
        let words: Vec<String> = word_ranges(&chars, 0, chars.len())
            .into_iter()
            .map(|(from, to)| chars[from..to].iter().collect())
            .collect();
        let expected: Vec<String> = text.split_whitespace().map(String::from).collect();
        assert_eq!(words, expected, "{:?}", text);
        assert_eq!(remove_char(&text, '$'), text.replace('$', ""));
    }
}

#[test]
fn tokens_match_as_described() {
    let step = |token| Step { token, capture: true };
    let one = |token| Grammar::new(vec![step(token)]);
    assert_eq!(one(Token::Take(2)).parse("abc"), Some(vec!["ab".to_string()]));
    assert_eq!(one(Token::Take(4)).parse("abc"), None);
    assert_eq!(one(Token::Take(0)).parse(""), Some(vec!["".to_string()]));
    assert_eq!(one(Token::OptTake(2)).parse("abc"), Some(vec!["ab".to_string()]));
    assert_eq!(one(Token::OptTake(4)).parse("abc"), Some(vec!["".to_string()]));
    assert_eq!(one(Token::Space1).parse(" \t x"), Some(vec![" \t ".to_string()]));
    assert_eq!(one(Token::Space1).parse("x "), None);
    assert_eq!(one(Token::Space1).parse("\u{a0}x"), None);
    assert_eq!(one(Token::Digit1).parse("0129a"), Some(vec!["0129".to_string()]));
    assert_eq!(one(Token::Digit1).parse("a1"), None);
    assert_eq!(one(Token::Tag("é#")).parse("é#x"), Some(vec!["é#".to_string()]));
    assert_eq!(one(Token::Tag("é#")).parse("é"), None);
    assert_eq!(one(Token::Tag("")).parse("x"), Some(vec!["".to_string()]));
    assert_eq!(one(Token::Rest).parse(""), Some(vec!["".to_string()]));
    assert_eq!(one(Token::Rest).parse("a b"), Some(vec!["a b".to_string()]));
    assert_eq!(one(Token::TakeTill(' ')).parse("ab cd"), Some(vec!["ab".to_string()]));
    assert_eq!(one(Token::TakeTill(' ')).parse(" ab"), Some(vec!["".to_string()]));
    assert_eq!(one(Token::TakeTill(' ')).parse("ab"), Some(vec!["ab".to_string()]));
    let whole = Grammar::recognize(vec![
        Step { token: Token::Take(2), capture: false },
        Step { token: Token::Tag("."), capture: true },
        Step { token: Token::Take(2), capture: false },
    ]);
    assert_eq!(whole.parse("10.12.2023"), Some(vec!["10.12".to_string()]));
    assert_eq!(whole.parse("10-12"), None);
    let none = Grammar::new(vec![Step { token: Token::Tag("%"), capture: false }]);
    assert_eq!(none.parse("% note"), Some(vec![]));
}
