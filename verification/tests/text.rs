use datafusion_csv::text::{
    chars_of, contains_char, eq_ignore_ascii_case, is_bool_token, is_float_literal,
    is_whitespace, parse_bool, parse_int64, push_decimal, same_text, starts_with, string_of, trim,
};

fn float_ok(text: &str) -> bool {
    is_float_literal(&chars_of(text))
}

fn int_of(text: &str) -> Option<i64> {
    parse_int64(&chars_of(text))
}

fn words(alphabet: &[char], max_len: usize) -> Vec<String> {
    let mut all = vec![String::new()];
    let mut last = vec![String::new()];
    for _ in 0..max_len {
        let mut next = Vec::new();
        for word in &last {
            for c in alphabet {
                let mut longer = word.clone();
                longer.push(*c);
                next.push(longer);
            }
        }
        all.extend(next.iter().cloned());
        last = next;
    }
    all
}

#[test]
fn chars_and_strings_round_trip() {
    for text in ["", "a", "héllo wörld", "日本語", "a\tb\n", "🦀 crab"] {
        let chars = chars_of(text);
        let expected: Vec<char> = text.chars().collect();
        assert_eq!(chars, expected);
        assert_eq!(string_of(&chars), text);
    }
}

#[test]
fn whitespace_is_what_std_calls_whitespace() {
    for code in 0u32..=0x10FFFF {
        if let Some(c) = char::from_u32(code) {
            assert_eq!(is_whitespace(c), c.is_whitespace(), "U+{:04X}", code);
        }
    }
}

#[test]
fn trim_agrees_with_std() {
    let samples = [
        "",
        " ",
        "  \t\n",
        "a",
        " a",
        "a ",
        "  a b  ",
        "\u{3000}x\u{2028}",
        "\u{A0}\u{1680}y z\u{85}",
        "\u{200B}x\u{200B}",
        "\n\n30\r\n",
    ];
    for text in samples {
        let chars = chars_of(text);
        assert_eq!(string_of(trim(&chars)), text.trim(), "{:?}", text);
    }
}

#[test]
fn case_insensitive_comparison_agrees_with_std() {
    let samples = ["", "true", "TRUE", "TrUe", "tru", "truee", "false", "fAlSe", "K", "k", "@", "`", "[", "{", "é", "É"];
    for a in samples {
        for b in samples {
            assert_eq!(
                eq_ignore_ascii_case(&chars_of(a), &chars_of(b)),
                a.eq_ignore_ascii_case(b),
                "{:?} {:?}",
                a,
                b
            );
        }
    }
}

#[test]
fn text_helpers() {
    assert!(same_text(&chars_of("abc"), &chars_of("abc")));
    assert!(!same_text(&chars_of("abc"), &chars_of("abd")));
    assert!(!same_text(&chars_of("abc"), &chars_of("ab")));
    assert!(same_text(&chars_of(""), &chars_of("")));
    assert!(contains_char(&chars_of("1.5"), '.'));
    assert!(!contains_char(&chars_of("15"), '.'));
    assert!(!contains_char(&chars_of(""), '.'));
    assert!(starts_with(&chars_of("http://x"), &chars_of("http://")));
    assert!(!starts_with(&chars_of("http:/x"), &chars_of("http://")));
    assert!(starts_with(&chars_of("x"), &chars_of("")));
    assert!(!starts_with(&chars_of(""), &chars_of("x")));
}

#[test]
fn bool_tokens_in_any_case() {
    for text in ["true", "false", "TRUE", "False", "tRuE", "FALSE"] {
        assert!(is_bool_token(&chars_of(text)), "{}", text);
    }
    for text in ["", "t", "tru", "truth", "yes", "0", "1", " true", "true ", "falsee"] {
        assert!(!is_bool_token(&chars_of(text)), "{:?}", text);
    }
}

#[test]
fn booleans_parse_as_std_parses_them() {
    for text in ["true", "false", "True", "FALSE", "", "t", "1", "0", " true", "true\n", "truefalse"] {
        assert_eq!(parse_bool(&chars_of(text)), text.parse::<bool>().ok(), "{:?}", text);
    }
    assert_eq!(parse_bool(&chars_of("true")), Some(true));
    assert_eq!(parse_bool(&chars_of("false")), Some(false));
    assert_eq!(parse_bool(&chars_of("TRUE")), None);
}

#[test]
fn integers_parse_as_std_parses_them() {
    let samples = [
        "0",
        "-0",
        "+0",
        "7",
        "-7",
        "+7",
        "007",
        "30",
        "9223372036854775807",
        "9223372036854775808",
        "-9223372036854775808",
        "-9223372036854775809",
        "+9223372036854775807",
        "+9223372036854775808",
        "00000000000000000000000000009223372036854775807",
        "-00000000000000000000000000009223372036854775808",
        "18446744073709551615",
        "18446744073709551616",
        "99999999999999999999999999999999999999",
        "92233720368547758070",
        "",
        "+",
        "-",
        "+-1",
        "--1",
        "1-",
        "1+1",
        " 1",
        "1 ",
        "1_000",
        "1.0",
        "1e3",
        "0x10",
        "١٢٣",
        "12a",
        "a12",
        "99999999999999999999x",
    ];
    for text in samples {
        assert_eq!(int_of(text), text.parse::<i64>().ok(), "{:?}", text);
    }
    assert_eq!(int_of("30"), Some(30));
    assert_eq!(int_of("-9223372036854775808"), Some(i64::MIN));
    assert_eq!(int_of("9223372036854775807"), Some(i64::MAX));
    assert_eq!(int_of("9223372036854775808"), None);
}

#[test]
fn integers_parse_as_std_parses_them_on_every_short_word() {
    for word in words(&['+', '-', '0', '1', '9', ' ', '.'], 5) {
        assert_eq!(int_of(&word), word.parse::<i64>().ok(), "{:?}", word);
    }
}

#[test]
fn float_literals_are_what_std_parses() {
    let samples = [
        "0", "1", "-1", "+1", "1.", ".1", "1.5", "-1.5e10", "1e5", "1E5", "1e+5", "1e-5", "1.e5",
        ".5E+3", "2.5", "3.14159", "00012.500", "1e400", "1e-400", "inf", "-inf", "+inf", "INF",
        "Infinity", "infinity", "-INFINITY", "iNfInItY", "nan", "NaN", "-nan", "+NAN", "", "+",
        "-", ".", "+.", "e", "e5", ".e5", "1e", "1e+", "1e-", "1e5.0", "1.5.2", "1..5", "1 ",
        " 1", "1_0", "0x10", "infinit", "infinityy", "in", "na", "nane", "1f", "1.0f64", "--1",
        "+-1", "1e++5", "x", "abc", "true", "١٫٥", "1,5", "1e5e5", "..", "-.e1", "-.5e1",
    ];
    for text in samples {
        assert_eq!(float_ok(text), text.parse::<f64>().is_ok(), "{:?}", text);
    }
    assert!(float_ok("2.5"));
    assert!(float_ok("30"));
    assert!(!float_ok("x"));
    assert!(!float_ok(""));
}

#[test]
fn float_literals_are_what_std_parses_on_every_short_word() {
    let alphabet = ['+', '-', '.', 'e', 'E', '0', '7', 'i', 'n', 'f', 'a', 'N', ' '];
    for word in words(&alphabet, 5) {
        assert_eq!(float_ok(&word), word.parse::<f64>().is_ok(), "{:?}", word);
    }
}

#[test]
fn special_floats_in_every_case() {
    for word in ["inf", "infinity", "nan"] {
        let letters: Vec<char> = word.chars().collect();
        for mask in 0u32..(1 << letters.len()) {
            let mixed: String = letters
                .iter()
                .enumerate()
                .map(|(i, c)| if mask & (1 << i) != 0 { c.to_ascii_uppercase() } else { *c })
                .collect();
            for sign in ["", "+", "-"] {
                let text = format!("{}{}", sign, mixed);
                assert!(text.parse::<f64>().is_ok());
                assert!(float_ok(&text), "{:?}", text);
            }
        }
    }
}

#[test]
fn decimal_rendering_agrees_with_format() {
    for n in [0usize, 1, 9, 10, 11, 42, 99, 100, 101, 999, 1000, 65535, 1234567890, usize::MAX] {
        let mut out = vec!['c', '_'];
        push_decimal(&mut out, n);
        assert_eq!(string_of(&out), format!("c_{}", n));
    }
    for n in 0usize..2000 {
        let mut out = Vec::new();
        push_decimal(&mut out, n);
        assert_eq!(string_of(&out), format!("{}", n));
    }
}
