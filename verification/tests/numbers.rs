use expense_tracker::utils::numbers::{check_float_literal, decimal_text, parse_month};

#[test]
fn float_literals_are_what_std_parses() {
    let samples = [
        "", "0", "4.5", "-4.5", "+4.5", "4.", ".5", ".", "+", "-", "+.", "1e5", "1E5", "1e+5",
        "1e-5", "1e", "1e+", "e5", ".e5", "1.e5", ".5e-3", "1.5.2", "1e5.0", "inf", "-inf", "+inf",
        "INF", "Infinity", "-infinity", "infinit", "nan", "NaN", "-nan", "nana", "0x10", "1_000",
        "1,5", " 1", "1 ", "--1", "+-1", "12abc", "abc", "١٢", "1e400", "1e-400",
        "000000000000000000000000000000000000001", "1f64", "é",
    ];
    for sample in samples {
        assert_eq!(check_float_literal(sample), sample.parse::<f64>().is_ok(), "{:?}", sample);
    }
}

#[test]
fn months_are_one_to_twelve() {
    assert_eq!(parse_month("1"), Some(1));
    assert_eq!(parse_month("12"), Some(12));
    assert_eq!(parse_month("+7"), Some(7));
    assert_eq!(parse_month("007"), Some(7));
    assert_eq!(parse_month("0"), None);
    assert_eq!(parse_month("13"), None);
    assert_eq!(parse_month(""), None);
    assert_eq!(parse_month("+"), None);
    assert_eq!(parse_month("-1"), None);
    assert_eq!(parse_month("3 4"), None);
    assert_eq!(parse_month("enero"), None);
    assert_eq!(parse_month("99999999999999999999"), None);
    assert_eq!(parse_month("120"), None);
}

#[test]
fn months_agree_with_std_on_samples() {
    let samples = ["1", "9", "10", "12", "13", "0", "+3", "++3", "03", "0012", "4294967297", "1a"];
    for sample in samples {
        let expected = match sample.parse::<u32>() {
            Ok(m) if (1..=12).contains(&m) => Some(m),
            _ => None,
        };
        assert_eq!(parse_month(sample), expected, "{:?}", sample);
    }
}

#[test]
fn decimal_text_writes_base_ten() {
    assert_eq!(decimal_text(0), "0");
    assert_eq!(decimal_text(7), "7");
    assert_eq!(decimal_text(10), "10");
    assert_eq!(decimal_text(-1), "-1");
    assert_eq!(decimal_text(1234567890), "1234567890");
    assert_eq!(decimal_text(i64::MAX), "9223372036854775807");
    assert_eq!(decimal_text(i64::MIN), "-9223372036854775808");
}

#[test]
fn float_literals_agree_with_std_on_many_texts() {
    let alphabet = ['0', '1', '9', '.', 'e', 'E', '+', '-', 'i', 'n', 'f', 'N', 'a', 't', 'y'];
    let mut seed: u64 = 11;
    let mut accepted = 0;
    for _ in 0..4000 {
        let mut text = String::new();
        seed = seed.wrapping_mul(6364136223846793005).wrapping_add(1442695040888963407);
        let length = ((seed >> 33) % 7) as usize;
        for _ in 0..length {
            seed = seed.wrapping_mul(6364136223846793005).wrapping_add(1442695040888963407);
            text.push(alphabet[((seed >> 33) % alphabet.len() as u64) as usize]);
        }
        let expected = text.parse::<f64>().is_ok();
        assert_eq!(check_float_literal(&text), expected, "{:?}", text);
        if expected {
            accepted += 1;
        }
    }
    assert!(accepted > 100);
}

#[test]
fn decimal_text_agrees_with_std_on_many_numbers() {
    let mut seed: u64 = 3;
    for _ in 0..300 {
        seed = seed.wrapping_mul(6364136223846793005).wrapping_add(1442695040888963407);
        let number = (seed as i64) >> (seed % 63);
        assert_eq!(decimal_text(number), number.to_string());
    }
}
