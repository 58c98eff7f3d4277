//! Script values: their JSON-shaped text, their truth, and numbers as pixel
//! counts.

use servo_scraper::interpret::{condition_holds, eval_outcome, selector_found};
use servo_scraper::value::is_truthy;
use servo_scraper::{js_string_literal, jsvalue_to_json, JsNumber, JsValue, PageError};

fn number(value: f64) -> JsValue {
    JsValue::Number(num(value))
}

fn num(value: f64) -> JsNumber {
    JsNumber {
        bits: value.to_bits(),
        text: serde_json::to_string(&value).unwrap(),
    }
}

#[test]
fn string_literal_escapes_quotes_and_backslashes() {
    assert_eq!(js_string_literal("plain"), "\"plain\"");
    assert_eq!(js_string_literal(""), "\"\"");
    assert_eq!(js_string_literal("a\"b"), "\"a\\\"b\"");
    assert_eq!(js_string_literal("a\\b"), "\"a\\\\b\"");
    assert_eq!(js_string_literal("it's"), "\"it's\"");
    assert_eq!(
        js_string_literal("input[name=\"q\"]"),
        "\"input[name=\\\"q\\\"]\""
    );
}

#[test]
fn string_literal_escapes_control_characters() {
    assert_eq!(js_string_literal("\n"), "\"\\n\"");
    assert_eq!(js_string_literal("\r"), "\"\\r\"");
    assert_eq!(js_string_literal("\t"), "\"\\t\"");
    assert_eq!(js_string_literal("\u{8}"), "\"\\b\"");
    assert_eq!(js_string_literal("\u{c}"), "\"\\f\"");
    assert_eq!(js_string_literal("\u{0}"), "\"\\u0000\"");
    assert_eq!(js_string_literal("\u{b}"), "\"\\u000b\"");
    assert_eq!(js_string_literal("\u{1f}"), "\"\\u001f\"");
    assert_eq!(js_string_literal("\u{7f}"), "\"\u{7f}\"");
    assert_eq!(js_string_literal(" "), "\" \"");
}

#[test]
fn string_literal_matches_the_escape_table_for_every_ascii_character() {
    for code in 0u8..128 {
        let c = code as char;
        let expected = match code {
            0x22 => "\\\"".to_string(),
            0x5C => "\\\\".to_string(),
            0x08 => "\\b".to_string(),
            0x09 => "\\t".to_string(),
            0x0A => "\\n".to_string(),
            0x0C => "\\f".to_string(),
            0x0D => "\\r".to_string(),
            c if c < 0x20 => format!("\\u00{:x}{:x}", c / 16, c % 16),
            _ => c.to_string(),
        };
        assert_eq!(
            js_string_literal(&c.to_string()),
            format!("\"{expected}\""),
            "character {code:#x}"
        );
    }
}

#[test]
fn string_literal_leaves_other_scripts_alone() {
    assert_eq!(js_string_literal("héllo"), "\"héllo\"");
    assert_eq!(js_string_literal("日本語"), "\"日本語\"");
    assert_eq!(js_string_literal("\u{2028}"), "\"\u{2028}\"");
}

#[test]
fn json_of_scalars() {
    assert_eq!(jsvalue_to_json(&JsValue::Undefined), "undefined");
    assert_eq!(jsvalue_to_json(&JsValue::Null), "null");
    assert_eq!(jsvalue_to_json(&JsValue::Boolean(true)), "true");
    assert_eq!(jsvalue_to_json(&JsValue::Boolean(false)), "false");
    assert_eq!(jsvalue_to_json(&number(4.0)), "4.0");
    assert_eq!(jsvalue_to_json(&number(-0.5)), "-0.5");
    assert_eq!(jsvalue_to_json(&number(f64::NAN)), "null");
    assert_eq!(
        jsvalue_to_json(&JsValue::String("a \"b\"".to_string())),
        "\"a \\\"b\\\"\""
    );
}

#[test]
fn json_of_handles_is_a_typed_placeholder() {
    let id = "7f3a".to_string();
    assert_eq!(
        jsvalue_to_json(&JsValue::Element(id.clone())),
        "\"[Element:7f3a]\""
    );
    assert_eq!(
        jsvalue_to_json(&JsValue::ShadowRoot(id.clone())),
        "\"[ShadowRoot:7f3a]\""
    );
    assert_eq!(
        jsvalue_to_json(&JsValue::Frame(id.clone())),
        "\"[Frame:7f3a]\""
    );
    assert_eq!(jsvalue_to_json(&JsValue::Window(id)), "\"[Window:7f3a]\"");
    assert_eq!(
        jsvalue_to_json(&JsValue::Element("a\"b".to_string())),
        "\"[Element:a\\\"b]\""
    );
}

#[test]
fn json_of_arrays_and_objects() {
    assert_eq!(jsvalue_to_json(&JsValue::Array(vec![])), "[]");
    assert_eq!(jsvalue_to_json(&JsValue::Object(vec![])), "{}");
    assert_eq!(jsvalue_to_json(&JsValue::Array(vec![number(1.0)])), "[1.0]");
    let nested = JsValue::Array(vec![
        number(1.0),
        JsValue::Null,
        JsValue::Array(vec![JsValue::Boolean(true), JsValue::Undefined]),
        JsValue::Object(vec![
            ("k".to_string(), JsValue::String("v".to_string())),
            ("a\"b".to_string(), JsValue::Array(vec![])),
        ]),
    ]);
    assert_eq!(
        jsvalue_to_json(&nested),
        "[1.0,null,[true,undefined],{\"k\":\"v\",\"a\\\"b\":[]}]"
    );
}

#[test]
fn truth_of_values() {
    assert!(is_truthy(&JsValue::Boolean(true)));
    assert!(!is_truthy(&JsValue::Boolean(false)));
    assert!(is_truthy(&number(1.0)));
    assert!(is_truthy(&number(-3.5)));
    assert!(is_truthy(&number(f64::MIN_POSITIVE)));
    assert!(is_truthy(&number(5e-324)));
    assert!(is_truthy(&number(f64::INFINITY)));
    assert!(is_truthy(&number(f64::NAN)));
    assert!(!is_truthy(&number(0.0)));
    assert!(!is_truthy(&number(-0.0)));
    assert!(is_truthy(&JsValue::String("x".to_string())));
    assert!(is_truthy(&JsValue::String(" ".to_string())));
    assert!(!is_truthy(&JsValue::String(String::new())));
    assert!(is_truthy(&JsValue::Array(vec![])));
    assert!(is_truthy(&JsValue::Object(vec![])));
    assert!(!is_truthy(&JsValue::Null));
    assert!(!is_truthy(&JsValue::Undefined));
    assert!(!is_truthy(&JsValue::Element("e".to_string())));
    assert!(!is_truthy(&JsValue::Window("w".to_string())));
}

#[test]
fn zero_is_told_by_the_bits() {
    assert!(num(0.0).is_zero());
    assert!(num(-0.0).is_zero());
    assert!(!num(1.0).is_zero());
    assert!(!num(f64::NAN).is_zero());
    assert!(!num(5e-324).is_zero());
}

#[test]
fn numbers_as_pixel_counts_agree_with_the_cast() {
    let samples = [
        0.0,
        -0.0,
        0.4,
        0.5,
        0.999_999_9,
        1.0,
        1.5,
        2.0,
        599.0,
        600.0,
        600.9,
        3000.0,
        3000.499,
        65_535.99,
        1e9,
        2_147_483_647.0,
        2_147_483_648.0,
        4_294_967_294.5,
        4_294_967_295.0,
        4_294_967_295.9,
        4_294_967_296.0,
        1e10,
        1e300,
        f64::MAX,
        f64::INFINITY,
        f64::NEG_INFINITY,
        f64::NAN,
        -1.0,
        -3000.0,
        f64::MIN_POSITIVE,
        5e-324,
        9_007_199_254_740_992.0,
    ];
    for value in samples {
        assert_eq!(num(value).to_u32(), value as u32, "value {value}");
    }
    assert_eq!(num(3000.7).to_u32(), 3000);
    assert_eq!(num(-5.0).to_u32(), 0);
    assert_eq!(num(f64::NAN).to_u32(), 0);
    assert_eq!(num(1e12).to_u32(), u32::MAX);
}

#[test]
fn numbers_as_pixel_counts_agree_with_the_cast_on_many_patterns() {
    let mut bits: u64 = 0x0123_4567_89AB_CDEF;
    for _ in 0..20_000 {
        bits = bits
            .wrapping_mul(6_364_136_223_846_793_005)
            .wrapping_add(1_442_695_040_888_963_407);
        let exponent = 1000 + (bits >> 58);
        let pattern = (bits & 0x800F_FFFF_FFFF_FFFF) | (exponent << 52);
        let value = f64::from_bits(pattern);
        let n = JsNumber {
            bits: pattern,
            text: String::new(),
        };
        assert_eq!(n.to_u32(), value as u32, "pattern {pattern:#x}");
    }
}

#[test]
fn eval_outcome_tells_value_failure_and_timeout_apart() {
    match eval_outcome(true, Some(Ok(JsValue::Null))) {
        Ok(JsValue::Null) => {}
        other => panic!("expected the value, got: {other:?}"),
    }
    match eval_outcome(true, Some(Err("ReferenceError".to_string()))) {
        Err(PageError::JsError(text)) => assert_eq!(text, "ReferenceError"),
        other => panic!("expected JsError, got: {other:?}"),
    }
    assert!(matches!(
        eval_outcome(false, None),
        Err(PageError::Timeout)
    ));
    assert!(matches!(eval_outcome(true, None), Err(PageError::Timeout)));
    assert!(matches!(
        eval_outcome(false, Some(Ok(JsValue::Null))),
        Err(PageError::Timeout)
    ));
    assert!(matches!(
        eval_outcome(false, Some(Err("late".to_string()))),
        Err(PageError::Timeout)
    ));
}

#[test]
fn only_true_says_that_a_selector_is_there() {
    assert!(selector_found(&Ok(JsValue::Boolean(true))));
    assert!(!selector_found(&Ok(JsValue::Boolean(false))));
    assert!(!selector_found(&Ok(number(1.0))));
    assert!(!selector_found(&Ok(JsValue::String("true".to_string()))));
    assert!(!selector_found(&Err(PageError::Timeout)));
    assert!(!selector_found(&Err(PageError::JsError("x".to_string()))));
}

#[test]
fn a_failed_evaluation_holds_no_condition() {
    assert!(condition_holds(&Ok(number(2.0))));
    assert!(condition_holds(&Ok(JsValue::Array(vec![]))));
    assert!(!condition_holds(&Ok(number(0.0))));
    assert!(!condition_holds(&Ok(JsValue::Null)));
    assert!(!condition_holds(&Err(PageError::Timeout)));
}
