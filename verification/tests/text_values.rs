use generator_android::sorted::{sorted_unique_strings, str_lt};
use generator_android::style_values::{
    compose_color_value, compose_scale_literal, compose_scale_value, ColorToken, ResponsiveEntry, ResponsiveValue,
    ScaleValue,
};
use generator_android::text::{
    compose_optional_decimal, compose_optional_field, compose_optional_string, compose_string_literal,
    decimal_string, escape_android_xml, escape_kotlin, pad, str_eq,
};

fn responsive<T>(entries: Vec<(&str, T)>) -> ResponsiveValue<T> {
    ResponsiveValue {
        entries: entries
            .into_iter()
            .map(|(breakpoint, value)| ResponsiveEntry { breakpoint: breakpoint.to_string(), value })
            .collect(),
    }
}

#[test]
fn escape_kotlin_escapes_every_special_character() {
    assert_eq!(escape_kotlin("a\"b$c\\d\ne\rf\tg"), "a\\\"b\\$c\\\\d\\ne\\rf\\tg");
}

#[test]
fn escape_kotlin_keeps_plain_text() {
    assert_eq!(escape_kotlin("Hello, world"), "Hello, world");
    assert_eq!(escape_kotlin(""), "");
    assert_eq!(escape_kotlin("héllo ✓"), "héllo ✓");
}

#[test]
fn string_literals_are_quoted_and_escaped() {
    assert_eq!(compose_string_literal("say \"hi\""), "\"say \\\"hi\\\"\"");
    assert_eq!(compose_optional_string(Some("x")), "\"x\"");
    assert_eq!(compose_optional_string(None), "null");
    assert_eq!(compose_optional_field(&Some("$v".to_string())), "\"\\$v\"");
    assert_eq!(compose_optional_field(&None), "null");
}

#[test]
fn escape_android_xml_escapes_markup() {
    assert_eq!(escape_android_xml("a<b>&\"c'd"), "a&lt;b&gt;&amp;&quot;c\\'d");
    assert_eq!(escape_android_xml("plain text"), "plain text");
}

#[test]
fn decimal_texts() {
    assert_eq!(decimal_string(0), "0");
    assert_eq!(decimal_string(7), "7");
    assert_eq!(decimal_string(1234567890), "1234567890");
    assert_eq!(decimal_string(u64::MAX), "18446744073709551615");
    assert_eq!(compose_optional_decimal(Some(30)), "30");
    assert_eq!(compose_optional_decimal(None), "null");
}

#[test]
fn padding_is_spaces() {
    assert_eq!(pad(0), "");
    assert_eq!(pad(4), "    ");
}

#[test]
fn string_equality() {
    assert!(str_eq("abc", "abc"));
    assert!(!str_eq("abc", "abd"));
    assert!(!str_eq("abc", "ab"));
    assert!(str_eq("", ""));
}

#[test]
fn text_order_is_character_order() {
    assert!(str_lt("ab", "b"));
    assert!(str_lt("", "a"));
    assert!(str_lt("a", "ab"));
    assert!(!str_lt("a", "a"));
    assert!(!str_lt("b", "ab"));
    assert!(str_lt("A", "a"));
}

#[test]
fn sorted_unique_sorts_and_drops_repeats() {
    let values = vec!["pear".to_string(), "apple".to_string(), "pear".to_string(), "fig".to_string(), "apple".to_string()];
    assert_eq!(sorted_unique_strings(values), vec!["apple".to_string(), "fig".to_string(), "pear".to_string()]);
    assert_eq!(sorted_unique_strings(Vec::new()), Vec::<String>::new());
}

#[test]
fn scale_values_are_dp() {
    assert_eq!(compose_scale_literal(ScaleValue { native_units: 16 }), "16.dp");
    let value = responsive(vec![("base", ScaleValue { native_units: 8 }), ("md", ScaleValue { native_units: 24 })]);
    assert_eq!(compose_scale_value(&value), "doweResponsive(viewportWidth, base = 8.dp, md = 24.dp)");
}

#[test]
fn color_values_use_references() {
    let value = responsive(vec![("base", ColorToken { reference: "DoweDesign.primary".to_string() })]);
    assert_eq!(compose_color_value(&value), "doweResponsive(viewportWidth, base = DoweDesign.primary)");
}
