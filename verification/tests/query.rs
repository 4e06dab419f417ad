use app_insights_fetcher::query::{build_query, escape_kql_string};
use app_insights_fetcher::text::push_decimal;

fn decimal_of(n: u64) -> String {
    let mut out = String::new();
    push_decimal(&mut out, n);
    out
}

/// The position of the first double quote that no backslash escapes.
fn first_open_quote(text: &str) -> Option<usize> {
    let chars: Vec<char> = text.chars().collect();
    let mut i = 0;
    while i < chars.len() {
        if chars[i] == '"' {
            return Some(i);
        }
        if chars[i] == '\\' && i + 1 < chars.len() {
            i += 2;
        } else {
            i += 1;
        }
    }
    None
}

#[test]
fn decimal_of_zero_is_one_digit() {
    assert_eq!(decimal_of(0), "0");
}

#[test]
fn decimal_of_single_and_many_digits() {
    assert_eq!(decimal_of(7), "7");
    assert_eq!(decimal_of(10), "10");
    assert_eq!(decimal_of(24), "24");
    assert_eq!(decimal_of(1009), "1009");
    assert_eq!(decimal_of(4294967295), "4294967295");
}

#[test]
fn decimal_of_largest_value() {
    assert_eq!(decimal_of(u64::MAX), "18446744073709551615");
}

#[test]
fn decimal_is_appended_to_what_is_there() {
    let mut out = String::from("n=");
    push_decimal(&mut out, 305);
    assert_eq!(out, "n=305");
}

#[test]
fn escape_leaves_plain_text_alone() {
    assert_eq!(escape_kql_string("SqlException"), "SqlException");
    assert_eq!(escape_kql_string(""), "");
    assert_eq!(escape_kql_string("System.Net n r t"), "System.Net n r t");
}

#[test]
fn escape_writes_each_special_character_as_a_pair() {
    assert_eq!(escape_kql_string("\\"), "\\\\");
    assert_eq!(escape_kql_string("\""), "\\\"");
    assert_eq!(escape_kql_string("\n"), "\\n");
    assert_eq!(escape_kql_string("\r"), "\\r");
    assert_eq!(escape_kql_string("\t"), "\\t");
}

#[test]
fn escape_keeps_the_order_of_characters() {
    assert_eq!(escape_kql_string("a\"b\\c\nd\re\tf"), "a\\\"b\\\\c\\nd\\re\\tf");
}

#[test]
fn escape_does_not_escape_its_own_backslashes_twice() {
    assert_eq!(escape_kql_string("\\n"), "\\\\n");
    assert_eq!(escape_kql_string("\\\""), "\\\\\\\"");
    assert_eq!(escape_kql_string("\\\\"), "\\\\\\\\");
}

#[test]
fn escape_passes_other_characters_through() {
    assert_eq!(escape_kql_string("caf\u{e9} \u{1F389} 'x' \u{0}"), "caf\u{e9} \u{1F389} 'x' \u{0}");
}

#[test]
fn escaped_text_holds_no_raw_control_character() {
    let escaped = escape_kql_string("line1\nline2\r\n\tend");
    assert!(!escaped.contains('\n'));
    assert!(!escaped.contains('\r'));
    assert!(!escaped.contains('\t'));
    assert_eq!(escaped, "line1\\nline2\\r\\n\\tend");
}

#[test]
fn escaped_value_cannot_close_its_quotes() {
    let values = ["x\" or \"1\"==\"1", "\\", "\\\"", "a\\\\\"b", "\"", "plain", "", "\n\"\t"];
    for value in values {
        let escaped = escape_kql_string(value);
        let quoted = format!("{}\" | limit 1", escaped);
        assert_eq!(first_open_quote(&quoted), Some(escaped.chars().count()));
    }
}

#[test]
fn query_without_filters() {
    let query = build_query(24, 50, None, None);
    let expected = "\n        exceptions\n        | where timestamp > ago(24h)\n        \n        \n        | project timestamp, type, outerMessage, operation_Name\n        | order by timestamp desc\n        | limit 50\n        ";
    assert_eq!(query, expected);
    assert!(query.contains("| where timestamp > ago(24h)"));
    assert!(query.contains("| limit 50"));
    assert!(!query.contains("where type"));
    assert!(!query.contains("outerMessage contains"));
}

#[test]
fn query_with_type_filter() {
    let query = build_query(1, 5, Some("SqlException"), None);
    let expected = "\n        exceptions\n        | where timestamp > ago(1h)\n        | where type == \"SqlException\"\n        \n        | project timestamp, type, outerMessage, operation_Name\n        | order by timestamp desc\n        | limit 5\n        ";
    assert_eq!(query, expected);
}

#[test]
fn query_with_message_filter() {
    let query = build_query(72, 100, None, Some("timed out"));
    let expected = "\n        exceptions\n        | where timestamp > ago(72h)\n        \n        | where outerMessage contains \"timed out\"\n        | project timestamp, type, outerMessage, operation_Name\n        | order by timestamp desc\n        | limit 100\n        ";
    assert_eq!(query, expected);
}

#[test]
fn query_with_both_filters_applies_type_first() {
    let query = build_query(24, 50, Some("A"), Some("B"));
    let type_at = query.find("| where type == \"A\"").unwrap();
    let message_at = query.find("| where outerMessage contains \"B\"").unwrap();
    let project_at = query.find("| project timestamp, type, outerMessage, operation_Name").unwrap();
    let order_at = query.find("| order by timestamp desc").unwrap();
    let limit_at = query.find("| limit 50").unwrap();
    let window_at = query.find("| where timestamp > ago(24h)").unwrap();
    assert!(window_at < type_at);
    assert!(type_at < message_at);
    assert!(message_at < project_at);
    assert!(project_at < order_at);
    assert!(order_at < limit_at);
}

#[test]
fn query_escapes_the_type_filter() {
    let query = build_query(24, 50, Some("a\"b\\c\nd\re\tf"), None);
    assert!(query.contains("| where type == \"a\\\"b\\\\c\\nd\\re\\tf\"\n"));
    assert!(!query.contains('\r'));
    assert!(!query.contains('\t'));
}

#[test]
fn query_escapes_the_message_filter() {
    let query = build_query(24, 50, None, Some("\" | take 0 //"));
    assert!(query.contains("| where outerMessage contains \"\\\" | take 0 //\"\n"));
}

#[test]
fn query_clause_of_each_special_character_holds_it_escaped_only() {
    let specials = ["\\", "\"", "\n", "\r", "\t"];
    let written = ["\\\\", "\\\"", "\\n", "\\r", "\\t"];
    for i in 0..specials.len() {
        let value = format!("x{}y", specials[i]);
        let query = build_query(24, 50, Some(&value), Some(&value));
        let type_clause = format!("| where type == \"x{}y\"\n", written[i]);
        let message_clause = format!("| where outerMessage contains \"x{}y\"\n", written[i]);
        assert!(query.contains(&type_clause));
        assert!(query.contains(&message_clause));
    }
}

#[test]
fn query_passes_zero_through() {
    let query = build_query(0, 0, None, None);
    assert!(query.contains("| where timestamp > ago(0h)"));
    assert!(query.contains("| limit 0\n"));
}

#[test]
fn query_writes_the_largest_numbers_in_full() {
    let query = build_query(u32::MAX, u32::MAX, None, None);
    assert!(query.contains("ago(4294967295h)"));
    assert!(query.contains("| limit 4294967295\n"));
}

#[test]
fn query_with_empty_filter_keeps_an_empty_value() {
    let query = build_query(24, 50, Some(""), Some(""));
    assert!(query.contains("| where type == \"\"\n"));
    assert!(query.contains("| where outerMessage contains \"\"\n"));
}
