use todo_session::form::{form_value, ugly_form_body_parser};
use todo_session::http::{parse_method, split_target, Method};
use todo_session::router::{route, RouteTarget};
use todo_session::text::{find_char, parse_u64, str_eq, u64_to_string};

#[test]
fn form_parser_splits_pairs() {
    let pairs = ugly_form_body_parser("a=b&c=d");
    assert_eq!(pairs.len(), 2);
    assert_eq!(pairs[0].0, "a");
    assert_eq!(pairs[0].1, "b");
    assert_eq!(pairs[1].0, "c");
    assert_eq!(pairs[1].1, "d");
}

#[test]
fn form_parser_drops_pairs_without_equals() {
    let pairs = ugly_form_body_parser("noequals&x=1&flag");
    assert_eq!(pairs.len(), 1);
    assert_eq!(pairs[0].0, "x");
    assert_eq!(pairs[0].1, "1");
}

#[test]
fn form_parser_value_stops_at_second_equals() {
    let pairs = ugly_form_body_parser("a=b=c");
    assert_eq!(pairs.len(), 1);
    assert_eq!(pairs[0].0, "a");
    assert_eq!(pairs[0].1, "b");
}

#[test]
fn form_parser_keeps_empty_keys_and_values() {
    let pairs = ugly_form_body_parser("=v&k=");
    assert_eq!(pairs.len(), 2);
    assert_eq!(pairs[0].0, "");
    assert_eq!(pairs[0].1, "v");
    assert_eq!(pairs[1].0, "k");
    assert_eq!(pairs[1].1, "");
}

#[test]
fn form_value_takes_the_last_binding() {
    let pairs = ugly_form_body_parser("item=a&item=b");
    assert_eq!(form_value(&pairs, "item"), Some("b".to_string()));
}

#[test]
fn form_value_missing_key_is_none() {
    let pairs = ugly_form_body_parser("a=b");
    assert_eq!(form_value(&pairs, "item"), None);
}

#[test]
fn parse_u64_reads_decimal() {
    assert_eq!(parse_u64("0"), Some(0));
    assert_eq!(parse_u64("42"), Some(42));
    assert_eq!(parse_u64("007"), Some(7));
    assert_eq!(parse_u64("18446744073709551615"), Some(u64::MAX));
}

#[test]
fn parse_u64_rejects_junk_and_overflow() {
    assert_eq!(parse_u64(""), None);
    assert_eq!(parse_u64("1x"), None);
    assert_eq!(parse_u64("-1"), None);
    assert_eq!(parse_u64("18446744073709551616"), None);
    assert_eq!(parse_u64("99999999999999999999999"), None);
}

#[test]
fn u64_to_string_renders_decimal() {
    assert_eq!(u64_to_string(0), "0");
    assert_eq!(u64_to_string(7), "7");
    assert_eq!(u64_to_string(1234567890), "1234567890");
    assert_eq!(u64_to_string(u64::MAX), "18446744073709551615");
}

#[test]
fn u64_round_trips_through_its_rendering() {
    for n in [0u64, 1, 9, 10, 255, 1000, u64::MAX] {
        assert_eq!(parse_u64(&u64_to_string(n)), Some(n));
    }
}

#[test]
fn split_target_cuts_at_first_question_mark() {
    let (path, query) = split_target("/challenge/Rustacean?count=5");
    assert_eq!(path, "/challenge/Rustacean");
    assert_eq!(query, "count=5");
    let (path, query) = split_target("/todo");
    assert_eq!(path, "/todo");
    assert_eq!(query, "");
    let (path, query) = split_target("/a?b?c");
    assert_eq!(path, "/a");
    assert_eq!(query, "b?c");
}

#[test]
fn parse_method_reads_the_three_verbs() {
    assert!(matches!(parse_method("GET"), Method::Get));
    assert!(matches!(parse_method("HEAD"), Method::Head));
    assert!(matches!(parse_method("POST"), Method::Post));
    assert!(matches!(parse_method("PUT"), Method::Other));
    assert!(matches!(parse_method("get"), Method::Other));
}

#[test]
fn str_eq_and_find_char_behave() {
    assert!(str_eq("abc", "abc"));
    assert!(!str_eq("abc", "abd"));
    assert!(!str_eq("abc", "ab"));
    assert_eq!(find_char("a=b", '='), Some(1));
    assert_eq!(find_char("abc", '='), None);
}

#[test]
fn route_table_matches_the_declared_tree() {
    assert!(matches!(route(Method::Get, "/"), Some(RouteTarget::Welcome)));
    assert!(matches!(route(Method::Head, "/"), Some(RouteTarget::Welcome)));
    assert!(matches!(route(Method::Post, "/"), None));
    assert!(matches!(route(Method::Get, "/todo"), Some(RouteTarget::TodoView)));
    assert!(matches!(route(Method::Post, "/todo"), Some(RouteTarget::TodoAdd)));
    assert!(matches!(route(Method::Post, "/todo/reset"), Some(RouteTarget::TodoReset)));
    assert!(matches!(route(Method::Get, "/todo/reset"), None));
    assert!(matches!(route(Method::Other, "/todo"), None));
    assert!(matches!(route(Method::Get, "/nonexistent"), None));
}

#[test]
fn challenge_route_captures_the_name() {
    match route(Method::Get, "/challenge/Rustacean") {
        Some(RouteTarget::Challenge(name)) => assert_eq!(name, "Rustacean"),
        _ => panic!("expected the challenge route"),
    }
    assert!(matches!(route(Method::Post, "/challenge/Rustacean"), None));
    assert!(matches!(route(Method::Get, "/challenge/"), None));
    assert!(matches!(route(Method::Get, "/challenge/a/b"), None));
}
