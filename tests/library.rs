use httpie::{
    build_payload, category_of, get_command, parse_kv_pair, parse_url, plain_body,
    post_command, rule_set_name, Command, ContentCategory, HttpieError, KvPair,
};

fn pair(k: &str, v: &str) -> KvPair {
    KvPair { k: k.to_string(), v: v.to_string() }
}

#[test]
fn kv_single_separator_rejoins() {
    let p = parse_kv_pair("name=value").unwrap();
    assert_eq!(p.k, "name");
    assert_eq!(p.v, "value");
    assert_eq!(format!("{}={}", p.k, p.v), "name=value");
}

#[test]
fn kv_without_separator_fails() {
    assert_eq!(parse_kv_pair("novalue").unwrap_err(), HttpieError::MalformedKeyValue);
    assert_eq!(parse_kv_pair("").unwrap_err(), HttpieError::MalformedKeyValue);
}

#[test]
fn kv_splits_at_first_separator_only() {
    let p = parse_kv_pair("a=b=c").unwrap();
    assert_eq!(p.k, "a");
    assert_eq!(p.v, "b=c");
}

#[test]
fn kv_empty_sides_are_accepted() {
    let p = parse_kv_pair("=").unwrap();
    assert_eq!(p.k, "");
    assert_eq!(p.v, "");
    let q = parse_kv_pair("k=").unwrap();
    assert_eq!(q.k, "k");
    assert_eq!(q.v, "");
}

#[test]
fn payload_last_write_wins() {
    let r = build_payload(&vec![pair("a", "1"), pair("a", "2")]);
    assert_eq!(r.len(), 1);
    assert_eq!(r[0].k, "a");
    assert_eq!(r[0].v, "2");
}

#[test]
fn payload_keeps_distinct_keys() {
    let r = build_payload(&vec![pair("a", "1"), pair("b", "2"), pair("a", "3")]);
    assert_eq!(r.len(), 2);
    assert_eq!((r[0].k.as_str(), r[0].v.as_str()), ("a", "3"));
    assert_eq!((r[1].k.as_str(), r[1].v.as_str()), ("b", "2"));
    assert!(build_payload(&vec![]).is_empty());
}

#[test]
fn category_by_exact_content_type() {
    assert_eq!(category_of(Some("application/json")), ContentCategory::Json);
    assert_eq!(category_of(Some("text/html")), ContentCategory::Html);
    assert_eq!(category_of(Some("text/plain")), ContentCategory::Other);
    assert_eq!(category_of(Some("application/json; charset=utf-8")), ContentCategory::Other);
    assert_eq!(category_of(None), ContentCategory::Other);
}

#[test]
fn rule_sets_for_categories() {
    assert_eq!(rule_set_name(ContentCategory::Json), Some("json"));
    assert_eq!(rule_set_name(ContentCategory::Html), Some("html"));
    assert_eq!(rule_set_name(ContentCategory::Other), None);
}

#[test]
fn plain_body_adds_one_newline() {
    assert_eq!(plain_body("hello"), "hello\n");
    assert_eq!(plain_body(""), "\n");
}

#[test]
fn url_check() {
    assert_eq!(parse_url("https://example.test/ok").unwrap(), "https://example.test/ok");
    assert_eq!(parse_url("not-a-url").unwrap_err(), HttpieError::InvalidUrl);
}

#[test]
fn get_command_rejects_bad_url() {
    assert_eq!(get_command("not-a-url").unwrap_err(), HttpieError::InvalidUrl);
    match get_command("https://example.test/ok").unwrap() {
        Command::Get { url } => assert_eq!(url, "https://example.test/ok"),
        other => panic!("unexpected {:?}", other),
    }
}

#[test]
fn post_command_parses_body_in_order() {
    let toks = vec!["a=1".to_string(), "b=2".to_string()];
    match post_command("https://example.test/echo", &toks).unwrap() {
        Command::Post { url, body } => {
            assert_eq!(url, "https://example.test/echo");
            assert_eq!(body.len(), 2);
            assert_eq!((body[0].k.as_str(), body[0].v.as_str()), ("a", "1"));
            assert_eq!((body[1].k.as_str(), body[1].v.as_str()), ("b", "2"));
        }
        other => panic!("unexpected {:?}", other),
    }
}

#[test]
fn post_command_errors() {
    let bad = vec!["a=1".to_string(), "oops".to_string()];
    assert_eq!(post_command("not-a-url", &bad).unwrap_err(), HttpieError::InvalidUrl);
    assert_eq!(
        post_command("https://example.test/echo", &bad).unwrap_err(),
        HttpieError::MalformedKeyValue
    );
}
