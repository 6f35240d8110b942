use proxyl::matcher::{find_match, intercept, Request};
use proxyl::parse::parse_config;
use proxyl::resolver::resolve;
use proxyl::rules::RuleTable;

fn req(method: &str, uri: &str, headers: &[(&str, &str)], body: &str) -> Request {
    Request {
        method: method.to_string(),
        uri: uri.to_string(),
        headers: headers.iter().map(|(k, v)| (k.to_string(), v.to_string())).collect(),
        body: body.as_bytes().to_vec(),
    }
}

fn table_from(text: &str) -> RuleTable {
    let doc = parse_config(text).expect("well-formed TOML");
    resolve(&doc).expect("document resolves")
}

#[test]
fn end_to_end_block_login() {
    let table = table_from(
        "[rules.block_login]\n\
         uri = \"/login\"\n\
         method = \"POST\"\n\
         body_re = \"password\"\n\
         redirect_to = \"https://blocked.example\"\n",
    );
    let hit = intercept(&table, &req("POST", "/login", &[], "password=x")).expect("matches");
    assert_eq!(hit.target.as_deref(), Some("https://blocked.example"));
    assert_eq!(hit.rule_name, "block_login");
    assert!(intercept(&table, &req("GET", "/login", &[], "password=x")).is_none());
}

#[test]
fn first_declared_rule_wins() {
    let table = table_from(
        "[rules.first]\n\
         uri = \"/x\"\n\
         redirect_to = \"https://one.example\"\n\
         [rules.second]\n\
         uri = \"/x\"\n\
         redirect_to = \"https://two.example\"\n",
    );
    assert_eq!(find_match(&table, &req("GET", "/x", &[], "")), Some(0));
    let hit = intercept(&table, &req("GET", "/x", &[], "")).unwrap();
    assert_eq!(hit.rule_name, "first");
}

#[test]
fn method_compared_case_insensitively() {
    let table = table_from("[rules.r]\nmethod = \"POST\"\n");
    assert_eq!(find_match(&table, &req("post", "/any", &[], "")), Some(0));
    assert_eq!(find_match(&table, &req("PoSt", "/any", &[], "")), Some(0));
    assert!(find_match(&table, &req("GET", "/any", &[], "")).is_none());
}

#[test]
fn absent_method_and_uri_match_everything() {
    let table = table_from("[rules.r]\nredirect_to = \"https://t.example\"\n");
    assert_eq!(find_match(&table, &req("GET", "/a", &[], "")), Some(0));
    assert_eq!(find_match(&table, &req("DELETE", "/b/c", &[], "x")), Some(0));
}

#[test]
fn uri_must_match_exactly_when_present() {
    let table = table_from("[rules.r]\nuri = \"/login\"\n");
    assert_eq!(find_match(&table, &req("GET", "/login", &[], "")), Some(0));
    assert!(find_match(&table, &req("GET", "/login/extra", &[], "")).is_none());
}

#[test]
fn disabled_rule_never_matches() {
    let table = table_from("[rules.r]\nenabled = false\n");
    assert!(find_match(&table, &req("GET", "/a", &[], "")).is_none());
}

#[test]
fn header_values_checked_and_names_case_insensitive() {
    let table = table_from(
        "[rules.r]\n[rules.r.headers]\n\"Content-Type\" = \"application/json\"\n",
    );
    assert_eq!(
        find_match(&table, &req("GET", "/a", &[("content-type", "application/json")], "")),
        Some(0),
    );
    assert!(
        find_match(&table, &req("GET", "/a", &[("content-type", "text/plain")], "")).is_none()
    );
}

#[test]
fn header_absent_from_request_does_not_fail_rule() {
    let table = table_from("[rules.r]\n[rules.r.headers]\nx-token = \"secret\"\n");
    assert_eq!(find_match(&table, &req("GET", "/a", &[], "")), Some(0));
}

#[test]
fn body_pattern_is_a_real_regular_expression() {
    let table = table_from("[rules.r]\nbody_re = \"pass.word\"\n");
    assert_eq!(find_match(&table, &req("GET", "/a", &[], "passXword")), Some(0));
    assert!(find_match(&table, &req("GET", "/a", &[], "password")).is_none());
}

#[test]
fn invalid_utf8_body_is_matched_as_empty() {
    let table = table_from("[rules.r]\nbody_re = \"abc\"\n");
    let mut body = b"abc".to_vec();
    body.push(0xff);
    let q = Request {
        method: "GET".to_string(),
        uri: "/a".to_string(),
        headers: Vec::new(),
        body,
    };
    assert!(find_match(&table, &q).is_none());
    let empty_pattern = table_from("[rules.r]\n");
    let q2 = Request {
        method: "GET".to_string(),
        uri: "/a".to_string(),
        headers: Vec::new(),
        body: vec![0xff, 0xfe],
    };
    assert_eq!(find_match(&empty_pattern, &q2), Some(0));
}

#[test]
fn invalid_pattern_disables_only_its_own_rule() {
    let table = table_from(
        "[rules.bad]\nbody_re = \"(\"\n\
         [rules.good]\nuri = \"/a\"\n",
    );
    assert!(table.entries[0].1.pattern.is_none());
    assert!(table.entries[1].1.pattern.is_some());
    assert_eq!(find_match(&table, &req("GET", "/a", &[], "anything")), Some(1));
}

#[test]
fn empty_table_matches_nothing() {
    let table = RuleTable::empty();
    assert_eq!(table.len(), 0);
    assert!(intercept(&table, &req("GET", "/", &[], "")).is_none());
}

#[test]
fn matched_rule_without_redirect_passes_target_none() {
    let table = table_from("[rules.r]\nuri = \"/a\"\n");
    let hit = intercept(&table, &req("GET", "/a", &[], "")).unwrap();
    assert!(hit.target.is_none());
    assert_eq!(hit.rule_name, "r");
}

#[test]
fn repeated_matches_agree_with_reference_evaluation() {
    let table = table_from(
        "[rules.a]\nuri = \"/a\"\n\
         [rules.b]\nmethod = \"POST\"\n",
    );
    let requests = [
        req("GET", "/a", &[], ""),
        req("POST", "/z", &[], ""),
        req("GET", "/z", &[], ""),
    ];
    let reference: Vec<Option<usize>> = requests.iter().map(|q| find_match(&table, q)).collect();
    assert_eq!(reference, vec![Some(0), Some(1), None]);
    for _ in 0..8 {
        for (q, want) in requests.iter().zip(reference.iter()) {
            assert_eq!(find_match(&table, q), *want);
        }
    }
}
