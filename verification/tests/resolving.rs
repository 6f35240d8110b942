use proxyl::cli::{Args, Commands};
use proxyl::error::{ConfigError, ProxylError};
use proxyl::matcher::{find_match, Request};
use proxyl::parse::parse_config;
use proxyl::reload::{reload_from_text, stage_reload, ReloadOutcome};
use proxyl::resolver::resolve;
use proxyl::rules::RuleTable;
use proxyl::store::LiveRuleStore;

fn req(method: &str, uri: &str, body: &str) -> Request {
    Request {
        method: method.to_string(),
        uri: uri.to_string(),
        headers: Vec::new(),
        body: body.as_bytes().to_vec(),
    }
}

fn table_from(text: &str) -> RuleTable {
    resolve(&parse_config(text).expect("well-formed TOML")).expect("document resolves")
}

fn resolve_err(text: &str) -> ConfigError {
    match resolve(&parse_config(text).expect("well-formed TOML")) {
        Err(e) => e,
        Ok(_) => panic!("expected the document to be rejected"),
    }
}

#[test]
fn shared_block_fields_are_inherited() {
    let table = table_from(
        "[config.shared]\nuri = \"/inherited\"\n\
         [rules.r]\nconfig = \"shared\"\n",
    );
    assert_eq!(table.entries[0].1.uri, "/inherited");
}

#[test]
fn explicit_field_overrides_shared_block() {
    let table = table_from(
        "[config.shared]\nmethod = \"GET\"\n\
         [rules.r]\nconfig = \"shared\"\nmethod = \"POST\"\n",
    );
    assert_eq!(table.entries[0].1.method.as_deref(), Some("POST"));
}

#[test]
fn declaration_order_is_preserved() {
    let table = table_from(
        "[rules.zebra]\n[rules.alpha]\n[rules.middle]\n",
    );
    let keys: Vec<&str> = table.entries.iter().map(|e| e.0.as_str()).collect();
    assert_eq!(keys, vec!["zebra", "alpha", "middle"]);
}

#[test]
fn rule_name_defaults_to_key_and_can_be_set() {
    let table = table_from(
        "[rules.keyed]\n[rules.titled]\nname = \"Pretty\"\n",
    );
    assert_eq!(table.entries[0].1.name, "keyed");
    assert_eq!(table.entries[1].1.name, "Pretty");
}

#[test]
fn unknown_config_reference_is_rejected() {
    let err = resolve_err("[rules.r]\nconfig = \"nope\"\n");
    assert_eq!(
        err,
        ConfigError::UnknownConfigReference { rule: "r".to_string(), name: "nope".to_string() },
    );
}

#[test]
fn malformed_enabled_field_is_a_schema_error() {
    let err = resolve_err("[rules.r]\nenabled = \"yes\"\n");
    assert_eq!(err, ConfigError::Schema { rule: "r".to_string(), field: "enabled".to_string() });
}

#[test]
fn malformed_headers_field_is_a_schema_error() {
    let err = resolve_err("[rules.r]\nheaders = 5\n");
    assert_eq!(err, ConfigError::Schema { rule: "r".to_string(), field: "headers".to_string() });
    let err = resolve_err("[rules.r]\n[rules.r.headers]\nx = 5\n");
    assert_eq!(err, ConfigError::Schema { rule: "r".to_string(), field: "headers".to_string() });
}

#[test]
fn missing_rules_section_is_a_schema_error() {
    let err = resolve_err("");
    assert_eq!(err, ConfigError::Schema { rule: String::new(), field: "rules".to_string() });
    let err = resolve_err("rules = 5\n");
    assert_eq!(err, ConfigError::Schema { rule: String::new(), field: "rules".to_string() });
}

#[test]
fn malformed_config_section_is_a_schema_error() {
    let err = resolve_err("config = 5\n[rules.r]\n");
    assert_eq!(err, ConfigError::Schema { rule: String::new(), field: "config".to_string() });
}

#[test]
fn non_table_rule_entry_is_a_schema_error() {
    let err = resolve_err("[rules]\nr = 5\n");
    assert_eq!(err, ConfigError::Schema { rule: "r".to_string(), field: String::new() });
}

#[test]
fn non_string_config_reference_is_a_schema_error() {
    let err = resolve_err("[rules.r]\nconfig = 5\n");
    assert_eq!(err, ConfigError::Schema { rule: "r".to_string(), field: "config".to_string() });
}

#[test]
fn non_table_shared_block_is_a_schema_error() {
    let err = resolve_err("[config]\nshared = 5\n[rules.r]\nconfig = \"shared\"\n");
    assert_eq!(err, ConfigError::Schema { rule: "r".to_string(), field: "config".to_string() });
}

#[test]
fn first_erroring_rule_in_order_is_reported() {
    let err = resolve_err(
        "[rules.ok]\nuri = \"/a\"\n\
         [rules.bad1]\nconfig = \"nope\"\n\
         [rules.bad2]\nenabled = 5\n",
    );
    assert_eq!(
        err,
        ConfigError::UnknownConfigReference { rule: "bad1".to_string(), name: "nope".to_string() },
    );
}

#[test]
fn empty_rules_section_resolves_to_empty_table() {
    let table = table_from("[rules]\n");
    assert_eq!(table.len(), 0);
}

#[test]
fn reload_same_content_twice_is_behaviorally_equivalent() {
    let text = "[rules.a]\nuri = \"/a\"\n[rules.b]\nmethod = \"POST\"\n";
    let t1 = table_from(text);
    let t2 = table_from(text);
    let probes = [req("GET", "/a", ""), req("POST", "/z", ""), req("GET", "/z", "")];
    for q in probes.iter() {
        assert_eq!(find_match(&t1, q), find_match(&t2, q));
    }
}

#[test]
fn successful_reload_publishes_the_new_table() {
    let mut store = LiveRuleStore::new(RuleTable::empty());
    let outcome = reload_from_text(&mut store, Some("[rules.r]\nuri = \"/a\"\n"));
    assert!(matches!(outcome, ReloadOutcome::Updated));
    assert_eq!(find_match(store.read(), &req("GET", "/a", "")), Some(0));
}

#[test]
fn malformed_reload_leaves_live_table_unchanged() {
    let mut store = LiveRuleStore::new(table_from("[rules.r]\nuri = \"/keep\"\n"));
    let outcome = reload_from_text(&mut store, Some("not = = toml"));
    assert!(matches!(outcome, ReloadOutcome::ParseFailed));
    assert_eq!(find_match(store.read(), &req("GET", "/keep", "")), Some(0));
    assert_eq!(store.read().len(), 1);
}

#[test]
fn rejected_reload_leaves_live_table_unchanged() {
    let mut store = LiveRuleStore::new(table_from("[rules.r]\nuri = \"/keep\"\n"));
    let outcome = reload_from_text(&mut store, Some("[rules.r]\nconfig = \"nope\"\n"));
    match outcome {
        ReloadOutcome::Rejected(e) => assert_eq!(
            e,
            ConfigError::UnknownConfigReference {
                rule: "r".to_string(),
                name: "nope".to_string(),
            },
        ),
        other => panic!("expected rejection, got {:?}", other),
    }
    assert_eq!(find_match(store.read(), &req("GET", "/keep", "")), Some(0));
}

#[test]
fn unreadable_source_leaves_live_table_unchanged() {
    let mut store = LiveRuleStore::new(table_from("[rules.r]\nuri = \"/keep\"\n"));
    let outcome = reload_from_text(&mut store, None);
    assert!(matches!(outcome, ReloadOutcome::SourceUnavailable));
    assert_eq!(find_match(store.read(), &req("GET", "/keep", "")), Some(0));
}

#[test]
fn staged_reload_computes_the_table_without_a_store() {
    match stage_reload(Some("[rules.r]\nuri = \"/a\"\n")) {
        Ok(table) => assert_eq!(find_match(&table, &req("GET", "/a", "")), Some(0)),
        Err(o) => panic!("expected a staged table, got {:?}", o),
    }
    assert!(matches!(stage_reload(None), Err(ReloadOutcome::SourceUnavailable)));
    assert!(matches!(stage_reload(Some("not = = toml")), Err(ReloadOutcome::ParseFailed)));
    match stage_reload(Some("[rules.r]\nconfig = \"nope\"\n")) {
        Err(ReloadOutcome::Rejected(e)) => assert_eq!(
            e,
            ConfigError::UnknownConfigReference {
                rule: "r".to_string(),
                name: "nope".to_string(),
            },
        ),
        _ => panic!("expected the staged reload to be rejected"),
    }
}

#[test]
fn parse_config_reads_both_sections() {
    let doc = parse_config("[config.s]\n[rules.r]\n").expect("well-formed TOML");
    assert!(doc.config.is_some());
    assert!(doc.rules.is_some());
    let doc = parse_config("x = 1\n").expect("well-formed TOML");
    assert!(doc.config.is_none());
    assert!(doc.rules.is_none());
}

#[test]
fn parse_config_accepts_exactly_well_formed_toml() {
    assert!(parse_config("[rules.r]\nuri = \"/a\"\n").is_some());
    assert!(parse_config("").is_some());
    assert!(parse_config("not = = toml").is_none());
}

#[test]
fn proxyl_error_carries_its_message() {
    let e = ProxylError::new("something failed".to_string());
    assert_eq!(e.message().as_str(), "something failed");
}

#[test]
fn missing_subcommand_defaults_to_serve() {
    let args = Args { port: 8080, command: None };
    assert!(matches!(args.effective_command(), Commands::Serve));
    let args = Args {
        port: 8080,
        command: Some(Commands::Config {
            cert_path: "./cert.pem".to_string(),
            key_path: "./key.pem".to_string(),
        }),
    };
    match args.effective_command() {
        Commands::Config { cert_path, key_path } => {
            assert_eq!(cert_path, "./cert.pem");
            assert_eq!(key_path, "./key.pem");
        },
        Commands::Serve => panic!("expected the config subcommand"),
    }
}
