use mnml_msg_buttondown::config::{default_refresh, Config, ConfigError, Tab};

fn toml_config(text: &str) -> Config {
    let v: toml::Table = toml::from_str(text).expect("example parses");
    let refresh = v
        .get("refresh_interval_secs")
        .and_then(|x| x.as_integer())
        .map(|x| x as u64)
        .unwrap_or_else(default_refresh);
    let tabs = v
        .get("tabs")
        .and_then(|t| t.as_array())
        .map(|arr| {
            arr.iter()
                .map(|t| Tab {
                    name: t.get("name").and_then(|n| n.as_str()).unwrap().to_string(),
                    kind: t.get("kind").and_then(|n| n.as_str()).unwrap().to_string(),
                })
                .collect()
        })
        .unwrap_or_default();
    Config {
        refresh_interval_secs: refresh,
        tabs,
    }
}

#[test]
fn example_config_parses_and_validates() {
    let cfg: Config = toml_config(Config::EXAMPLE);
    cfg.validate().expect("example validates");
    assert_eq!(cfg.tabs.len(), 4);
}

#[test]
fn rejects_no_tabs() {
    let cfg = Config {
        refresh_interval_secs: 60,
        tabs: vec![],
    };
    assert!(cfg.validate().is_err());
}

#[test]
fn rejects_unknown_kind() {
    let cfg = Config {
        refresh_interval_secs: 60,
        tabs: vec![Tab {
            name: "bad".into(),
            kind: "bogus".into(),
        }],
    };
    assert!(cfg.validate().is_err());
}

#[test]
fn accepts_all_known_kinds() {
    for kind in ["drafts", "sent", "scheduled", "subscribers"] {
        let cfg = Config {
            refresh_interval_secs: 60,
            tabs: vec![Tab {
                name: kind.into(),
                kind: kind.into(),
            }],
        };
        cfg.validate().expect("kind accepted");
    }
}

#[test]
fn validate_names_first_unknown_tab() {
    let cfg = Config {
        refresh_interval_secs: 60,
        tabs: vec![
            Tab {
                name: "ok".into(),
                kind: "sent".into(),
            },
            Tab {
                name: "x".into(),
                kind: "bogus".into(),
            },
            Tab {
                name: "y".into(),
                kind: "worse".into(),
            },
        ],
    };
    match cfg.validate() {
        Err(e @ ConfigError::UnknownKind { .. }) => {
            if let ConfigError::UnknownKind { index, name, kind } = &e {
                assert_eq!(*index, 1);
                assert_eq!(name, "x");
                assert_eq!(kind, "bogus");
            }
            assert_eq!(
                e.message(),
                "tab #1 (x): unknown kind \"bogus\" (expected \"drafts\", \"sent\", \"scheduled\", or \"subscribers\")"
            );
        }
        other => panic!("unexpected {other:?}"),
    }
    let empty = Config {
        refresh_interval_secs: 60,
        tabs: vec![],
    };
    let e = empty.validate().unwrap_err();
    assert!(matches!(e, ConfigError::NoTabs));
    assert_eq!(e.message(), "config: at least one [[tabs]] entry required");
}

#[test]
fn default_refresh_is_a_minute() {
    assert_eq!(default_refresh(), 60);
    let cfg = toml_config("[[tabs]]\nname = \"d\"\nkind = \"drafts\"\n");
    assert_eq!(cfg.refresh_interval_secs, 60);
}
