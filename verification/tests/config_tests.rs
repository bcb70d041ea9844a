use mnml_virt_docker::config::{Config, Tab};

/// Builds a `Config` from TOML text the way the config file is read:
/// `refresh_interval_secs` defaults to 60, `tabs` to none.
fn parse_config(text: &str) -> Config {
    let v: toml::Table = toml::from_str(text).expect("example parses");
    let refresh = v
        .get("refresh_interval_secs")
        .and_then(|x| x.as_integer())
        .map(|x| x as u64)
        .unwrap_or(60);
    let mut tabs = Vec::new();
    if let Some(arr) = v.get("tabs").and_then(|x| x.as_array()) {
        for t in arr {
            tabs.push(Tab {
                name: t.get("name").and_then(|x| x.as_str()).unwrap().to_string(),
                kind: t.get("kind").and_then(|x| x.as_str()).unwrap().to_string(),
                project_path: t
                    .get("project_path")
                    .and_then(|x| x.as_str())
                    .map(|s| s.to_string()),
            });
        }
    }
    Config {
        refresh_interval_secs: refresh,
        tabs,
    }
}

#[test]
fn example_config_parses_and_validates() {
    let cfg = parse_config(Config::EXAMPLE);
    cfg.validate().expect("example validates");
    assert_eq!(cfg.tabs.len(), 4);
    assert_eq!(cfg.tabs[0].kind, "containers");
    assert_eq!(cfg.tabs[1].kind, "images");
    assert_eq!(cfg.tabs[2].kind, "volumes");
    assert_eq!(cfg.tabs[3].kind, "networks");
}

#[test]
fn rejects_unknown_kind() {
    let cfg = Config {
        refresh_interval_secs: 60,
        tabs: vec![Tab {
            name: "bad".into(),
            kind: "bogus".into(),
            project_path: None,
        }],
    };
    assert!(cfg.validate().is_err());
}

#[test]
fn rejects_compose_without_project_path() {
    let cfg = Config {
        refresh_interval_secs: 60,
        tabs: vec![Tab {
            name: "myapp".into(),
            kind: "compose".into(),
            project_path: None,
        }],
    };
    assert!(cfg.validate().is_err());

    let cfg_ok = Config {
        refresh_interval_secs: 60,
        tabs: vec![Tab {
            name: "myapp".into(),
            kind: "compose".into(),
            project_path: Some("/tmp/myapp".into()),
        }],
    };
    assert!(cfg_ok.validate().is_ok());
}
