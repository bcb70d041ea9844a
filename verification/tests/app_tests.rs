use mnml_virt_docker::app::{App, Item, ItemsTab, RmPending, TabKind, TabSpec, TabState};
use mnml_virt_docker::config::{Config, Tab};
use mnml_virt_docker::docker::{ComposeService, Container, DaemonState, Image};

fn cfg_with(tabs: Vec<Tab>) -> Config {
    Config {
        refresh_interval_secs: 0,
        tabs,
    }
}

#[test]
fn tab_spec_resolve_known_kinds() {
    for kind in ["containers", "images", "volumes", "networks"] {
        let t = Tab {
            name: kind.into(),
            kind: kind.into(),
            project_path: None,
        };
        let spec = TabSpec::resolve(&t).unwrap();
        assert_eq!(spec.kind.as_str(), kind);
    }
}

#[test]
fn tab_spec_compose_resolves_compose_file() {
    let t = Tab {
        name: "myapp".into(),
        kind: "compose".into(),
        project_path: Some("/nonexistent/dir".into()),
    };
    let spec = TabSpec::resolve(&t).unwrap();
    if let TabKind::Compose { compose_file } = spec.kind {
        assert!(compose_file.ends_with("docker-compose.yml"));
    } else {
        panic!("expected compose kind");
    }
}

#[test]
fn rm_state_machine_pending_then_cancel() {
    let cfg = cfg_with(vec![Tab {
        name: "containers".into(),
        kind: "containers".into(),
        project_path: None,
    }]);
    let mut app = App {
        cfg,
        tabs: vec![TabState {
            name: "containers".into(),
            spec: TabSpec {
                kind: TabKind::Containers,
            },
            data: ItemsTab::empty(),
        }],
        active_tab: 0,
        status: String::new(),
        daemon: DaemonState::Online("test".into()),
        rm_pending: None,
        pending_spawns: Vec::new(),
        request: None,
    };
    app.tabs[0].data.items.push(Item::Container(Container {
        id: "abc123def456".into(),
        image: "redis:7".into(),
        names: "redis".into(),
        status: "Up".into(),
        state: "running".into(),
        ports: String::new(),
        running_for: String::new(),
        command: String::new(),
        created_at: String::new(),
    }));
    assert!(app.rm_pending.is_none());
    app.enter_rm_confirm();
    assert_eq!(
        app.rm_pending,
        Some(RmPending::Container("abc123def456".into()))
    );
    app.cancel_rm();
    assert!(app.rm_pending.is_none());
    assert!(app.status.contains("cancelled"));
}

#[test]
fn rm_state_machine_compose_service_rejected() {
    let cfg = cfg_with(vec![Tab {
        name: "compose".into(),
        kind: "containers".into(),
        project_path: None,
    }]);
    let mut app = App {
        cfg,
        tabs: vec![TabState {
            name: "compose".into(),
            spec: TabSpec {
                kind: TabKind::Containers,
            },
            data: ItemsTab::empty(),
        }],
        active_tab: 0,
        status: String::new(),
        daemon: DaemonState::Online("test".into()),
        rm_pending: None,
        pending_spawns: Vec::new(),
        request: None,
    };
    app.tabs[0].data.items.push(Item::ComposeService(ComposeService {
        name: "web-1".into(),
        service: "web".into(),
        state: "running".into(),
        status: "Up".into(),
        image: "redis:7".into(),
        project: "myapp".into(),
    }));
    app.enter_rm_confirm();
    assert!(app.rm_pending.is_none());
    assert!(app.status.contains("compose"));
}

#[test]
fn item_primary_and_secondary_labels() {
    let i = Item::Image(Image {
        id: "sha256:abcdef1234567890".into(),
        repository: "redis".into(),
        tag: "7".into(),
        size: "110MB".into(),
        created_since: "3 weeks ago".into(),
        created_at: String::new(),
        digest: String::new(),
    });
    assert_eq!(i.primary_label(), "redis:7");
    assert!(i.secondary_label().contains("110MB"));
}
