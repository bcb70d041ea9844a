use mnml_virt_docker::app::{Item, ItemsTab, TabKind, TabSpec, TabState};
use mnml_virt_docker::blit::Color;
use mnml_virt_docker::docker::{ComposeService, Container, DaemonState, Image, Network, Volume};
use mnml_virt_docker::view::{
    daemon_notice, detail_lines, header_fields, list_notice, list_row_text, list_title,
    list_window_start, pad_right, state_badge, state_color_for, tab_label,
};

fn container(state: &str, ports: &str) -> Container {
    Container {
        id: "0123456789abcdef".into(),
        image: "redis:7".into(),
        names: "cache".into(),
        status: "Up 2 hours".into(),
        state: state.into(),
        ports: ports.into(),
        running_for: "2 hours ago".into(),
        command: "redis-server".into(),
        created_at: String::new(),
    }
}

fn tab_state(items: Vec<Item>) -> TabState {
    let mut data = ItemsTab::empty();
    data.items = items;
    TabState {
        name: "containers".into(),
        spec: TabSpec {
            kind: TabKind::Containers,
        },
        data,
    }
}

fn pairs(v: &[(&str, &str)]) -> Vec<(String, String)> {
    v.iter().map(|(k, x)| (format!(" {k:<14}"), x.to_string())).collect()
}

#[test]
fn row_text_layout() {
    let item = Item::Container(container("running", "6379/tcp"));
    assert_eq!(
        list_row_text(&item, true),
        format!("▸ ● {:<24}  0123456789ab  redis:7 · 6379/tcp", "cache")
    );
    let item = Item::Container(container("exited", ""));
    assert_eq!(
        list_row_text(&item, false),
        format!("  ○ {:<24}  0123456789ab  redis:7", "cache")
    );
    let long = Item::Volume(Volume {
        name: "a_really_long_volume_name_here".into(),
        driver: "local".into(),
        mountpoint: "/m".into(),
        scope: "local".into(),
    });
    assert_eq!(
        list_row_text(&long, false),
        "    a_really_long_volume_na…  local  /m"
    );
}

#[test]
fn badges_and_colours() {
    let cases = [
        ("running", "●", Color::Green),
        ("exited", "○", Color::DarkGray),
        ("dead", "○", Color::Red),
        ("restarting", "↺", Color::Yellow),
        ("paused", "‖", Color::Yellow),
        ("created", "·", Color::Gray),
        ("removing", " ", Color::Gray),
    ];
    for (state, badge, colour) in cases {
        let item = Item::Container(container(state, ""));
        assert_eq!(state_badge(&item), badge);
        assert_eq!(state_color_for(&item), colour);
    }
    let net = Item::Network(Network {
        id: "n1".into(),
        name: "bridge".into(),
        driver: "bridge".into(),
        scope: "local".into(),
        created_at: String::new(),
    });
    assert_eq!(state_badge(&net), " ");
    assert_eq!(state_color_for(&net), Color::Gray);
}

#[test]
fn window_start_follows_selection() {
    assert_eq!(list_window_start(5, 4, 10), 0);
    assert_eq!(list_window_start(100, 0, 10), 0);
    assert_eq!(list_window_start(100, 50, 10), 45);
    assert_eq!(list_window_start(100, 99, 10), 90);
    assert_eq!(list_window_start(100, 3, 10), 0);
    assert_eq!(list_window_start(11, 10, 0), 10);
}

#[test]
fn tab_labels() {
    let mut t = tab_state(vec![Item::Container(container("running", ""))]);
    assert_eq!(tab_label(0, &t, false), "1.containers");
    assert_eq!(tab_label(0, &t, true), "1.containers (1)");
    t.data.loading = true;
    assert_eq!(tab_label(2, &t, true), "3.containers (…)");
    t.data.loading = false;
    t.data.last_error = Some("boom".into());
    assert_eq!(tab_label(9, &t, true), "10.containers (err)");
    assert_eq!(list_title(&t), " containers (1) ");
}

#[test]
fn daemon_notices() {
    assert_eq!(
        daemon_notice(&DaemonState::Offline),
        "Docker daemon not running.\n\nStart Docker Desktop, then press `r` to retry."
    );
    assert_eq!(
        daemon_notice(&DaemonState::CliMissing("spawn failed".into())),
        "`docker` CLI not found on PATH.\n\nspawn failed\n\nInstall Docker Desktop or the docker CLI, then press `r` to retry."
    );
    assert_eq!(
        daemon_notice(&DaemonState::Error("bad".into())),
        "docker error:\n\nbad\n\nPress `r` to retry."
    );
    assert_eq!(daemon_notice(&DaemonState::Online("27".into())), "");
}

#[test]
fn header_rows_per_kind() {
    assert_eq!(
        header_fields(&Item::Container(container("running", "80/tcp"))),
        pairs(&[
            ("Name", "cache"),
            ("ID", "0123456789ab"),
            ("Image", "redis:7"),
            ("State", "running"),
            ("Status", "Up 2 hours"),
            ("Ports", "80/tcp"),
            ("Running for", "2 hours ago"),
        ])
    );
    assert_eq!(
        header_fields(&Item::Container(container("exited", ""))).len(),
        6
    );
    assert_eq!(
        header_fields(&Item::Image(Image {
            id: "sha256:0123456789abcdef".into(),
            repository: String::new(),
            tag: String::new(),
            size: "5MB".into(),
            created_since: "1 day ago".into(),
            created_at: String::new(),
            digest: String::new(),
        })),
        pairs(&[
            ("Repo:Tag", "<none>:<none>"),
            ("ID", "0123456789ab"),
            ("Size", "5MB"),
            ("Created", "1 day ago"),
        ])
    );
    assert_eq!(
        header_fields(&Item::ComposeService(ComposeService {
            name: "app-web-1".into(),
            service: "web".into(),
            state: "running".into(),
            status: "Up".into(),
            image: String::new(),
            project: "app".into(),
        })),
        pairs(&[
            ("Service", "web"),
            ("Container", "app-web-1"),
            ("State", "running"),
            ("Status", "Up"),
            ("Project", "app"),
        ])
    );
}

#[test]
fn detail_lines_like_str_lines() {
    assert_eq!(detail_lines("a\r\nb\n\nc\n"), vec![" a", " b", " ", " c"]);
    assert!(detail_lines("").is_empty());
}

#[test]
fn padding_to_width() {
    assert_eq!(pad_right("ab", 5), "ab   ");
    assert_eq!(pad_right("abcdef", 3), "abcdef");
    assert_eq!(pad_right("é", 2), "é ");
}

#[test]
fn secondary_labels_per_kind() {
    let svc = Item::ComposeService(ComposeService {
        name: "x-db-1".into(),
        service: "db".into(),
        state: "exited".into(),
        status: "Exited (0)".into(),
        image: String::new(),
        project: "x".into(),
    });
    assert_eq!(svc.primary_label(), "db");
    assert_eq!(svc.secondary_label(), "Exited (0)");
    assert_eq!(svc.state(), "exited");
    assert_eq!(svc.id(), "x-db-1");
    let net = Item::Network(Network {
        id: "abcdefabcdefabcdef".into(),
        name: "host".into(),
        driver: "host".into(),
        scope: "local".into(),
        created_at: String::new(),
    });
    assert_eq!(net.secondary_label(), "abcdefabcdef  host  local");
    assert_eq!(net.state(), "network");
    assert_eq!(net.id(), "host");
    let img = Item::Image(Image {
        id: "sha256:0123456789abcdef".into(),
        repository: "redis".into(),
        tag: String::new(),
        size: "110MB".into(),
        created_since: "3 weeks ago".into(),
        created_at: String::new(),
        digest: String::new(),
    });
    assert_eq!(img.primary_label(), "redis");
    assert_eq!(img.secondary_label(), "0123456789ab  110MB  3 weeks ago");
    assert_eq!(img.state(), "image");
    assert_eq!(img.id(), "sha256:0123456789abcdef");
}

#[test]
fn list_notices() {
    let mut t = tab_state(Vec::new());
    assert_eq!(list_notice(&t), Some("(none)".to_string()));
    t.data.loading = true;
    assert_eq!(list_notice(&t), Some("(loading…)".to_string()));
    t.data.last_error = Some("docker: boom".into());
    assert_eq!(list_notice(&t), Some("error: docker: boom".to_string()));
    let t = tab_state(vec![Item::Container(container("running", ""))]);
    assert_eq!(list_notice(&t), None);
}
