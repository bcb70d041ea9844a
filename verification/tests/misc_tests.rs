use mnml_virt_docker::app::{
    is_compose_file_name, looks_like_compose_file, pick_compose_file, TabKind, TabSpec,
};
use mnml_virt_docker::blit::{
    accept_resize, ansi256_to_rgba, color_to_rgba, frame_runs, is_interrupt, key_from_wire,
    modifier_to_bits, refresh_due, unpack_mods, Cell, Color, Rgba, WireModBits, ATTR_BOLD,
    ATTR_CROSSED_OUT, ATTR_DIM, ATTR_ITALIC, ATTR_REVERSED, ATTR_UNDERLINE, MODIFIER_BOLD,
    MODIFIER_CROSSED_OUT, MODIFIER_DIM, MODIFIER_ITALIC, MODIFIER_REVERSED, MODIFIER_UNDERLINED,
};
use mnml_virt_docker::config::{
    config_dir_in, config_path, default_refresh, is_plain_kind, trimmed_project_path, Config, Tab,
};
use mnml_virt_docker::docker::{
    action_result, collect_rows, docker_err, docker_stdout, inspect, inspect_network, list_containers,
    list_images, list_networks, list_volumes, ndjson_lines, probe_args, probe_daemon, Container,
    DaemonState, DockerOutcome, Image, Network, Volume,
};
use mnml_virt_docker::keys::{KeyCode, KeyEvent, MOD_ALT, MOD_CONTROL, MOD_SHIFT, MOD_SUPER};
use mnml_virt_docker::text::{decimal_text, eq_ignore_ascii_case, join_path, trimmed};

fn container(names: &str) -> Container {
    Container {
        id: format!("id-{names}"),
        image: String::new(),
        names: names.into(),
        status: String::new(),
        state: String::new(),
        ports: String::new(),
        running_for: String::new(),
        command: String::new(),
        created_at: String::new(),
    }
}

fn args(v: &[&str]) -> Vec<String> {
    v.iter().map(|s| s.to_string()).collect()
}

// ─── docker ──────────────────────────────────────────────────────────

#[test]
fn docker_stdout_outcomes() {
    let a = args(&["ps", "-a", "--format", "{{json .}}"]);
    assert_eq!(
        docker_stdout(&a, &DockerOutcome::NotStarted),
        Err("spawn `docker ps -a --format {{json .}}`".to_string())
    );
    let failed = DockerOutcome::Finished {
        success: false,
        stdout: b"ignored".to_vec(),
        stderr: b"  oops \n".to_vec(),
    };
    assert_eq!(docker_stdout(&a, &failed), Err("docker: oops".to_string()));
    let ok = DockerOutcome::Finished {
        success: true,
        stdout: b"rows".to_vec(),
        stderr: b"warning".to_vec(),
    };
    assert_eq!(docker_stdout(&a, &ok), Ok(b"rows".to_vec()));
    assert_eq!(action_result(&a, &ok), Ok(()));
    assert_eq!(action_result(&a, &failed), Err("docker: oops".to_string()));
}

#[test]
fn docker_err_is_lossy_and_trimmed() {
    assert_eq!(docker_err(b"\n bad \xff thing \n"), "docker: bad \u{FFFD} thing");
    assert_eq!(docker_err(b""), "docker: ");
}

#[test]
fn inspect_text_and_errors() {
    let ok = DockerOutcome::Finished {
        success: true,
        stdout: "[{\"Name\":\"é\"}]\n".as_bytes().to_vec(),
        stderr: Vec::new(),
    };
    assert_eq!(inspect("abc", &ok), Ok("[{\"Name\":\"é\"}]\n".to_string()));
    let bad = DockerOutcome::Finished {
        success: true,
        stdout: vec![0xc3],
        stderr: Vec::new(),
    };
    assert_eq!(
        inspect("abc", &bad),
        Err("docker inspect stdout was not UTF-8".to_string())
    );
    assert_eq!(
        inspect_network("bridge", &bad),
        Err("docker network inspect stdout was not UTF-8".to_string())
    );
    assert_eq!(
        inspect_network("bridge", &DockerOutcome::NotStarted),
        Err("spawn `docker network inspect bridge`".to_string())
    );
}

#[test]
fn probe_reads_every_outcome() {
    assert_eq!(
        probe_args(),
        args(&["version", "--format", "{{.Server.Version}}"])
    );
    let run = |success: bool, out: &[u8], err: &[u8]| {
        probe_daemon(&DockerOutcome::Finished {
            success,
            stdout: out.to_vec(),
            stderr: err.to_vec(),
        })
    };
    assert_eq!(run(true, b" 27.3.1\n", b""), DaemonState::Online("27.3.1".into()));
    assert_eq!(run(true, b"", b""), DaemonState::Online("unknown".into()));
    assert_eq!(
        run(false, b"", b"Cannot connect to the Docker daemon at x"),
        DaemonState::Offline
    );
    assert_eq!(
        run(false, b"", b" denied\n"),
        DaemonState::Error("denied".into())
    );
    assert_eq!(
        probe_daemon(&DockerOutcome::NotStarted),
        DaemonState::CliMissing("spawn `docker version --format {{.Server.Version}}`".into())
    );
}

#[test]
fn ndjson_framing_and_errors() {
    let lines = ndjson_lines(b"\n  {\"a\":1}  \r\n\n{\"b\":2}").unwrap();
    assert_eq!(lines.len(), 2);
    assert_eq!(lines[0].number, 2);
    assert_eq!(lines[0].text, "{\"a\":1}");
    assert_eq!(lines[1].number, 4);
    assert_eq!(lines[1].text, "{\"b\":2}");
    assert!(ndjson_lines(b"").unwrap().is_empty());
    assert_eq!(
        ndjson_lines(b"{}\n\xff").err(),
        Some("docker stdout was not UTF-8".to_string())
    );
    let err = collect_rows(&lines, vec![Some(1u8), None]);
    assert_eq!(err, Err("parse docker ndjson line 4".to_string()));
    let ok = collect_rows(&lines, vec![Some(1u8), Some(2u8)]);
    assert_eq!(ok, Ok(vec![1u8, 2u8]));
}

#[test]
fn listings_sort_by_lowercase_name_stably() {
    let sorted = list_containers(vec![
        container("web"),
        container("Api"),
        container("api"),
        container("Zeta"),
        container("beta"),
    ]);
    let names: Vec<&str> = sorted.iter().map(|c| c.names.as_str()).collect();
    assert_eq!(names, vec!["Api", "api", "beta", "web", "Zeta"]);
    let sorted = list_containers(vec![container("Élan"), container("éclair")]);
    let names: Vec<&str> = sorted.iter().map(|c| c.names.as_str()).collect();
    assert_eq!(names, vec!["éclair", "Élan"]);

    let img = |repo: &str, tag: &str| Image {
        id: format!("{repo}{tag}"),
        repository: repo.into(),
        tag: tag.into(),
        size: String::new(),
        created_since: String::new(),
        created_at: String::new(),
        digest: String::new(),
    };
    let sorted = list_images(vec![img("redis", "7"), img("", ""), img("Alpine", ""), img("redis", "6")]);
    let tags: Vec<String> = sorted.iter().map(|i| i.repo_tag()).collect();
    assert_eq!(tags, vec!["<none>:<none>", "Alpine", "redis:6", "redis:7"]);

    let vol = |n: &str| Volume {
        name: n.into(),
        driver: String::new(),
        mountpoint: String::new(),
        scope: String::new(),
    };
    let sorted = list_volumes(vec![vol("b"), vol("A"), vol("a")]);
    let names: Vec<&str> = sorted.iter().map(|v| v.name.as_str()).collect();
    assert_eq!(names, vec!["A", "a", "b"]);

    let net = |n: &str| Network {
        id: String::new(),
        name: n.into(),
        driver: String::new(),
        scope: String::new(),
        created_at: String::new(),
    };
    let sorted = list_networks(vec![net("none"), net("Host"), net("bridge")]);
    let names: Vec<&str> = sorted.iter().map(|n| n.name.as_str()).collect();
    assert_eq!(names, vec!["bridge", "Host", "none"]);
}

#[test]
fn short_ids() {
    let mut c = container("x");
    c.id = "short".into();
    assert_eq!(c.short_id(), "short");
    c.id = "0123456789abcdef".into();
    assert_eq!(c.short_id(), "0123456789ab");
    let i = Image {
        id: "sha256:abc".into(),
        repository: String::new(),
        tag: String::new(),
        size: String::new(),
        created_since: String::new(),
        created_at: String::new(),
        digest: String::new(),
    };
    assert_eq!(i.short_id(), "abc");
}

// ─── config ──────────────────────────────────────────────────────────

fn tab(name: &str, kind: &str, path: Option<&str>) -> Tab {
    Tab {
        name: name.into(),
        kind: kind.into(),
        project_path: path.map(|p| p.to_string()),
    }
}

#[test]
fn validate_messages() {
    let empty = Config {
        refresh_interval_secs: 60,
        tabs: Vec::new(),
    };
    assert_eq!(
        empty.validate(),
        Err("config: at least one [[tabs]] entry required".to_string())
    );
    let bad = Config {
        refresh_interval_secs: 60,
        tabs: vec![tab("ok", "images", None), tab("bad", "bo\"gus", None)],
    };
    assert_eq!(
        bad.validate(),
        Err("tab #1 (bad): unknown kind \"bo\\\"gus\" (expected containers/images/volumes/networks/compose)".to_string())
    );
    let compose = Config {
        refresh_interval_secs: 60,
        tabs: vec![tab("myapp", "compose", Some("   "))],
    };
    assert_eq!(
        compose.validate(),
        Err("tab #0 (myapp): kind=\"compose\" requires `project_path`".to_string())
    );
}

#[test]
fn config_locations() {
    assert_eq!(
        config_dir_in(Some("/home/u".into())),
        "/home/u/.config/mnml-virt-docker"
    );
    assert_eq!(
        config_dir_in(Some("/home/u/".into())),
        "/home/u/.config/mnml-virt-docker"
    );
    assert_eq!(config_dir_in(None), "./.config/mnml-virt-docker");
    assert!(config_path().ends_with("/.config/mnml-virt-docker/config.toml"));
    assert_eq!(default_refresh(), 60);
    assert!(is_plain_kind("volumes"));
    assert!(!is_plain_kind("compose"));
    assert_eq!(trimmed_project_path(&Some("  /a b  ".into())), "/a b");
    assert_eq!(trimmed_project_path(&None), "");
}

#[test]
fn resolve_errors_and_compose_paths() {
    assert_eq!(
        TabSpec::resolve(&tab("bad", "bogus", None)).err(),
        Some("tab `bad`: unknown kind \"bogus\"".to_string())
    );
    assert_eq!(
        TabSpec::resolve(&tab("myapp", "compose", None)).err(),
        Some("tab `myapp`: kind=\"compose\" requires `project_path`".to_string())
    );
    let spec = TabSpec::resolve(&tab("f", "compose", Some(" /srv/x/compose.yaml "))).unwrap();
    assert_eq!(
        spec.kind,
        TabKind::Compose {
            compose_file: "/srv/x/compose.yaml".into()
        }
    );
    let spec = TabSpec::resolve(&tab("d", "compose", Some("/nonexistent/dir/"))).unwrap();
    assert_eq!(
        spec.kind,
        TabKind::Compose {
            compose_file: "/nonexistent/dir/docker-compose.yml".into()
        }
    );
    assert_eq!(spec.kind.as_str(), "compose");
}

#[test]
fn compose_file_names() {
    for n in ["compose.yaml", "compose.yml", "docker-compose.yml", "docker-compose.yaml"] {
        assert!(is_compose_file_name(n));
    }
    for n in ["docker-compose", "Compose.yml", "compose.yaml ", "x.yml", ""] {
        assert!(!is_compose_file_name(n));
    }
}

#[test]
fn compose_file_choice() {
    assert!(looks_like_compose_file("/a/docker-compose.yaml"));
    assert!(looks_like_compose_file("/a/compose.yml/"));
    assert!(!looks_like_compose_file("/a/other.yml"));
    assert_eq!(
        pick_compose_file("/p", &vec![false, true, true]),
        "/p/compose.yml"
    );
    assert_eq!(
        pick_compose_file("/p", &vec![true, true, true]),
        "/p/compose.yaml"
    );
    assert_eq!(
        pick_compose_file("/p", &vec![false, false, false]),
        "/p/docker-compose.yml"
    );
    assert_eq!(
        pick_compose_file("/p/compose.yml", &vec![true, false, false]),
        "/p/compose.yml"
    );
}

// ─── text ────────────────────────────────────────────────────────────

#[test]
fn text_helpers() {
    assert_eq!(decimal_text(0), "0");
    assert_eq!(decimal_text(4096), "4096");
    assert!(eq_ignore_ascii_case("RuNNing", "running"));
    assert!(!eq_ignore_ascii_case("runnin", "running"));
    assert!(!eq_ignore_ascii_case("É", "é"));
    assert_eq!(join_path("a", "b"), "a/b");
    assert_eq!(join_path("a/", "b"), "a/b");
    assert_eq!(join_path("a", "/b"), "/b");
    assert_eq!(join_path("", "b"), "b");
    assert_eq!(trimmed("\t x y \n"), "x y");
}

// ─── blit ────────────────────────────────────────────────────────────

#[test]
fn palette_values() {
    assert_eq!(ansi256_to_rgba(0), Rgba { r: 0x10, g: 0x11, b: 0x1c, a: 0xff });
    assert_eq!(ansi256_to_rgba(15), Rgba { r: 0xff, g: 0xff, b: 0xff, a: 0xff });
    assert_eq!(ansi256_to_rgba(16), Rgba { r: 0, g: 0, b: 0, a: 0xff });
    assert_eq!(ansi256_to_rgba(231), Rgba { r: 255, g: 255, b: 255, a: 0xff });
    // 196 = 16 + 180: r = 5, g = 0, b = 0.
    assert_eq!(ansi256_to_rgba(196), Rgba { r: 255, g: 0, b: 0, a: 0xff });
    // 110 = 16 + 94: r = 2, g = 3, b = 4.
    assert_eq!(ansi256_to_rgba(110), Rgba { r: 102, g: 153, b: 204, a: 0xff });
    assert_eq!(ansi256_to_rgba(232), Rgba { r: 8, g: 8, b: 8, a: 0xff });
    assert_eq!(ansi256_to_rgba(255), Rgba { r: 238, g: 238, b: 238, a: 0xff });
    assert_eq!(
        color_to_rgba(Color::Reset, true),
        Rgba { r: 0x10, g: 0x11, b: 0x1c, a: 0xff }
    );
    assert_eq!(
        color_to_rgba(Color::Reset, false),
        Rgba { r: 0xab, g: 0xb2, b: 0xbf, a: 0xff }
    );
    assert_eq!(color_to_rgba(Color::Indexed(196), false), ansi256_to_rgba(196));
}

#[test]
fn every_modifier_bit() {
    let all = MODIFIER_BOLD
        | MODIFIER_DIM
        | MODIFIER_ITALIC
        | MODIFIER_UNDERLINED
        | MODIFIER_REVERSED
        | MODIFIER_CROSSED_OUT;
    assert_eq!(
        modifier_to_bits(all),
        ATTR_BOLD | ATTR_DIM | ATTR_ITALIC | ATTR_UNDERLINE | ATTR_REVERSED | ATTR_CROSSED_OUT
    );
    assert_eq!(modifier_to_bits(0), 0);
    // Blink and hidden bits have no wire attribute.
    assert_eq!(modifier_to_bits(0b0000_1011_0000), 0);
}

#[test]
fn wire_keys() {
    let w = WireModBits {
        shift: 0x10,
        ctrl: 0x20,
        alt: 0x40,
        sup: 0x80,
    };
    assert_eq!(unpack_mods(0x10 | 0x80, w), MOD_SHIFT | MOD_SUPER);
    assert_eq!(unpack_mods(0x20 | 0x40, w), MOD_CONTROL | MOD_ALT);
    assert_eq!(unpack_mods(0x0f, w), 0);
    let k = key_from_wire(KeyCode::Char('c'), 0x20, w);
    assert_eq!(
        k,
        KeyEvent {
            code: KeyCode::Char('c'),
            modifiers: MOD_CONTROL
        }
    );
    assert!(is_interrupt(k));
    assert!(!is_interrupt(key_from_wire(KeyCode::Char('c'), 0, w)));
    assert!(!is_interrupt(key_from_wire(KeyCode::Char('x'), 0x20, w)));
}

#[test]
fn frames_and_resizes() {
    let prev = vec![Cell::default(); 6];
    let mut cur = prev.clone();
    cur[1].fg = 7;
    let runs = frame_runs(&prev, (3, 2), &cur, (3, 2));
    assert_eq!(runs.len(), 1);
    assert_eq!(runs[0].start, 1);
    assert_eq!(runs[0].cells, vec![cur[1]]);
    let runs = frame_runs(&prev, (2, 3), &cur, (3, 2));
    assert_eq!(runs.len(), 1);
    assert_eq!(runs[0].start, 0);
    assert_eq!(runs[0].cells, cur);
    let runs = frame_runs(&Vec::new(), (0, 0), &cur, (3, 2));
    assert_eq!(runs[0].cells.len(), 6);

    assert_eq!(accept_resize(80, 24, Some((100, 30))), Some((100, 30)));
    assert_eq!(accept_resize(80, 24, Some((80, 24))), None);
    assert_eq!(accept_resize(80, 24, Some((0, 30))), None);
    assert_eq!(accept_resize(80, 24, None), None);

    let s: u64 = 1_000_000_000;
    assert!(!refresh_due(0, 0, 1000 * s));
    assert!(!refresh_due(60, 10 * s, 69 * s));
    assert!(refresh_due(60, 10 * s, 70 * s));
    assert!(!refresh_due(60, 70 * s, 10 * s));
}

#[test]
fn alt_bits_are_distinct() {
    assert_eq!(MOD_SHIFT | MOD_CONTROL | MOD_ALT | MOD_SUPER, 0x0f);
}
