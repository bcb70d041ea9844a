use mnml_virt_docker::app::{
    AfterLaunch, AfterProbe, AfterRun, App, InspectKind, Item, Request, RmPending, TabKind, Then,
};
use mnml_virt_docker::config::{Config, Tab};
use mnml_virt_docker::docker::{Container, DaemonState, DockerOutcome, Image, Volume};
use mnml_virt_docker::keys;

const SEC: u64 = 1_000_000_000;

fn tab(name: &str, kind: &str) -> Tab {
    Tab {
        name: name.into(),
        kind: kind.into(),
        project_path: None,
    }
}

fn container(id: &str, names: &str, state: &str, image: &str) -> Container {
    Container {
        id: id.into(),
        image: image.into(),
        names: names.into(),
        status: "Up".into(),
        state: state.into(),
        ports: String::new(),
        running_for: String::new(),
        command: String::new(),
        created_at: String::new(),
    }
}

fn finished(success: bool, stdout: &[u8], stderr: &[u8]) -> DockerOutcome {
    DockerOutcome::Finished {
        success,
        stdout: stdout.to_vec(),
        stderr: stderr.to_vec(),
    }
}

/// An app whose daemon answered, with the first tab's rows loaded.
fn online_app(interval: u64, rows: Vec<Item>) -> App {
    let cfg = Config {
        refresh_interval_secs: interval,
        tabs: vec![tab("containers", "containers"), tab("images", "images")],
    };
    let mut app = App::new(cfg).unwrap();
    app.on_probed(&finished(true, b"24.0.7\n", b""));
    app.on_listed(Ok(rows), 5 * SEC);
    app.request = None;
    app
}

fn two_containers() -> Vec<Item> {
    vec![
        Item::Container(container("aaaaaaaaaaaa1111", "alpha", "running", "redis:7")),
        Item::Container(container("bbbbbbbbbbbb2222", "beta", "exited", "postgres:16")),
    ]
}

#[test]
fn new_app_waits_for_the_startup_probe() {
    let cfg = Config {
        refresh_interval_secs: 60,
        tabs: vec![tab("containers", "containers")],
    };
    let app = App::new(cfg).unwrap();
    assert_eq!(app.tabs.len(), 1);
    assert_eq!(app.active_tab, 0);
    assert_eq!(app.status, "");
    assert_eq!(app.daemon, DaemonState::Offline);
    assert!(matches!(app.request, Some(Request::Probe(AfterProbe::Startup))));
    assert!(app.tabs[0].data.items.is_empty());
}

#[test]
fn new_app_without_tabs_runs_offline() {
    let cfg = Config {
        refresh_interval_secs: 60,
        tabs: Vec::new(),
    };
    let mut app = App::new(cfg).unwrap();
    assert!(app.tabs.is_empty());
    assert!(matches!(app.request, Some(Request::Probe(AfterProbe::Startup))));
    app.on_probed(&finished(
        false,
        b"",
        b"Cannot connect to the Docker daemon at unix:///var/run/docker.sock.",
    ));
    assert_eq!(app.daemon, DaemonState::Offline);
    assert_eq!(
        app.status,
        "docker daemon not running — start Docker Desktop, then press r"
    );
    assert!(!app.tick(1_000 * SEC));
    app.switch_tab(0);
    assert_eq!(app.active_tab, 0);
    app.ensure_focused_loaded();
    assert!(app.request.is_none());
    app.refresh_active();
    assert!(matches!(
        app.request,
        Some(Request::Probe(AfterProbe::Refresh(Then::Nothing)))
    ));
}

#[test]
fn focus_load_keeps_other_requests() {
    let mut app = online_app(0, two_containers());
    app.ensure_focused_loaded();
    app.on_inspected(&finished(true, b"detail", b""));
    app.yank_id();
    // The detail is cached: the pending copy stays as it was.
    app.ensure_focused_loaded();
    assert!(matches!(&app.request, Some(Request::Copy(t)) if t == "aaaaaaaaaaaa1111"));
}

#[test]
fn new_app_reports_the_first_bad_tab() {
    let cfg = Config {
        refresh_interval_secs: 60,
        tabs: vec![tab("ok", "images"), tab("bad", "bogus"), tab("worse", "nope")],
    };
    let err = App::new(cfg).err().unwrap();
    assert_eq!(err, "tab `bad`: unknown kind \"bogus\"");
}

#[test]
fn startup_probe_online_then_list_then_inspect() {
    let cfg = Config {
        refresh_interval_secs: 60,
        tabs: vec![tab("containers", "containers")],
    };
    let mut app = App::new(cfg).unwrap();
    app.on_probed(&finished(true, b"24.0.7\n", b""));
    assert_eq!(app.daemon, DaemonState::Online("24.0.7".into()));
    assert_eq!(app.status, "loading containers…");
    assert!(app.tabs[0].data.loading);
    match &app.request {
        Some(Request::List { tab, kind, then }) => {
            assert_eq!(*tab, 0);
            assert_eq!(*kind, TabKind::Containers);
            assert_eq!(*then, Then::EnsureFocused);
        }
        other => panic!("unexpected request {other:?}"),
    }
    app.on_listed(Ok(two_containers()), 7 * SEC);
    assert_eq!(app.status, "containers: 2 containers");
    assert!(!app.tabs[0].data.loading);
    assert_eq!(app.tabs[0].data.last_loaded, Some(7 * SEC));
    match &app.request {
        Some(Request::Inspect { tab, id, kind }) => {
            assert_eq!(*tab, 0);
            assert_eq!(id, "aaaaaaaaaaaa1111");
            assert_eq!(*kind, InspectKind::Object);
        }
        other => panic!("unexpected request {other:?}"),
    }
    app.on_inspected(&finished(true, b"[{\"Id\":\"a\"}]", b""));
    assert!(app.request.is_none());
    assert_eq!(
        app.tabs[0].data.focused_detail.as_deref(),
        Some("[{\"Id\":\"a\"}]")
    );
    assert_eq!(
        app.tabs[0].data.focused_detail_for.as_deref(),
        Some("aaaaaaaaaaaa1111")
    );
}

#[test]
fn startup_probe_unknown_version_when_blank() {
    let cfg = Config {
        refresh_interval_secs: 60,
        tabs: vec![tab("containers", "containers")],
    };
    let mut app = App::new(cfg).unwrap();
    app.on_probed(&finished(true, b"  \n", b""));
    assert_eq!(app.daemon, DaemonState::Online("unknown".into()));
}

#[test]
fn startup_probe_offline_and_retry_still_offline() {
    let cfg = Config {
        refresh_interval_secs: 60,
        tabs: vec![tab("containers", "containers")],
    };
    let mut app = App::new(cfg).unwrap();
    let offline = finished(
        false,
        b"",
        b"Cannot connect to the Docker daemon at unix:///var/run/docker.sock. Is the docker daemon running?\n",
    );
    app.on_probed(&offline);
    assert_eq!(app.daemon, DaemonState::Offline);
    assert_eq!(
        app.status,
        "docker daemon not running — start Docker Desktop, then press r"
    );
    assert!(app.request.is_none());
    app.refresh_active();
    assert!(matches!(
        app.request,
        Some(Request::Probe(AfterProbe::Refresh(Then::Nothing)))
    ));
    app.on_probed(&offline);
    assert_eq!(
        app.status,
        "docker daemon still offline — start Docker Desktop, then press r"
    );
    assert!(app.request.is_none());
}

#[test]
fn probe_cli_missing_and_other_errors() {
    let cfg = Config {
        refresh_interval_secs: 60,
        tabs: vec![tab("containers", "containers")],
    };
    let mut app = App::new(cfg.clone()).unwrap();
    app.on_probed(&DockerOutcome::NotStarted);
    assert_eq!(
        app.daemon,
        DaemonState::CliMissing("spawn `docker version --format {{.Server.Version}}`".into())
    );
    assert_eq!(
        app.status,
        "docker CLI not found: spawn `docker version --format {{.Server.Version}}`"
    );

    let mut app = App::new(cfg).unwrap();
    app.on_probed(&finished(false, b"", b"  permission denied \n"));
    assert_eq!(app.daemon, DaemonState::Error("permission denied".into()));
    assert_eq!(app.status, "docker error: permission denied");
}

#[test]
fn list_error_marks_daemon_offline_or_records_error() {
    let mut app = online_app(0, two_containers());
    app.refresh_active();
    app.on_listed(
        Err("docker: Cannot connect to the Docker daemon at unix:///x".into()),
        9 * SEC,
    );
    assert_eq!(app.daemon, DaemonState::Offline);
    assert_eq!(
        app.status,
        "docker daemon not running — start Docker Desktop, then press r"
    );
    assert!(app.tabs[0].data.last_error.is_none());

    let mut app = online_app(0, two_containers());
    app.refresh_active();
    app.on_listed(Err("parse docker ndjson line 2".into()), 9 * SEC);
    assert_eq!(
        app.tabs[0].data.last_error.as_deref(),
        Some("parse docker ndjson line 2")
    );
    assert_eq!(app.status, "error: parse docker ndjson line 2");
    assert!(!app.tabs[0].data.loading);
    // The rows stay as they were.
    assert_eq!(app.tabs[0].data.items.len(), 2);
}

#[test]
fn reload_keeps_cursor_in_range_and_drops_stale_detail() {
    let mut app = online_app(0, two_containers());
    app.move_selection(1);
    app.on_inspected(&finished(true, b"detail of beta", b""));
    assert_eq!(app.tabs[0].data.selected, 1);
    app.refresh_active();
    let one = vec![Item::Container(container(
        "aaaaaaaaaaaa1111",
        "alpha",
        "running",
        "redis:7",
    ))];
    app.on_listed(Ok(one), 20 * SEC);
    assert_eq!(app.tabs[0].data.selected, 0);
    assert!(app.tabs[0].data.focused_detail.is_none());
    assert!(app.tabs[0].data.focused_detail_for.is_none());
    assert_eq!(app.status, "containers: 1 containers");
}

#[test]
fn reload_keeps_detail_when_focus_unchanged() {
    let mut app = online_app(0, two_containers());
    app.ensure_focused_loaded();
    app.on_inspected(&finished(true, b"detail of alpha", b""));
    app.refresh_active();
    app.on_listed(Ok(two_containers()), 30 * SEC);
    assert_eq!(
        app.tabs[0].data.focused_detail.as_deref(),
        Some("detail of alpha")
    );
    // Cached: no new inspect is asked for.
    app.ensure_focused_loaded();
    assert!(app.request.is_none());
}

#[test]
fn inspect_failure_is_shown_in_the_detail() {
    let mut app = online_app(0, two_containers());
    app.ensure_focused_loaded();
    app.on_inspected(&finished(false, b"", b"Error: No such object: x\n"));
    assert_eq!(
        app.tabs[0].data.focused_detail.as_deref(),
        Some("(inspect failed: docker: Error: No such object: x)")
    );
}

#[test]
fn inspect_kind_follows_the_row() {
    let vol = Item::Volume(Volume {
        name: "pgdata".into(),
        driver: "local".into(),
        mountpoint: "/m".into(),
        scope: "local".into(),
    });
    let mut app = online_app(0, vec![vol]);
    app.ensure_focused_loaded();
    match &app.request {
        Some(Request::Inspect { id, kind, .. }) => {
            assert_eq!(id, "pgdata");
            assert_eq!(*kind, InspectKind::Volume);
        }
        other => panic!("unexpected request {other:?}"),
    }
    app.on_inspected(&finished(true, &[0xff, 0xfe], b""));
    assert_eq!(
        app.tabs[0].data.focused_detail.as_deref(),
        Some("(inspect failed: docker volume inspect stdout was not UTF-8)")
    );
}

#[test]
fn tick_refreshes_only_when_stale() {
    let mut app = online_app(60, two_containers());
    assert!(!app.tick(5 * SEC + 59 * SEC));
    assert!(app.request.is_none());
    assert!(app.tick(5 * SEC + 60 * SEC));
    assert!(app.tabs[0].data.loading);
    assert!(matches!(
        app.request,
        Some(Request::List { tab: 0, then: Then::Nothing, .. })
    ));
    // Already loading: no second refresh.
    assert!(!app.tick(500 * SEC));
}

#[test]
fn tick_disabled_when_interval_zero() {
    let mut app = online_app(0, two_containers());
    assert!(!app.tick(10_000 * SEC));
    assert!(app.request.is_none());
}

#[test]
fn switch_tab_loads_an_empty_tab() {
    let mut app = online_app(0, two_containers());
    app.switch_tab(1);
    assert_eq!(app.active_tab, 1);
    assert_eq!(app.status, "loading images…");
    match &app.request {
        Some(Request::List { tab, kind, then }) => {
            assert_eq!(*tab, 1);
            assert_eq!(*kind, TabKind::Images);
            assert_eq!(*then, Then::EnsureFocused);
        }
        other => panic!("unexpected request {other:?}"),
    }
    // Out of range: nothing happens.
    let before = app.active_tab;
    app.request = None;
    app.switch_tab(7);
    assert_eq!(app.active_tab, before);
    assert!(app.request.is_none());
}

#[test]
fn move_selection_clamps_and_requests_detail() {
    let mut app = online_app(0, two_containers());
    app.move_selection(10);
    assert_eq!(app.tabs[0].data.selected, 1);
    assert!(matches!(&app.request, Some(Request::Inspect { id, .. }) if id == "bbbbbbbbbbbb2222"));
    app.move_selection(-10);
    assert_eq!(app.tabs[0].data.selected, 0);
}

#[test]
fn yank_then_copied() {
    let mut app = online_app(0, two_containers());
    app.yank_id();
    assert!(matches!(&app.request, Some(Request::Copy(t)) if t == "aaaaaaaaaaaa1111"));
    app.on_copied(Ok(()));
    assert_eq!(app.status, "copied: aaaaaaaaaaaa1111");
    assert!(app.request.is_none());
    app.yank_id();
    app.on_copied(Err("spawn xclip: not found".into()));
    assert_eq!(app.status, "copy failed: spawn xclip: not found");
}

#[test]
fn yank_on_empty_tab() {
    let mut app = online_app(0, Vec::new());
    app.yank_id();
    assert_eq!(app.status, "no item under cursor");
    assert!(app.request.is_none());
}

#[test]
fn logs_and_exec_queue_commands() {
    let mut app = online_app(0, two_containers());
    app.tail_logs();
    assert_eq!(
        app.pending_spawns,
        vec![vec![
            "docker".to_string(),
            "logs".into(),
            "-f".into(),
            "aaaaaaaaaaaa1111".into()
        ]]
    );
    assert_eq!(app.status, "tailing logs for alpha…");
    app.exec_shell();
    assert_eq!(app.pending_spawns.len(), 2);
    assert_eq!(
        app.pending_spawns[1],
        vec![
            "docker".to_string(),
            "exec".into(),
            "-it".into(),
            "aaaaaaaaaaaa1111".into(),
            "/bin/sh".into(),
            "-c".into(),
            "if [ -x /bin/bash ]; then exec /bin/bash; else exec /bin/sh; fi".into()
        ]
    );
    assert_eq!(app.status, "exec into alpha…");
    app.move_selection(1);
    app.exec_shell();
    assert_eq!(app.status, "exec: beta is not running");
    assert_eq!(app.pending_spawns.len(), 2);
}

#[test]
fn exec_accepts_running_in_any_case() {
    let rows = vec![Item::Container(container("c1", "gamma", "RUNNING", "x"))];
    let mut app = online_app(0, rows);
    app.exec_shell();
    assert_eq!(app.status, "exec into gamma…");
}

#[test]
fn container_only_actions_on_images() {
    let img = Item::Image(Image {
        id: "sha256:0123456789abcdef".into(),
        repository: "redis".into(),
        tag: "7".into(),
        size: "1MB".into(),
        created_since: "now".into(),
        created_at: String::new(),
        digest: String::new(),
    });
    let mut app = online_app(0, vec![img]);
    app.tail_logs();
    assert_eq!(app.status, "logs: only available on containers");
    app.exec_shell();
    assert_eq!(app.status, "exec: only available on containers");
    app.stop_or_start(true);
    assert_eq!(app.status, "stop/start: only available on containers");
    assert!(app.pending_spawns.is_empty());
    assert!(app.request.is_none());
}

#[test]
fn stop_then_ran_then_refresh() {
    let mut app = online_app(0, two_containers());
    app.stop_or_start(false);
    match &app.request {
        Some(Request::Run { args, then }) => {
            assert_eq!(args, &vec!["stop".to_string(), "aaaaaaaaaaaa1111".into()]);
            assert!(matches!(then, AfterRun::Stopped(l) if l == "alpha"));
        }
        other => panic!("unexpected request {other:?}"),
    }
    app.on_ran(&finished(true, b"aaaaaaaaaaaa1111\n", b""));
    // The refresh that follows replaces the status with the loading line.
    assert_eq!(app.status, "loading containers…");
    assert!(matches!(
        app.request,
        Some(Request::List { tab: 0, then: Then::Nothing, .. })
    ));
}

#[test]
fn start_failure_shows_docker_error() {
    let mut app = online_app(0, two_containers());
    app.stop_or_start(true);
    match &app.request {
        Some(Request::Run { args, .. }) => {
            assert_eq!(args, &vec!["start".to_string(), "aaaaaaaaaaaa1111".into()]);
        }
        other => panic!("unexpected request {other:?}"),
    }
    app.on_ran(&finished(false, b"", b" Error response from daemon: boom\n"));
    assert_eq!(app.status, "docker: Error response from daemon: boom");
    assert!(app.request.is_none());
}

#[test]
fn ran_when_docker_missing() {
    let mut app = online_app(0, two_containers());
    app.stop_or_start(true);
    app.on_ran(&DockerOutcome::NotStarted);
    assert_eq!(app.status, "spawn `docker start aaaaaaaaaaaa1111`");
}

#[test]
fn confirm_rm_runs_removal() {
    let mut app = online_app(0, two_containers());
    app.enter_rm_confirm();
    assert_eq!(
        app.status,
        "remove container aaaaaaaaaaaa — y to confirm, n / Esc to cancel"
    );
    app.confirm_rm();
    assert!(app.rm_pending.is_none());
    match &app.request {
        Some(Request::Run { args, then }) => {
            assert_eq!(
                args,
                &vec!["rm".to_string(), "-f".into(), "aaaaaaaaaaaa1111".into()]
            );
            assert!(matches!(then, AfterRun::Removed(RmPending::Container(id)) if id == "aaaaaaaaaaaa1111"));
        }
        other => panic!("unexpected request {other:?}"),
    }
    app.on_ran(&finished(true, b"", b""));
    assert_eq!(app.status, "loading containers…");
}

#[test]
fn confirm_without_pending_does_nothing() {
    let mut app = online_app(0, two_containers());
    let status = app.status.clone();
    app.confirm_rm();
    assert!(app.request.is_none());
    assert_eq!(app.status, status);
    app.cancel_rm();
    assert_eq!(app.status, status);
}

#[test]
fn open_desktop_by_platform() {
    let mut app = online_app(0, two_containers());
    app.open_docker_desktop(false);
    assert_eq!(app.status, "Docker Desktop launch only supported on macOS");
    assert!(app.request.is_none());
    app.open_docker_desktop(true);
    match &app.request {
        Some(Request::Launch { argv, then }) => {
            assert_eq!(
                argv,
                &vec!["open".to_string(), "-a".into(), "Docker Desktop".into()]
            );
            assert!(matches!(then, AfterLaunch::Desktop));
        }
        other => panic!("unexpected request {other:?}"),
    }
    app.on_launched(Err("no open".into()));
    assert_eq!(app.status, "open Docker Desktop failed: no open");
}

fn image(repo: &str, tag: &str) -> Image {
    Image {
        id: format!("sha256:{repo}{tag}"),
        repository: repo.into(),
        tag: tag.into(),
        size: "1MB".into(),
        created_since: "now".into(),
        created_at: String::new(),
        digest: String::new(),
    }
}

#[test]
fn ecr_handoff_from_image() {
    let rows = vec![
        Item::Image(image("123456789012.dkr.ecr.eu-west-2.amazonaws.com/app", "v1")),
        Item::Image(image("redis", "7")),
    ];
    let mut app = online_app(0, rows);
    app.handoff_ecr();
    match &app.request {
        Some(Request::Launch { argv, then }) => {
            assert_eq!(
                argv,
                &vec![
                    "mnml-aws-ecr".to_string(),
                    "--region".into(),
                    "eu-west-2".into()
                ]
            );
            assert!(matches!(then, AfterLaunch::Ecr(r) if r == "eu-west-2"));
        }
        other => panic!("unexpected request {other:?}"),
    }
    app.on_launched(Ok(()));
    assert_eq!(app.status, "launched mnml-aws-ecr (eu-west-2)");
    app.move_selection(1);
    app.request = None;
    app.handoff_ecr();
    assert_eq!(app.status, "not an ECR image: redis:7");
    assert!(app.request.is_none());
    app.handoff_ecr();
    app.on_launched(Ok(()));
    assert_eq!(app.status, "not an ECR image: redis:7");
}

#[test]
fn ecr_handoff_not_for_containers() {
    let rows = vec![Item::Container(container(
        "c1",
        "svc",
        "running",
        "123456789012.dkr.ecr.eu-west-2.amazonaws.com/app:v1",
    ))];
    let mut app = online_app(0, rows);
    app.handoff_ecr();
    assert_eq!(app.status, "L jump: only available on images");
    assert!(app.request.is_none());
}

#[test]
fn ecr_handoff_spawn_failure() {
    let rows = vec![Item::Image(image(
        "123456789012.dkr.ecr.eu-west-2.amazonaws.com/app",
        "v1",
    ))];
    let mut app = online_app(0, rows);
    app.handoff_ecr();
    app.on_launched(Err("not found".into()));
    assert_eq!(
        app.status,
        "spawn mnml-aws-ecr failed (install it?): not found"
    );
}

#[test]
fn tabless_app_takes_tab_free_keys() {
    use_keys_without_tabs();
}

fn use_keys_without_tabs() {
    let mut app = App::new(Config {
        refresh_interval_secs: 0,
        tabs: Vec::new(),
    })
    .unwrap();
    app.on_probed(&DockerOutcome::NotStarted);
    assert!(!keys::apply(keys::Action::SwitchTab(3), &mut app, false));
    assert!(!keys::apply(keys::Action::OpenDesktop, &mut app, false));
    assert_eq!(app.status, "Docker Desktop launch only supported on macOS");
    assert!(!keys::apply(keys::Action::CancelRm, &mut app, false));
    assert!(!keys::apply(keys::Action::ConfirmRm, &mut app, false));
    assert!(app.request.is_none());
    assert!(!keys::apply(keys::Action::Refresh, &mut app, false));
    assert!(matches!(app.request, Some(Request::Probe(_))));
    assert!(keys::apply(keys::Action::Quit, &mut app, false));
}
