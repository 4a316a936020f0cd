use pinup_supervisor::drain::BackendEvent;
use pinup_supervisor::drain::Drain;
use pinup_supervisor::drain::DrainAction;
use pinup_supervisor::health::ProbeAction;
use pinup_supervisor::health::ProbeOutcome;
use pinup_supervisor::health::Prober;
use pinup_supervisor::health::exhausted_message;
use pinup_supervisor::launch::SpawnErrorKind;
use pinup_supervisor::launch::plan_launch;
use pinup_supervisor::launch::spawn_error_message;
use pinup_supervisor::paths::data_dir;
use pinup_supervisor::paths::data_dir_from;
use pinup_supervisor::paths::db_path;
use pinup_supervisor::ports::DEFAULT_PORT;
use pinup_supervisor::ports::allocate_port;
use pinup_supervisor::ports::resolve_port;
use pinup_supervisor::supervisor::Notification;
use pinup_supervisor::supervisor::Phase;
use pinup_supervisor::supervisor::Supervisor;
use pinup_supervisor::supervisor::restart_message;
use pinup_supervisor::supervisor::token_fallback;
use pinup_supervisor::text::base_url;
use pinup_supervisor::text::health_url;
use pinup_supervisor::text::u64_to_dec;

// ── decimal rendering and URLs ─────────────────────────────────────────

#[test]
fn decimal_rendering_exact() {
    assert_eq!(u64_to_dec(0), "0");
    assert_eq!(u64_to_dec(7), "7");
    assert_eq!(u64_to_dec(10), "10");
    assert_eq!(u64_to_dec(8111), "8111");
    assert_eq!(u64_to_dec(65535), "65535");
    assert_eq!(u64_to_dec(u64::MAX), "18446744073709551615");
}

#[test]
fn urls_from_port() {
    assert_eq!(base_url(8111), "http://127.0.0.1:8111/api");
    assert_eq!(health_url(8111), "http://127.0.0.1:8111/api/health");
    assert_eq!(health_url(1), "http://127.0.0.1:1/api/health");
}

// ── port allocation ────────────────────────────────────────────────────

#[test]
fn resolve_port_uses_offer_or_default() {
    assert_eq!(resolve_port(Some(9000)), 9000);
    assert_eq!(resolve_port(None), DEFAULT_PORT);
    assert_eq!(resolve_port(Some(0)), DEFAULT_PORT);
    assert_eq!(DEFAULT_PORT, 8111);
}

#[test]
fn allocated_port_is_never_zero() {
    assert_ne!(allocate_port(), 0);
}

// ── paths ──────────────────────────────────────────────────────────────

#[test]
fn data_dir_from_root() {
    assert_eq!(data_dir_from(None), "./pin-up-ai");
    assert_eq!(
        data_dir_from(Some(String::from("/home/u/.local/share"))),
        "/home/u/.local/share/pin-up-ai"
    );
}

#[test]
fn data_dir_and_db_path_shape() {
    assert!(data_dir().ends_with("/pin-up-ai"));
    assert!(db_path().ends_with("/pin-up-ai/pinup.db"));
}

// ── launch plan ────────────────────────────────────────────────────────

#[test]
fn launch_plan_derives_args_and_env() {
    let plan = plan_launch(8111, String::from("/tmp/pin-up-ai/pinup.db"));
    assert_eq!(plan.port, 8111);
    assert_eq!(plan.program, "pinup-backend");
    assert_eq!(plan.args, vec!["--port".to_string(), "8111".to_string()]);
    assert_eq!(plan.env.len(), 3);
    assert_eq!(plan.env[0].name, "PINUP_PORT");
    assert_eq!(plan.env[0].value, "8111");
    assert_eq!(plan.env[1].name, "PINUP_DB");
    assert_eq!(plan.env[1].value, "/tmp/pin-up-ai/pinup.db");
    assert_eq!(plan.env[2].name, "PINUP_HOST");
    assert_eq!(plan.env[2].value, "127.0.0.1");
}

#[test]
fn spawn_error_messages_exact() {
    assert_eq!(
        spawn_error_message(SpawnErrorKind::MissingBinary, "no such file"),
        "Sidecar binary not found: no such file"
    );
    assert_eq!(
        spawn_error_message(SpawnErrorKind::SpawnRefused, "permission denied"),
        "Failed to spawn sidecar: permission denied"
    );
}

// ── health probing ─────────────────────────────────────────────────────

#[test]
fn probe_succeeds_after_two_failures() {
    // Two failed attempts, then a success: the probe returns the healthy
    // body on the third attempt and has commanded two full delays
    // (2 x 100 ms >= 200 ms) before it.
    let mut prober = Prober::new(3, 100);
    let mut slept_ms: u64 = 0;
    match prober.observe(ProbeOutcome::Down) {
        ProbeAction::Retry { delay_ms } => slept_ms += delay_ms,
        _ => panic!("first failure must schedule a retry"),
    }
    match prober.observe(ProbeOutcome::Down) {
        ProbeAction::Retry { delay_ms } => slept_ms += delay_ms,
        _ => panic!("second failure must schedule a retry"),
    }
    match prober.observe(ProbeOutcome::Up { body: String::from("ok") }) {
        ProbeAction::Ready { body } => assert_eq!(body, "ok"),
        _ => panic!("success must end the probe"),
    }
    assert_eq!(slept_ms, 200);
    assert!(slept_ms >= 200);
    // Each attempt's round trip is capped by the 2000 ms probe
    // timeout, so the whole probe stays under 3 x (2000 + 100) ms of
    // commanded waiting.
    assert!(slept_ms < 3 * (2000 + 100));
    assert!(prober.is_done());
}

#[test]
fn probe_makes_exactly_r_attempts_then_fails() {
    let mut prober = Prober::new(3, 100);
    let mut attempts = 0;
    let mut slept_ms: u64 = 0;
    loop {
        attempts += 1;
        match prober.observe(ProbeOutcome::Down) {
            ProbeAction::Retry { delay_ms } => {
                assert_eq!(delay_ms, 100);
                slept_ms += delay_ms;
            }
            ProbeAction::Exhausted { message } => {
                assert_eq!(message, "Backend did not become healthy after 3 attempts");
                break;
            }
            ProbeAction::Ready { .. } => panic!("no attempt succeeded"),
        }
    }
    assert_eq!(attempts, 3);
    // A delay is commanded only before a next attempt, never after the
    // last one.
    assert_eq!(slept_ms, 200);
    assert!(prober.is_done());
}

#[test]
fn probe_succeeds_immediately_on_first_attempt() {
    let mut prober = Prober::new(15, 500);
    match prober.observe(ProbeOutcome::Up { body: String::from("{\"status\":\"ok\"}") }) {
        ProbeAction::Ready { body } => assert_eq!(body, "{\"status\":\"ok\"}"),
        _ => panic!("success must end the probe"),
    }
    assert!(prober.is_done());
}

#[test]
fn zero_probe_budget_is_already_exhausted() {
    // No attempt may be made and no delay is taken; the probe fails
    // with the exhaustion message naming 0.
    let prober = Prober::new(0, 100);
    assert!(prober.is_done());
    assert_eq!(
        exhausted_message(0),
        "Backend did not become healthy after 0 attempts"
    );
}

#[test]
fn exhausted_message_names_the_attempt_count() {
    assert_eq!(
        exhausted_message(10),
        "Backend did not become healthy after 10 attempts"
    );
    assert_eq!(
        exhausted_message(15),
        "Backend did not become healthy after 15 attempts"
    );
}

// ── output drain ───────────────────────────────────────────────────────

#[test]
fn drain_classifies_lines() {
    let mut drain = Drain::new();
    match drain.on_event(BackendEvent::Stdout { line: String::from("listening") }) {
        DrainAction::LogInfo { line } => assert_eq!(line, "listening"),
        _ => panic!("stdout lines are informational"),
    }
    match drain.on_event(BackendEvent::Stderr { line: String::from("deprecated flag") }) {
        DrainAction::LogWarn { line } => assert_eq!(line, "deprecated flag"),
        _ => panic!("stderr lines are warnings"),
    }
    match drain.on_event(BackendEvent::Other) {
        DrainAction::Ignore => {}
        _ => panic!("unrecognized events are ignored"),
    }
    assert!(!drain.is_stopped());
}

#[test]
fn termination_notifies_exactly_once_and_never_relaunches() {
    // A stream with normal output, then a termination, then lines the
    // dead process can no longer produce: the drain consumes events
    // until the termination, sends exactly one crash notification, and
    // stops — it never schedules a relaunch.
    let events = vec![
        BackendEvent::Stdout { line: String::from("boot") },
        BackendEvent::Terminated { detail: String::from("signal: 9") },
        BackendEvent::Stdout { line: String::from("unreachable") },
        BackendEvent::Terminated { detail: String::from("never seen") },
    ];
    let mut drain = Drain::new();
    let mut crash_notes = 0;
    for event in events {
        if drain.is_stopped() {
            break;
        }
        match drain.on_event(event) {
            DrainAction::NotifyCrashed { detail } => {
                crash_notes += 1;
                assert_eq!(detail, "signal: 9");
            }
            DrainAction::LogInfo { .. } | DrainAction::LogWarn { .. } | DrainAction::Ignore => {}
        }
    }
    assert_eq!(crash_notes, 1);
    assert!(drain.is_stopped());
}

// ── supervisor slot ────────────────────────────────────────────────────

#[test]
fn port_is_zero_before_any_launch() {
    let supervisor = Supervisor::new();
    assert_eq!(supervisor.get_backend_port(), 0);
    assert_eq!(supervisor.phase(), Phase::Empty);
}

#[test]
fn port_tracks_the_last_installed_launch() {
    let mut supervisor = Supervisor::new();
    supervisor.begin_launch();
    supervisor.install_backend(8111, 1);
    assert_eq!(supervisor.get_backend_port(), 8111);
    supervisor.begin_launch();
    supervisor.install_backend(9000, 2);
    assert_eq!(supervisor.get_backend_port(), 9000);
}

#[test]
fn bootstrap_refused_only_before_first_launch() {
    let mut supervisor = Supervisor::new();
    match supervisor.get_bootstrap(String::from("tok")) {
        Err(message) => assert_eq!(message, "Backend not started"),
        Ok(_) => panic!("bootstrap must be refused before any launch"),
    }
    supervisor.begin_launch();
    supervisor.install_backend(8111, 1);
    let config = supervisor.get_bootstrap(String::from("tok")).expect("port is known");
    assert_eq!(config.base_url, "http://127.0.0.1:8111/api");
    assert_eq!(config.token, "tok");
    assert!(config.data_dir.ends_with("/pin-up-ai"));
}

#[test]
fn bootstrap_reflects_port_whatever_the_probe_outcome() {
    let mut supervisor = Supervisor::new();
    supervisor.begin_launch();
    supervisor.install_backend(8111, 1);
    match supervisor.record_probe_failed(exhausted_message(15)) {
        Notification::Error { message } => {
            assert_eq!(message, "Backend did not become healthy after 15 attempts");
        }
        _ => panic!("an exhausted probe reports the error notification"),
    }
    let config = supervisor.get_bootstrap(String::from("t")).expect("still answers");
    assert_eq!(config.base_url, "http://127.0.0.1:8111/api");
}

#[test]
fn ready_notification_carries_the_port() {
    let mut supervisor = Supervisor::new();
    supervisor.begin_launch();
    supervisor.install_backend(8111, 1);
    let note = supervisor.record_ready();
    match &note {
        Notification::Ready { port } => assert_eq!(*port, 8111),
        _ => panic!("the first healthy response reports readiness"),
    }
    assert_eq!(note.channel(), "backend-ready");
    assert_eq!(supervisor.phase(), Phase::Ready);
}

#[test]
fn restart_terminates_the_old_process_before_installing_the_new() {
    let mut supervisor = Supervisor::new();
    supervisor.begin_launch();
    supervisor.install_backend(8111, 7);
    supervisor.record_ready();
    // Restart: the old handle leaves the slot first, for termination;
    // the port still answers with the pre-restart value until the new
    // process is installed, and afterwards only with the new one.
    let taken = supervisor.begin_launch();
    assert_eq!(taken, Some(7));
    assert_eq!(supervisor.get_backend_port(), 8111);
    supervisor.install_backend(8222, 8);
    assert_eq!(supervisor.get_backend_port(), 8222);
    let config = supervisor.get_bootstrap(String::from("t")).expect("new port");
    assert_eq!(config.base_url, "http://127.0.0.1:8222/api");
    // The old handle is gone: a further restart has nothing to kill
    // but the new process.
    assert_eq!(supervisor.begin_launch(), Some(8));
}

#[test]
fn port_is_old_or_new_at_every_restart_step() {
    let old_port = 8111;
    let new_port = 8222;
    let mut supervisor = Supervisor::new();
    supervisor.begin_launch();
    supervisor.install_backend(old_port, 1);
    let mut seen = vec![supervisor.get_backend_port()];
    supervisor.begin_launch();
    seen.push(supervisor.get_backend_port());
    supervisor.install_backend(new_port, 2);
    seen.push(supervisor.get_backend_port());
    for port in seen {
        assert!(port == old_port || port == new_port);
    }
}

#[test]
fn crash_drops_the_handle_keeps_the_port_and_does_not_relaunch() {
    let mut supervisor = Supervisor::new();
    supervisor.begin_launch();
    supervisor.install_backend(8111, 7);
    supervisor.record_ready();
    let note = supervisor.record_crash(7).expect("the supervised process crashed");
    assert!(matches!(note, Notification::Crashed));
    assert_eq!(note.channel(), "backend-crashed");
    assert_eq!(supervisor.phase(), Phase::Crashed);
    // No relaunch happened: the port is still the crashed process's,
    // and the dead handle is gone from the slot.
    assert_eq!(supervisor.get_backend_port(), 8111);
    // A second termination report for the same process records
    // nothing: the crash notification is sent at most once.
    assert!(supervisor.record_crash(7).is_none());
    assert_eq!(supervisor.begin_launch(), None);
}

#[test]
fn expected_death_during_restart_is_not_a_crash() {
    let mut supervisor = Supervisor::new();
    supervisor.begin_launch();
    supervisor.install_backend(8111, 7);
    supervisor.record_ready();
    // Restart takes the old handle out and kills that process; its
    // output stream closes during the settle delay. The termination
    // report of the process the slot no longer holds records nothing,
    // so the restart's installation still finds the slot launching.
    let taken = supervisor.begin_launch();
    assert_eq!(taken, Some(7));
    assert!(supervisor.record_crash(7).is_none());
    assert_eq!(supervisor.phase(), Phase::Launching);
    supervisor.install_backend(8222, 8);
    assert_eq!(supervisor.phase(), Phase::Probing);
    assert_eq!(supervisor.get_backend_port(), 8222);
    // The next restart finds the new process's handle, not nothing.
    assert_eq!(supervisor.begin_launch(), Some(8));
}

#[test]
fn stale_termination_after_restart_records_nothing() {
    let mut supervisor = Supervisor::new();
    supervisor.begin_launch();
    supervisor.install_backend(8111, 7);
    supervisor.begin_launch();
    supervisor.install_backend(8222, 8);
    // A lingering drain of the first process reports its death after
    // the new process is already installed: ignored.
    assert!(supervisor.record_crash(7).is_none());
    assert_eq!(supervisor.phase(), Phase::Probing);
    assert_eq!(supervisor.get_backend_port(), 8222);
    // The supervised process's own termination is still a crash.
    assert!(supervisor.record_crash(8).is_some());
    assert_eq!(supervisor.phase(), Phase::Crashed);
}

#[test]
fn failed_spawn_at_startup_returns_to_empty() {
    let mut supervisor = Supervisor::new();
    supervisor.begin_launch();
    supervisor.launch_failed();
    assert_eq!(supervisor.phase(), Phase::Empty);
    assert_eq!(supervisor.get_backend_port(), 0);
}

#[test]
fn failed_spawn_at_restart_keeps_the_old_port() {
    let mut supervisor = Supervisor::new();
    supervisor.begin_launch();
    supervisor.install_backend(8111, 1);
    supervisor.begin_launch();
    supervisor.launch_failed();
    assert_eq!(supervisor.phase(), Phase::RestartFailed);
    assert_eq!(supervisor.get_backend_port(), 8111);
}

#[test]
fn notification_channels() {
    let ready = Notification::Ready { port: 8111 };
    let error = Notification::Error { message: String::from("m") };
    let crashed = Notification::Crashed;
    assert_eq!(ready.channel(), "backend-ready");
    assert_eq!(error.channel(), "backend-error");
    assert_eq!(crashed.channel(), "backend-crashed");
}

#[test]
fn token_falls_back_to_empty() {
    assert_eq!(token_fallback(Some(String::from("secret"))), "secret");
    assert_eq!(token_fallback(None), "");
}

#[test]
fn restart_message_names_the_port() {
    assert_eq!(restart_message(8222), "Backend restarted on port 8222");
}
