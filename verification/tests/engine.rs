use pdp::engine::args::Arg;
use std::time::Duration;
use pdp::engine::builder::PDPEngineBuilder;
use pdp::engine::error::PDPError;
use pdp::engine::health::{
    check_health_and_wait, health_url, is_healthy, recovery_after_restart, recovery_after_wait, wait_round_end,
    wait_round_start, RecoveryStep,
};
use pdp::engine::runner::{
    after_forward, command_args, command_text, exit_wait_step, forwarded_signals,
    is_termination_signal, pid_for_signal, restart_outcome, restart_precheck, should_restart,
    signal_target, ChildRegistry, ExitWait, ForwardFollowUp, KillOutcome, WaitObservation,
    SIGHUP, SIGINT, SIGKILL, SIGTERM, SIGUSR1, SIGUSR2,
};

#[test]
fn builder_defaults() {
    let b = PDPEngineBuilder::new();
    assert!(b.python_path.is_none());
    assert!(b.pdp_dir.is_none());
    assert!(b.args.is_empty());
    assert!(b.env_vars.is_empty());
    assert_eq!(b.base_url, "http://localhost:7001/");
    assert_eq!(b.health_timeout, Duration::from_secs(10));
    assert_eq!(b.health_check_interval, Duration::from_secs(10));
}

#[test]
fn builder_refuses_missing_paths_in_order() {
    match PDPEngineBuilder::new().into_present() {
        Err(PDPError::PythonBinaryNotFound(m)) => assert_eq!(m, "Python binary path not provided"),
        _ => panic!("python path should be missing"),
    }
    let b = PDPEngineBuilder::new().with_python_path("/usr/bin/python3".to_string(), true).unwrap();
    match b.into_present() {
        Err(PDPError::PDPDirNotFound(m)) => assert_eq!(m, "PDP directory path not provided"),
        _ => panic!("pdp dir should be missing"),
    }
}

#[test]
fn builder_with_both_paths_is_present() {
    let b = PDPEngineBuilder::new()
        .add_arg(Arg::Port(7001))
        .add_env("A".to_string(), "1".to_string())
        .with_python_path("/usr/bin/python3".to_string(), true)
        .unwrap()
        .with_pdp_dir("/srv/pdp".to_string(), true)
        .unwrap();
    let p = b.into_present().ok().unwrap();
    assert_eq!(p.python_path.as_deref(), Some("/usr/bin/python3"));
    assert_eq!(p.pdp_dir.as_deref(), Some("/srv/pdp"));
    assert_eq!(p.args.len(), 1);
    assert_eq!(p.env_vars.get("A").map(|s| s.as_str()), Some("1"));
}

#[test]
fn builder_refuses_bad_paths() {
    match PDPEngineBuilder::new().with_python_path("/nope".to_string(), false) {
        Err(PDPError::PythonBinaryNotFound(m)) => {
            assert_eq!(m, "Provided Python path is not an executable file")
        }
        _ => panic!("expected a refusal"),
    }
    match PDPEngineBuilder::new().with_pdp_dir("/nope".to_string(), false) {
        Err(PDPError::PDPDirNotFound(m)) => {
            assert_eq!(m, "Provided PDP directory path does not exist")
        }
        _ => panic!("expected a refusal"),
    }
    match PDPEngineBuilder::new().with_cwd_as_pdp_dir(Err("no cwd".to_string()), true) {
        Err(PDPError::PDPDirNotFound(m)) => assert_eq!(m, "no cwd"),
        _ => panic!("expected a refusal"),
    }
    match PDPEngineBuilder::new()
        .with_located_python(Err(PDPError::PythonBinaryNotFound("gone".to_string())), true)
    {
        Err(PDPError::PythonBinaryNotFound(m)) => assert_eq!(m, "gone"),
        _ => panic!("expected a refusal"),
    }
    let b = PDPEngineBuilder::new()
        .with_located_python(Ok("/bin/python3".to_string()), true)
        .unwrap();
    assert_eq!(b.python_path.as_deref(), Some("/bin/python3"));
}

#[test]
fn builder_durations_and_env() {
    let mut env = pdp::strmap::StrMap::new();
    env.insert("X".to_string(), "1".to_string());
    let b = PDPEngineBuilder::new()
        .with_health_timeout(Duration::from_millis(2_500))
        .with_health_check_interval(Duration::from_millis(750))
        .with_base_url("http://127.0.0.1:9000/".to_string())
        .with_env_vars(env)
        .add_env("X".to_string(), "2".to_string());
    assert_eq!(b.health_timeout, Duration::from_millis(2_500));
    assert_eq!(b.health_check_interval, Duration::from_millis(750));
    assert_eq!(b.base_url, "http://127.0.0.1:9000/");
    assert_eq!(b.env_vars.len(), 1);
    assert_eq!(b.env_vars.get("X").map(|s| s.as_str()), Some("2"));
}

#[test]
fn error_messages() {
    assert_eq!(PDPError::ProcessNotRunning.to_string(), "Process not running");
    assert_eq!(
        PDPError::PythonBinaryNotFound("x".to_string()).to_string(),
        "Python binary not found: x"
    );
}

#[test]
fn health_url_resolves_healthy_against_the_base() {
    assert_eq!(health_url("http://localhost:7001/").as_deref(), Some("http://localhost:7001/healthy"));
    assert_eq!(health_url("http://localhost:7001/api/").as_deref(), Some("http://localhost:7001/api/healthy"));
    assert_eq!(health_url("not a url"), None);
}

#[test]
fn healthy_statuses() {
    assert!(is_healthy(Some(200)));
    assert!(is_healthy(Some(204)));
    assert!(!is_healthy(Some(300)));
    assert!(!is_healthy(Some(503)));
    assert!(!is_healthy(None));
}

#[test]
fn waiting_for_health() {
    match wait_round_start(10_000, 10_000, false) {
        Some(Err(PDPError::HealthCheckTimeout(m))) => {
            assert_eq!(m, "PDP failed to become healthy within the timeout period")
        }
        _ => panic!("expected a timeout"),
    }
    assert!(matches!(wait_round_start(0, 10_000, true), Some(Err(PDPError::ShutdownTriggered))));
    assert!(wait_round_start(500, 10_000, false).is_none());
    assert!(matches!(wait_round_end(true, true), Some(Ok(()))));
    assert!(matches!(wait_round_end(false, true), Some(Err(PDPError::ShutdownTriggered))));
    assert!(wait_round_end(false, false).is_none());
}

#[test]
fn recovery_steps() {
    assert_eq!(recovery_after_wait(false, &Ok(())), RecoveryStep::Recovered);
    assert_eq!(recovery_after_wait(true, &Err(PDPError::ShutdownTriggered)), RecoveryStep::Stop);
    let timeout = Err(PDPError::HealthCheckTimeout("t".to_string()));
    assert_eq!(recovery_after_wait(false, &timeout), RecoveryStep::Restart);
    assert_eq!(recovery_after_wait(true, &timeout), RecoveryStep::GiveUp);
    assert_eq!(recovery_after_restart(&Ok(())), RecoveryStep::AwaitHealth);
    assert_eq!(
        recovery_after_restart(&Err(PDPError::ProcessManagement("kill failed".to_string()))),
        RecoveryStep::GiveUp
    );
    assert!(check_health_and_wait(true, false));
    assert!(!check_health_and_wait(true, true));
    assert!(!check_health_and_wait(false, false));
}

#[test]
fn signals() {
    assert_eq!(forwarded_signals(), vec![SIGTERM, SIGINT, SIGHUP, SIGUSR1, SIGUSR2]);
    assert!(is_termination_signal(SIGTERM));
    assert!(is_termination_signal(SIGHUP));
    assert!(!is_termination_signal(SIGUSR1));
    assert!(!is_termination_signal(SIGKILL));
    assert_eq!(after_forward(SIGTERM, KillOutcome::Sent), ForwardFollowUp::AwaitExit);
    assert_eq!(after_forward(SIGUSR2, KillOutcome::Sent), ForwardFollowUp::Done);
    assert_eq!(after_forward(SIGINT, KillOutcome::NoSuchProcess), ForwardFollowUp::Unregister);
    assert_eq!(after_forward(SIGINT, KillOutcome::Failed), ForwardFollowUp::Done);
}

#[test]
fn restarts_and_exit_waits() {
    // A child killed from outside is started again; only shutdown stops it.
    assert!(should_restart(false));
    assert!(!should_restart(true));
    assert_eq!(exit_wait_step(0, Some(WaitObservation::StillAlive)), ExitWait::Poll);
    assert_eq!(exit_wait_step(100, Some(WaitObservation::Exited)), ExitWait::Stop);
    assert_eq!(exit_wait_step(100, None), ExitWait::Stop);
    assert_eq!(exit_wait_step(5_000, Some(WaitObservation::StillAlive)), ExitWait::ForceKill);
    assert!(matches!(restart_precheck(true), Err(PDPError::ShutdownTriggered)));
    assert!(restart_precheck(false).is_ok());
    match restart_outcome(0) {
        Err(PDPError::ProcessManagement(m)) => {
            assert_eq!(m, "PDP process failed to restart after kill")
        }
        _ => panic!("expected a failed restart"),
    }
    assert!(restart_outcome(42).is_ok());
    assert!(matches!(signal_target(0), Err(PDPError::ProcessNotRunning)));
    assert_eq!(signal_target(42).ok(), Some(42));
    assert_eq!(pid_for_signal(42), Some(42));
    assert_eq!(pid_for_signal(u32::MAX), None);
}

#[test]
fn child_registry_holds_each_pid_once() {
    let mut r = ChildRegistry::new();
    r.register(10);
    r.register(11);
    r.register(10);
    let mut s = r.snapshot();
    s.sort();
    assert_eq!(s, vec![10, 11]);
    assert!(r.unregister(10));
    assert!(!r.unregister(10));
    assert_eq!(r.snapshot(), vec![11]);
}

#[test]
fn command_lines() {
    let args = vec![Arg::Module("uvicorn".to_string()), Arg::Reload, Arg::Port(7001)];
    assert_eq!(command_args(&args), vec!["-m", "uvicorn", "--reload", "--port", "7001"]);
    assert_eq!(command_text("python3", &args), "python3 -m uvicorn --reload --port 7001");
    assert_eq!(command_text("python3", &vec![]), "python3");
}
