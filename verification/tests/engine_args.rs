use pdp::engine::args::{Arg, LogLevel};

#[test]
fn test_arg_module() {
    let arg = Arg::Module("uvicorn".to_string());
    assert_eq!(arg.to_args(), vec!["-m".to_string(), "uvicorn".to_string()]);
}

#[test]
fn test_arg_app() {
    let app = "horizon.main:app".to_string();
    let arg = Arg::App(app.clone());
    assert_eq!(arg.to_args(), vec![app]);
}

#[test]
fn test_arg_reload() {
    let arg = Arg::Reload;
    assert_eq!(arg.to_args(), vec!["--reload".to_string()]);
}

#[test]
fn test_arg_port() {
    let port = 7001;
    let arg = Arg::Port(port);
    assert_eq!(arg.to_args(), vec!["--port".to_string(), port.to_string()]);
}

#[test]
fn test_arg_host() {
    let host = "0.0.0.0".to_string();
    let arg = Arg::Host(host.clone());
    assert_eq!(arg.to_args(), vec!["--host".to_string(), host]);
}

#[test]
fn test_arg_log_level() {
    let arg = Arg::LogLevel(LogLevel::Info);
    assert_eq!(
        arg.to_args(),
        vec!["--log-level".to_string(), "info".to_string()]
    );
}

#[test]
fn test_arg_custom() {
    let custom = "--workers=4".to_string();
    let arg = Arg::Custom(custom.clone());
    assert_eq!(arg.to_args(), vec![custom]);
}

#[test]
fn log_levels_render_in_lower_case() {
    assert_eq!(LogLevel::Debug.to_string(), "debug");
    assert_eq!(LogLevel::Warning.to_string(), "warning");
    assert_eq!(LogLevel::Error.to_string(), "error");
    assert_eq!(LogLevel::Critical.to_string(), "critical");
}

#[test]
fn port_zero_and_max_render_in_decimal() {
    assert_eq!(Arg::Port(0).to_args(), vec!["--port".to_string(), "0".to_string()]);
    assert_eq!(Arg::Port(65535).to_args(), vec!["--port".to_string(), "65535".to_string()]);
}
