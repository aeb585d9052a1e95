use mcp_gateway::daemon::error::DaemonError;
use mcp_gateway::daemon::pid::{
    check_already_running, daemon_status, default_pid_path, default_port_path, pid_from_contents, pid_path_in,
    port_from_contents, port_path_in, record_text, signal_args, signal_outcome, stop_daemon, CheckAction, CheckEvent,
    DaemonStopAction, DaemonStopEvent,
};

#[test]
fn already_running_display() {
    let err = DaemonError::AlreadyRunning { pid: 1234 };
    assert!(err.to_string().contains("1234"));
    assert!(err.to_string().contains("already running"));
}

#[test]
fn error_port_in_use_display() {
    let err = DaemonError::PortInUse { port: 8080 };
    assert!(err.to_string().contains("8080"));
    assert!(err.to_string().contains("already in use"));
}

#[test]
fn pid_write_display() {
    let err = DaemonError::PidWrite { message: "permission denied".to_string() };
    assert!(err.to_string().contains("permission denied"));
    assert!(err.to_string().contains("write PID"));
}

#[test]
fn pid_read_display() {
    let err = DaemonError::PidRead { message: "corrupt file".to_string() };
    assert!(err.to_string().contains("corrupt file"));
    assert!(err.to_string().contains("read PID"));
}

#[test]
fn already_running_message_exact() {
    assert_eq!(DaemonError::AlreadyRunning { pid: 7 }.to_string(), "gateway already running (PID 7)");
    assert_eq!(DaemonError::SignalFailed { message: "x".to_string() }.to_string(), "failed to send signal: x");
}

#[test]
fn pid_record_roundtrip() {
    assert_eq!(pid_from_contents(&record_text(42)).unwrap(), 42);
    assert_eq!(pid_from_contents(" 4294967295\n").unwrap(), u32::MAX);
    assert_eq!(port_from_contents(&record_text(8080)).unwrap(), 8080);
}

#[test]
fn read_returns_error_on_malformed_content() {
    let r = pid_from_contents("not-a-number");
    assert_eq!(r, Err(DaemonError::PidRead { message: "invalid digit found in string".to_string() }));
    assert_eq!(
        port_from_contents("70000"),
        Err(DaemonError::PidRead { message: "number too large to fit in target type".to_string() })
    );
    assert_eq!(
        pid_from_contents("  "),
        Err(DaemonError::PidRead { message: "cannot parse integer from empty string".to_string() })
    );
}

#[test]
fn send_signal_rejects_pid_zero() {
    let r = signal_args(0, "0");
    assert_eq!(r, Err(DaemonError::SignalFailed { message: "invalid PID 0".to_string() }));
    assert_eq!(signal_args(12, "TERM").unwrap(), vec!["-TERM".to_string(), "12".to_string()]);
    assert_eq!(
        signal_outcome(12, "TERM", false),
        Err(DaemonError::SignalFailed { message: "kill -TERM 12 failed".to_string() })
    );
    assert_eq!(signal_outcome(12, "TERM", true), Ok(()));
}

#[test]
fn default_paths_under_home() {
    assert_eq!(pid_path_in("/home/u"), "/home/u/.mcp-gateway.pid");
    assert_eq!(port_path_in("/home/u/"), "/home/u/.mcp-gateway.port");
}

#[test]
fn check_already_running_none_when_no_file() {
    let (mut check, action) = check_already_running("/run/g.pid".to_string());
    assert_eq!(action, CheckAction::ReadRecord { path: "/run/g.pid".to_string() });
    assert_eq!(check.step(CheckEvent::Read(Ok(None))), CheckAction::Finish(Ok(None)));
}

#[test]
fn check_already_running_none_when_stale_pid() {
    let (mut check, _) = check_already_running("/run/g.pid".to_string());
    assert_eq!(check.step(CheckEvent::Read(Ok(Some(99)))), CheckAction::Probe { pid: 99 });
    assert_eq!(check.step(CheckEvent::Alive(false)), CheckAction::RemoveRecord { path: "/run/g.pid".to_string() });
    assert_eq!(check.step(CheckEvent::Removed), CheckAction::Finish(Ok(None)));
}

#[test]
fn check_already_running_some_when_alive() {
    let (mut check, _) = check_already_running("/run/g.pid".to_string());
    check.step(CheckEvent::Read(Ok(Some(5))));
    assert_eq!(check.step(CheckEvent::Alive(true)), CheckAction::Finish(Ok(Some(5))));
}

#[test]
fn stop_daemon_returns_not_running_when_no_pid_file() {
    let (_, action) = stop_daemon("/p".to_string(), None, Ok(None));
    assert_eq!(action, DaemonStopAction::Finish(Err(DaemonError::NotRunning)));
}

#[test]
fn stop_daemon_signals_waits_and_clears() {
    let (mut stop, action) = stop_daemon("/p".to_string(), Some("/q".to_string()), Ok(Some(10)));
    assert_eq!(action, DaemonStopAction::Signal { pid: 10, signal: "TERM".to_string() });
    assert_eq!(stop.step(DaemonStopEvent::Signalled(Ok(()))), DaemonStopAction::Probe { pid: 10 });
    assert_eq!(stop.step(DaemonStopEvent::Alive(true)), DaemonStopAction::Sleep { millis: 50 });
    assert_eq!(stop.step(DaemonStopEvent::Slept), DaemonStopAction::Probe { pid: 10 });
    assert_eq!(stop.step(DaemonStopEvent::Alive(false)), DaemonStopAction::RemoveRecord { path: "/p".to_string() });
    assert_eq!(stop.step(DaemonStopEvent::Removed(Ok(()))), DaemonStopAction::RemoveRecord { path: "/q".to_string() });
    assert_eq!(stop.step(DaemonStopEvent::Removed(Ok(()))), DaemonStopAction::Finish(Ok(())));
}

#[test]
fn stop_daemon_gives_up_waiting_after_hundred_polls() {
    let (mut stop, _) = stop_daemon("/p".to_string(), None, Ok(Some(3)));
    stop.step(DaemonStopEvent::Signalled(Ok(())));
    let mut probes = 1;
    loop {
        let a = stop.step(DaemonStopEvent::Alive(true));
        assert_eq!(a, DaemonStopAction::Sleep { millis: 50 });
        match stop.step(DaemonStopEvent::Slept) {
            DaemonStopAction::Probe { pid } => {
                assert_eq!(pid, 3);
                probes += 1;
            }
            other => {
                assert_eq!(other, DaemonStopAction::RemoveRecord { path: "/p".to_string() });
                break;
            }
        }
    }
    assert_eq!(probes, 100);
}

#[test]
fn stop_daemon_reports_signal_failure() {
    let (mut stop, _) = stop_daemon("/p".to_string(), None, Ok(Some(3)));
    let e = DaemonError::SignalFailed { message: "kill -TERM 3 failed".to_string() };
    assert_eq!(stop.step(DaemonStopEvent::Signalled(Err(e.clone()))), DaemonStopAction::Finish(Err(e)));
}

#[test]
fn write_read_roundtrip() {
    assert_eq!(pid_from_contents(&record_text(42)), Ok(42));
}

#[test]
fn write_read_port_roundtrip() {
    assert_eq!(port_from_contents(&record_text(8080)), Ok(8080));
}

#[test]
fn read_port_returns_error_on_malformed_content() {
    assert!(matches!(port_from_contents("not-a-number"), Err(DaemonError::PidRead { .. })));
}

#[test]
fn send_signal_fails_for_invalid_pid() {
    assert!(signal_args(u32::MAX, "0").is_ok());
    let result = signal_outcome(u32::MAX, "0", false);
    assert!(matches!(result, Err(DaemonError::SignalFailed { .. })));
}

#[test]
fn stop_daemon_returns_not_running_when_stale_pid() {
    let (mut check, _) = check_already_running("/run/stale.pid".to_string());
    check.step(CheckEvent::Read(Ok(Some(u32::MAX))));
    check.step(CheckEvent::Alive(false));
    let running = match check.step(CheckEvent::Removed) {
        CheckAction::Finish(r) => r,
        other => panic!("unexpected {:?}", other),
    };
    let (_, action) = stop_daemon("/run/stale.pid".to_string(), None, running);
    assert_eq!(action, DaemonStopAction::Finish(Err(DaemonError::NotRunning)));
}

#[test]
fn wait_for_exit_returns_immediately_for_dead_process() {
    let (mut stop, _) = stop_daemon("/p".to_string(), None, Ok(Some(u32::MAX)));
    assert_eq!(stop.step(DaemonStopEvent::Signalled(Ok(()))), DaemonStopAction::Probe { pid: u32::MAX });
    assert_eq!(stop.step(DaemonStopEvent::Alive(false)), DaemonStopAction::RemoveRecord { path: "/p".to_string() });
}

#[test]
fn daemon_status_returns_none_when_no_pid_file() {
    let (mut status, _) = daemon_status("/run/missing.pid".to_string());
    assert_eq!(status.step(CheckEvent::Read(Ok(None))), CheckAction::Finish(Ok(None)));
}

#[test]
fn daemon_status_returns_some_when_alive() {
    let (mut status, _) = daemon_status("/run/alive.pid".to_string());
    let own_pid = 4242;
    status.step(CheckEvent::Read(Ok(Some(own_pid))));
    assert_eq!(status.step(CheckEvent::Alive(true)), CheckAction::Finish(Ok(Some(own_pid))));
}

#[test]
fn default_pid_path_returns_some() {
    let path = default_pid_path();
    assert!(path.is_some());
    assert!(path.unwrap().contains(".mcp-gateway.pid"));
}

#[test]
fn default_port_path_returns_some() {
    let path = default_port_path();
    assert!(path.is_some());
    assert!(path.unwrap().contains(".mcp-gateway.port"));
}
