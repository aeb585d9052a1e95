use mcp_gateway::process::pid::choose_instance;
use mcp_gateway::process::attach::{attach_err, logs_url, process_chunk};
use mcp_gateway::process::error::DaemonError;
use mcp_gateway::process::pid::{
    ensure_run_dir_at, instance_file_pid, instance_files_of, instance_path, is_valid_pid, judge_record, log_path,
    pid_from_contents, run_dir_create_error, run_dir_in, signal_args, signal_outcome, sock_path, sort_instances,
    classify_instances, record_entries_of, InstanceInfo,
};
use mcp_gateway::process::log::{log_writer_step, LogAction, LogEvent};
use mcp_gateway::process::stop::{stop_instance, StopAction, StopEvent};

fn info(pid: u32, port: Option<u16>) -> InstanceInfo {
    InstanceInfo { pid, transport: "http".to_string(), port }
}

#[test]
fn error_messages() {
    assert_eq!(
        DaemonError::AlreadyRunning { pid: 42, port: 8080 }.to_string(),
        "port 8080 already in use by gateway (PID 42), use 'stop --port 8080' first or choose a different port"
    );
    assert_eq!(
        DaemonError::PortInUse { port: 9 }.to_string(),
        "port 9 is in use by another process, choose a different port with --port"
    );
    assert_eq!(DaemonError::NotRunning.to_string(), "no gateway instance found, start one with 'mcp-gateway start'");
    assert_eq!(DaemonError::UserInput("pick one".to_string()).to_string(), "pick one");
    assert_eq!(DaemonError::LogRead { message: "gone".to_string() }.to_string(), "cannot read logs: gone");
    assert_eq!(DaemonError::PidWrite { message: "x".to_string() }.to_string(), "failed to write PID file: x");
}

#[test]
fn instance_files_are_named_by_pid() {
    assert_eq!(instance_path("/r", 12), "/r/12.json");
    assert_eq!(sock_path("/r/", 12), "/r/12.sock");
    assert_eq!(log_path("", 12), "12.log");
    assert_eq!(instance_files_of("/r", 3), vec!["/r/3.json".to_string(), "/r/3.sock".to_string()]);
    assert_eq!(run_dir_in("/home/u"), "/home/u/.mcp-gateway/run");
}

#[test]
fn run_dir_errors() {
    assert_eq!(
        ensure_run_dir_at(None),
        Err(DaemonError::PidWrite { message: "cannot determine home directory".to_string() })
    );
    assert_eq!(ensure_run_dir_at(Some("/x".to_string())), Ok("/x".to_string()));
    assert_eq!(
        run_dir_create_error("denied"),
        DaemonError::PidWrite { message: "cannot create run directory: denied".to_string() }
    );
}

#[test]
fn instance_record_json() {
    assert_eq!(info(7, Some(8080)).to_json(), r#"{"pid":7,"transport":"http","port":8080}"#);
    assert_eq!(
        InstanceInfo { pid: 9, transport: "stdio".to_string(), port: None }.to_json(),
        r#"{"pid":9,"transport":"stdio"}"#
    );
}

#[test]
fn record_file_names() {
    assert_eq!(instance_file_pid("123.json"), Some(123));
    assert_eq!(instance_file_pid("123.sock"), None);
    assert_eq!(instance_file_pid("123.log"), None);
    assert_eq!(instance_file_pid(".json"), None);
    assert_eq!(instance_file_pid("abc.json"), None);
    assert_eq!(instance_file_pid("99999999999.json"), None);
    assert_eq!(instance_file_pid("a.b.json"), None);
    assert_eq!(instance_file_pid("+5.json"), Some(5));
}

#[test]
fn instances_sorted_by_pid() {
    let sorted = sort_instances(vec![info(30, None), info(10, Some(1)), info(20, None)]);
    let pids: Vec<u32> = sorted.iter().map(|i| i.pid).collect();
    assert_eq!(pids, vec![10, 20, 30]);
    assert!(sort_instances(vec![]).is_empty());
}

#[test]
fn valid_pids() {
    assert!(!is_valid_pid(0));
    assert!(is_valid_pid(1));
    assert!(is_valid_pid(i32::MAX as u32));
    assert!(!is_valid_pid(u32::MAX));
}

#[test]
fn signals() {
    assert_eq!(
        signal_args(u32::MAX, "0"),
        Err(DaemonError::SignalFailed { message: "invalid PID 4294967295".to_string() })
    );
    assert_eq!(signal_args(7, "0").unwrap(), vec!["-0".to_string(), "7".to_string()]);
    assert_eq!(
        signal_outcome(7, "TERM", false),
        Err(DaemonError::SignalFailed { message: "kill -TERM 7 failed".to_string() })
    );
}

#[test]
fn pid_contents() {
    assert_eq!(pid_from_contents("42\n"), Ok(42));
    assert_eq!(
        pid_from_contents("x"),
        Err(DaemonError::PidRead { message: "invalid digit found in string".to_string() })
    );
}

#[test]
fn record_judgement() {
    let c = judge_record(Some(5), true);
    assert_eq!((c.running, c.remove_record), (Some(5), false));
    let c = judge_record(Some(5), false);
    assert_eq!((c.running, c.remove_record), (None, true));
    let c = judge_record(None, false);
    assert_eq!((c.running, c.remove_record), (None, false));
}

#[test]
fn stop_instance_not_running_clears_files() {
    let (mut stop, a) = stop_instance("/r".to_string(), 4);
    assert_eq!(a, StopAction::Probe { pid: 4 });
    assert_eq!(
        stop.step(StopEvent::Alive(false)),
        StopAction::Remove { paths: vec!["/r/4.json".to_string(), "/r/4.sock".to_string()] }
    );
    assert_eq!(stop.step(StopEvent::Removed), StopAction::Finish(Err(DaemonError::NotRunning)));
}

#[test]
fn stop_instance_signals_then_clears() {
    let (mut stop, _) = stop_instance("/r".to_string(), 4);
    assert_eq!(stop.step(StopEvent::Alive(true)), StopAction::Signal { pid: 4, signal: "TERM".to_string() });
    assert_eq!(stop.step(StopEvent::Signalled(Ok(()))), StopAction::Probe { pid: 4 });
    assert_eq!(stop.step(StopEvent::Alive(false)), StopAction::Remove { paths: vec!["/r/4.json".to_string(), "/r/4.sock".to_string()] });
    assert_eq!(stop.step(StopEvent::Removed), StopAction::Finish(Ok(())));
    assert_eq!(stop.step(StopEvent::Slept), StopAction::Finish(Ok(())));
}

#[test]
fn stop_instance_ignores_unexpected_events() {
    let (mut stop, _) = stop_instance("/r".to_string(), 4);
    assert_eq!(stop.step(StopEvent::Slept), StopAction::Probe { pid: 4 });
}

#[test]
fn stop_instance_polls_at_most_hundred_times() {
    let (mut stop, _) = stop_instance("/r".to_string(), 4);
    stop.step(StopEvent::Alive(true));
    stop.step(StopEvent::Signalled(Ok(())));
    let mut polls = 1;
    loop {
        assert_eq!(stop.step(StopEvent::Alive(true)), StopAction::Sleep { millis: 50 });
        match stop.step(StopEvent::Slept) {
            StopAction::Probe { .. } => polls += 1,
            StopAction::Remove { .. } => break,
            other => panic!("unexpected {:?}", other),
        }
    }
    assert_eq!(polls, 100);
}

#[test]
fn stop_instance_signal_failure_keeps_files() {
    let (mut stop, _) = stop_instance("/r".to_string(), 4);
    stop.step(StopEvent::Alive(true));
    let e = DaemonError::SignalFailed { message: "kill -TERM 4 failed".to_string() };
    assert_eq!(stop.step(StopEvent::Signalled(Err(e.clone()))), StopAction::Finish(Err(e)));
}

#[test]
fn chunk_shows_data_lines() {
    let mut out = Vec::new();
    process_chunk("data: hello\n\ndata: world\r\nevent: x\ndata: last", &mut out);
    assert_eq!(String::from_utf8(out).unwrap(), "hello\nworld\nlast\n");
    let mut out = Vec::new();
    process_chunk("no data here\n", &mut out);
    assert!(out.is_empty());
    let mut out = b"kept".to_vec();
    process_chunk("data: \n", &mut out);
    assert_eq!(String::from_utf8(out).unwrap(), "kept\n");
}

#[test]
fn attach_helpers() {
    assert_eq!(logs_url(8080), "http://127.0.0.1:8080/logs");
    assert_eq!(attach_err("refused"), DaemonError::AttachFailed { message: "refused".to_string() });
    assert_eq!(attach_err("refused").to_string(), "cannot attach: refused");
}

#[test]
fn should_format_level_target_message() {
    let msg = mcp_gateway::process::log::log_line("WARN", "my_module", "something happened");
    assert_eq!(msg, "WARN my_module: something happened");
}

#[test]
fn sockets_of_different_instances_differ_and_sit_beside_records() {
    assert_ne!(sock_path("/run", 12), sock_path("/run", 123));
    assert_ne!(sock_path("/run", 1), sock_path("/run", 10));
    let record = instance_path("/run", 42);
    assert_eq!(sock_path("/run", 42), format!("{}sock", &record[..record.len() - 4]));
}

#[test]
fn record_entries_are_read_from_json_file_names_only() {
    let names: Vec<String> = ["12.json", "12.sock", "12.log", "x.json", "007.json", "+8.json", "99999999999.json"]
        .iter()
        .map(|s| s.to_string())
        .collect();
    assert_eq!(
        record_entries_of(&names),
        vec![("12.json".to_string(), 12), ("007.json".to_string(), 7), ("+8.json".to_string(), 8)]
    );
}

#[test]
fn gone_instances_lose_the_listed_record_and_their_socket() {
    let found = vec![
        ("12.json".to_string(), 12, true),
        ("007.json".to_string(), 7, false),
        ("30.json".to_string(), 30, true),
        ("+5.json".to_string(), 5, false),
    ];
    let (live, stale) = classify_instances("/run", &found);
    assert_eq!(live, vec!["/run/12.json", "/run/30.json"]);
    assert_eq!(stale, vec!["/run/007.json", "/run/7.sock", "/run/+5.json", "/run/5.sock"]);
    let (live, stale) = classify_instances("/run", &vec![]);
    assert!(live.is_empty() && stale.is_empty());
}

#[test]
fn log_writer_appends_lines_skips_lags_and_stops_at_the_end() {
    assert_eq!(log_writer_step(LogEvent::Line("INFO gw: up".to_string())), LogAction::Append(b"INFO gw: up\n".to_vec()));
    assert_eq!(log_writer_step(LogEvent::Line(String::new())), LogAction::Append(b"\n".to_vec()));
    assert_eq!(log_writer_step(LogEvent::Lagged), LogAction::Wait);
    assert_eq!(log_writer_step(LogEvent::Closed), LogAction::Stop);
}

#[test]
fn sorting_keeps_the_order_of_records_of_one_process() {
    let sorted = sort_instances(vec![info(9, Some(1)), info(3, None), info(9, Some(2)), info(3, Some(7))]);
    assert_eq!(sorted, vec![info(3, None), info(3, Some(7)), info(9, Some(1)), info(9, Some(2))]);
}

#[test]
fn choosing_an_instance_by_port_or_as_the_only_one() {
    let all = vec![info(3, Some(8080)), info(9, Some(9090))];
    assert_eq!(choose_instance(&all, Some(9090)).unwrap(), 1);
    assert_eq!(choose_instance(&all, Some(1)).unwrap_err(), DaemonError::NotRunning);
    assert_eq!(
        choose_instance(&all, None).unwrap_err(),
        DaemonError::UserInput("several instances are running, choose one with --port".to_string())
    );
    assert_eq!(choose_instance(&vec![info(4, None)], None).unwrap(), 0);
    assert_eq!(choose_instance(&vec![], None).unwrap_err(), DaemonError::NotRunning);
}
