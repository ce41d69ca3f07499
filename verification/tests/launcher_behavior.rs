//! Behavior of the launcher: command lines, endpoint discovery, the
//! relaunch policy, port selection, the startup handle buffer, process
//! lifecycle, and the wait utility.

use headless_chrome::discovery::after_discovery_failure;
use headless_chrome::discovery::port_candidates;
use headless_chrome::discovery::scan_output_line;
use headless_chrome::discovery::shuffled_port_candidates;
use headless_chrome::discovery::ws_url_from_reader;
use headless_chrome::discovery::OutputLineVerdict;
use headless_chrome::discovery::RetryVerdict;
use headless_chrome::errors::ChromeLaunchError;
use headless_chrome::launch_options::build_pipe_args;
use headless_chrome::launch_options::build_ws_args;
use headless_chrome::launch_options::default_args;
use headless_chrome::launch_options::LaunchOptions;
use headless_chrome::pipes::pipe_factory;
use headless_chrome::pipes::Pipes;
use headless_chrome::process::Child;
use headless_chrome::process::ChildExit;
use headless_chrome::process::KillError;
use headless_chrome::wait::PollDecision;
use headless_chrome::wait::ProbeOutcome;
use headless_chrome::wait::Wait;

#[test]
fn handle_errors_in_chrome_output() {
    let lines = "[0228/194641.093619:ERROR:socket_posix.cc(144)] bind() returned an error, errno=0: Cannot assign requested address (99)";
    let reader = vec![String::from(lines)];
    let ws_url_result = ws_url_from_reader(&reader);
    assert_eq!(true, ws_url_result.is_err());
}

#[test]
fn bind_error_fails_discovery_immediately() {
    let lines = vec![
        String::from("[0101/000000.000000:INFO:cpu_info.cc(53)] Available"),
        String::from("[0101/000000.000001:ERROR:socket_posix.cc(144)] bind() returned an error"),
        String::from("DevTools listening on ws://127.0.0.1:9222/devtools/browser/abc"),
    ];
    // The bind error comes before the URL line: discovery fails at once
    // with the distinct port-in-use error, not a timeout.
    match ws_url_from_reader(&lines) {
        Err(ChromeLaunchError::DebugPortInUse) => {}
        _ => panic!("expected the port-in-use failure"),
    }
}

#[test]
fn ws_url_is_extracted_from_diagnostics() {
    let lines = vec![
        String::from("[0101/000000.000000:INFO:something] warming up"),
        String::from("DevTools listening on ws://127.0.0.1:9222/devtools/browser/uuid-1234"),
    ];
    match ws_url_from_reader(&lines) {
        Ok(Some(url)) => assert_eq!(url, "ws://127.0.0.1:9222/devtools/browser/uuid-1234"),
        _ => panic!("expected the endpoint URL"),
    }
}

#[test]
fn silent_output_keeps_polling() {
    let lines = vec![String::from("nothing of note"), String::from("still booting")];
    match ws_url_from_reader(&lines) {
        Ok(None) => {}
        _ => panic!("expected no verdict yet"),
    }
}

#[test]
fn line_scanning_verdicts() {
    assert!(matches!(
        scan_output_line("xx ERROR yy bind zz"),
        OutputLineVerdict::PortInUse
    ));
    // "bind" before "ERROR" is not the bind diagnostic.
    assert!(matches!(
        scan_output_line("bind came first, then ERROR"),
        OutputLineVerdict::NotRecognized
    ));
    match scan_output_line("DevTools listening on ws://host/devtools/browser/1") {
        OutputLineVerdict::WsUrl(u) => assert_eq!(u, "ws://host/devtools/browser/1"),
        _ => panic!("expected a URL"),
    }
    // A listening line without the browser-endpoint path is not an
    // announcement.
    assert!(matches!(
        scan_output_line("listening on port 8000"),
        OutputLineVerdict::NotRecognized
    ));
}

#[test]
fn pinned_port_is_never_retried() {
    assert!(matches!(after_discovery_failure(0, true), RetryVerdict::PropagateError));
    assert!(matches!(after_discovery_failure(100, true), RetryVerdict::PropagateError));
}

#[test]
fn auto_port_retries_until_budget_spent() {
    assert!(matches!(after_discovery_failure(0, false), RetryVerdict::TryAgain));
    assert!(matches!(after_discovery_failure(10, false), RetryVerdict::TryAgain));
    assert!(matches!(after_discovery_failure(11, false), RetryVerdict::NoPortsLeft));
}

#[test]
fn candidate_ports_cover_the_scan_range() {
    let ports = port_candidates();
    assert_eq!(ports.len(), 1000);
    assert_eq!(ports[0], 8000);
    assert_eq!(ports[999], 8999);
}

#[test]
fn shuffled_ports_are_a_permutation_of_the_range() {
    let mut ports = shuffled_port_candidates();
    assert_eq!(ports.len(), 1000);
    ports.sort();
    let expected = port_candidates();
    assert_eq!(ports, expected);
}

#[test]
fn ws_args_reflect_the_configuration() {
    let opts = LaunchOptions::default_builder()
        .window_size(Some((1280, 800)))
        .sandbox(false)
        .build();
    let args = build_ws_args(&opts, "/tmp/profile-dir", 8123);
    assert_eq!(args[0], "--remote-debugging-port=8123");
    assert!(args.contains(&String::from("--user-data-dir=/tmp/profile-dir")));
    assert!(args.contains(&String::from("--window-size=1280,800")));
    assert!(args.contains(&String::from("--headless=new")));
    assert!(args.contains(&String::from("--no-sandbox")));
    assert!(args.contains(&String::from("--disable-setuid-sandbox")));
    // The baseline set rides along.
    assert!(args.contains(&String::from("--disable-background-networking")));
    // 8 head entries + 23 baseline + window + headless + 2 sandbox.
    assert_eq!(args.len(), 8 + 23 + 1 + 1 + 2);
}

#[test]
fn windowed_ws_args_omit_headless() {
    let opts = LaunchOptions::default_builder().headless(false).build();
    let args = build_ws_args(&opts, "/tmp/p", 9000);
    assert!(!args.contains(&String::from("--headless=new")));
    assert!(!args.contains(&String::from("--no-sandbox")));
}

#[test]
fn pipe_args_use_the_pipe_flag_and_placeholder_page() {
    let opts = LaunchOptions::default_builder()
        .extensions(vec![String::from("/ext/one")])
        .build();
    let args = build_pipe_args(&opts, "/tmp/profile-dir");
    assert_eq!(args[0], "--remote-debugging-pipe");
    assert!(args.contains(&String::from("--load-extension=/ext/one")));
    // The headless build is launched onto a placeholder page.
    assert_eq!(args[args.len() - 2], "--headless");
    assert_eq!(args[args.len() - 1], "chrome://version");
}

#[test]
fn pipe_args_apply_window_size_only_headless() {
    let opts = LaunchOptions::default_builder()
        .headless(false)
        .window_size(Some((640, 480)))
        .build();
    let args = build_pipe_args(&opts, "/tmp/p");
    assert!(!args.contains(&String::from("--window-size=640,480")));
    let headless_opts = LaunchOptions::default_builder()
        .window_size(Some((640, 480)))
        .build();
    let headless_args = build_pipe_args(&headless_opts, "/tmp/p");
    assert!(headless_args.contains(&String::from("--window-size=640,480")));
}

#[test]
fn baseline_args_disable_background_work() {
    let args = default_args();
    assert_eq!(args.len(), 23);
    assert_eq!(args[0], "--disable-background-networking");
    assert_eq!(args[22], "--use-mock-keychain");
}

#[test]
fn handle_buffer_layout_is_exact() {
    let pipes = pipe_factory(0xAABBCCDD, 0x11223344, 1, 2, 3);
    let bytes = pipes.to_bytes();
    assert_eq!(bytes.len(), 29);
    // Handle count 5, little-endian.
    assert_eq!(&bytes[0..4], &[5, 0, 0, 0]);
    // One open-file flag byte per slot.
    assert_eq!(&bytes[4..9], &[0x41, 0x41, 0x41, 0x41, 0x41]);
    // Null-device handles for the standard streams.
    assert_eq!(&bytes[9..13], &[1, 0, 0, 0]);
    assert_eq!(&bytes[13..17], &[2, 0, 0, 0]);
    assert_eq!(&bytes[17..21], &[3, 0, 0, 0]);
    // The channel ends, little-endian.
    assert_eq!(&bytes[21..25], &[0xDD, 0xCC, 0xBB, 0xAA]);
    assert_eq!(&bytes[25..29], &[0x44, 0x33, 0x22, 0x11]);
}

#[test]
fn fresh_handle_buffer_is_zeroed() {
    let bytes = Pipes::new().to_bytes();
    assert_eq!(bytes, vec![0u8; 29]);
}

#[test]
fn kill_after_reap_is_refused() {
    let mut child = Child { pid: 1, status: Some(ChildExit::Exited(0)) };
    // The process was already reaped: killing is refused rather than
    // signalling a possibly-recycled process id.
    assert!(matches!(child.kill(), Err(KillError::AlreadyReaped)));
    // And refused again on the second call.
    assert!(matches!(child.kill(), Err(KillError::AlreadyReaped)));
}

#[test]
fn wait_after_reap_returns_cached_status() {
    let mut child = Child { pid: 1, status: Some(ChildExit::Signaled(9)) };
    assert_eq!(child.wait(), Ok(ChildExit::Signaled(9)));
    assert_eq!(child.wait(), Ok(ChildExit::Signaled(9)));
}

#[test]
fn wait_on_foreign_process_fails_and_caches_nothing() {
    // Process 1 exists but is no child of ours: the OS refuses the wait,
    // and the handle stays unreaped.
    let mut child = Child::new(1);
    assert!(child.wait().is_err());
    assert!(child.status.is_none());
}

#[test]
fn default_options_match_the_documented_defaults() {
    let opts = LaunchOptions::default_builder().build();
    assert!(opts.headless);
    assert!(opts.sandbox);
    assert!(opts.window_size.is_none());
    assert!(opts.port.is_none());
    assert!(opts.path.is_none());
    assert!(opts.extensions.is_empty());
    assert!(opts.args.is_empty());
    assert_eq!(opts.idle_browser_timeout_ms, 300_000);
    assert!(opts.process_envs.is_none());
}

#[test]
fn wait_accepts_a_ready_probe_at_once() {
    let w = Wait::with_timeout(5_000);
    assert!(matches!(w.next_step(0, true), PollDecision::Accept));
    assert!(matches!(w.next_step(4_999, false), PollDecision::RetrySleep));
    assert!(matches!(w.next_step(5_000, false), PollDecision::TimedOut));
}

#[test]
fn wait_returns_within_one_interval_of_readiness() {
    // A predicate that starts succeeding after 330 ms, polled every
    // 100 ms with a 1 s budget: the loop accepts on the poll at 400 ms,
    // within one interval of the moment of readiness.
    let w = Wait::with_timeout(1_000);
    let readiness = 330u64;
    let mut elapsed = 0u64;
    let mut polls = 0u64;
    loop {
        polls += 1;
        let ready = elapsed >= readiness;
        match w.next_step(elapsed, ready) {
            PollDecision::Accept => break,
            PollDecision::RetrySleep => elapsed += w.interval_ms,
            _ => panic!("the wait must not time out"),
        }
    }
    assert_eq!(elapsed, 400);
    assert_eq!(polls, 5);
}

#[test]
fn wait_times_out_near_the_deadline() {
    // A predicate that never succeeds, with a 1 s budget and 100 ms
    // polls: the timeout lands exactly at the deadline.
    let w = Wait::with_timeout(1_000);
    let mut elapsed = 0u64;
    loop {
        match w.next_step(elapsed, false) {
            PollDecision::RetrySleep => elapsed += w.interval_ms,
            PollDecision::TimedOut => break,
            _ => panic!("the wait must not accept"),
        }
    }
    assert_eq!(elapsed, 1_000);
}

#[test]
fn strict_wait_propagates_foreign_failures_immediately() {
    let w = Wait::with_timeout(60_000);
    // Long before the deadline, a failure other than "absent yet" is
    // propagated, bypassing the timeout classification.
    assert!(matches!(w.next_step_strict(10, ProbeOutcome::Failed), PollDecision::Propagate));
    assert!(matches!(w.next_step_strict(10, ProbeOutcome::AbsentYet), PollDecision::RetrySleep));
    assert!(matches!(w.next_step_strict(10, ProbeOutcome::Ready), PollDecision::Accept));
    assert!(matches!(
        w.next_step_strict(60_000, ProbeOutcome::AbsentYet),
        PollDecision::TimedOut
    ));
}
