use agentman_gateway::bridge::{
    bridge_transcript, closing_actions, control_reply_actions, exec_command, exec_env,
    exit_poll_step, forward_command, provision_failure_actions, route_output,
    sanitize_tmux_session_name, shell_command, ChannelAction, ExecProbe, OutputFrame,
    OutputRoute, PollStep, StreamOrigin,
};
use agentman_gateway::channel::{
    is_localhost, BindOutcome, DirectStep, ExecStep, SessionError,
};
use agentman_gateway::config::{PortForwardingConfig, ShellConfig, ShellMode};
use agentman_gateway::control::GatewayControlCommand as Command;
use agentman_gateway::session::{ChannelStreamKind, ConnectionHandler as Conn};

fn strings(items: &[&str]) -> Vec<String> {
    items.iter().map(|s| s.to_string()).collect()
}

fn logged_in() -> Conn {
    let mut conn = Conn::new();
    conn.github_user = Some("octocat".to_string());
    conn.project = Some("demo".to_string());
    conn
}

const TMUX_SCRIPT: &str = "if command -v tmux >/dev/null 2>&1; then exec tmux new-session -A -s 'main_1' -c /workspace /bin/bash -l; else exec /bin/bash -l; fi";

#[test]
fn process_environment() {
    assert_eq!(exec_env(true, "vt100"), strings(&["SHELL=/bin/bash", "TERM=vt100"]));
    assert_eq!(exec_env(false, "vt100"), strings(&["SHELL=/bin/bash", "HOME=/workspace"]));
}

#[test]
fn session_names_are_made_safe() {
    assert_eq!(sanitize_tmux_session_name("main"), "main");
    assert_eq!(sanitize_tmux_session_name("my session's; rm -rf"), "my_session_s__rm_-rf");
    assert_eq!(sanitize_tmux_session_name("a-b_C9"), "a-b_C9");
    assert_eq!(sanitize_tmux_session_name("\u{e9}t\u{e9}"), "_t_");
    assert_eq!(sanitize_tmux_session_name(""), "agentman");
}

#[test]
fn shell_commands() {
    assert_eq!(shell_command(ShellMode::Bash, true, "main"), strings(&["/bin/bash", "-l"]));
    assert_eq!(shell_command(ShellMode::Bash, false, "main"), strings(&["/bin/bash", "-l"]));
    assert_eq!(shell_command(ShellMode::Tmux, false, "main"), strings(&["/bin/bash", "-l"]));
    assert_eq!(
        shell_command(ShellMode::Tmux, true, "main 1"),
        strings(&["/bin/bash", "-lc", TMUX_SCRIPT])
    );
    assert_eq!(
        exec_command("echo hi && false"),
        strings(&["/bin/bash", "-c", "echo hi && false"])
    );
    assert_eq!(
        forward_command("127.0.0.1", 8080),
        strings(&["socat", "-", "TCP:127.0.0.1:8080"])
    );
    assert_eq!(forward_command("db", 0), strings(&["socat", "-", "TCP:db:0"]));
    assert_eq!(
        forward_command("h", u32::MAX),
        strings(&["socat", "-", "TCP:h:4294967295"])
    );
}

#[test]
fn output_routes() {
    for origin in [StreamOrigin::StdIn, StreamOrigin::StdOut, StreamOrigin::Console] {
        assert_eq!(route_output(ChannelStreamKind::Session, origin), OutputRoute::Data);
        assert_eq!(route_output(ChannelStreamKind::TcpForward, origin), OutputRoute::Data);
    }
    assert_eq!(
        route_output(ChannelStreamKind::Session, StreamOrigin::StdErr),
        OutputRoute::ExtendedData(1)
    );
    assert_eq!(
        route_output(ChannelStreamKind::TcpForward, StreamOrigin::StdErr),
        OutputRoute::Dropped
    );
}

#[test]
fn exit_status_polling() {
    assert_eq!(exit_poll_step(0, ExecProbe::Running), PollStep::Wait(25));
    assert_eq!(exit_poll_step(78, ExecProbe::Running), PollStep::Wait(25));
    assert_eq!(exit_poll_step(79, ExecProbe::Running), PollStep::Report(255));
    assert_eq!(exit_poll_step(u32::MAX, ExecProbe::Running), PollStep::Report(255));
    assert_eq!(exit_poll_step(0, ExecProbe::Exited(Some(0))), PollStep::Report(0));
    assert_eq!(exit_poll_step(5, ExecProbe::Exited(Some(1))), PollStep::Report(1));
    assert_eq!(exit_poll_step(5, ExecProbe::Exited(Some(137))), PollStep::Report(137));
    assert_eq!(exit_poll_step(5, ExecProbe::Exited(None)), PollStep::Report(0));
    assert_eq!(exit_poll_step(5, ExecProbe::Exited(Some(-1))), PollStep::Report(255));
    assert_eq!(exit_poll_step(5, ExecProbe::Exited(Some(i64::MIN))), PollStep::Report(255));
    assert_eq!(
        exit_poll_step(5, ExecProbe::Exited(Some(4294967296 + 3))),
        PollStep::Report(3)
    );
    assert_eq!(exit_poll_step(0, ExecProbe::Failed), PollStep::Report(255));
}

#[test]
fn exec_payload_transcript() {
    let frames = vec![OutputFrame { origin: StreamOrigin::StdOut, data: b"hi\n".to_vec() }];
    assert_eq!(
        bridge_transcript(ChannelStreamKind::Session, &frames, 1),
        vec![
            ChannelAction::Data(b"hi\n".to_vec()),
            ChannelAction::ExitStatus(1),
            ChannelAction::Eof,
            ChannelAction::Close
        ]
    );
}

#[test]
fn session_transcript_keeps_streams_apart_and_ends_in_order() {
    let frames = vec![
        OutputFrame { origin: StreamOrigin::StdOut, data: b"a".to_vec() },
        OutputFrame { origin: StreamOrigin::StdErr, data: b"oops".to_vec() },
        OutputFrame { origin: StreamOrigin::Console, data: b"b".to_vec() },
        OutputFrame { origin: StreamOrigin::StdIn, data: b"c".to_vec() },
    ];
    assert_eq!(
        bridge_transcript(ChannelStreamKind::Session, &frames, 7),
        vec![
            ChannelAction::Data(b"a".to_vec()),
            ChannelAction::ExtendedData { code: 1, data: b"oops".to_vec() },
            ChannelAction::Data(b"b".to_vec()),
            ChannelAction::Data(b"c".to_vec()),
            ChannelAction::ExitStatus(7),
            ChannelAction::Eof,
            ChannelAction::Close
        ]
    );
    assert_eq!(
        bridge_transcript(ChannelStreamKind::TcpForward, &frames, 7),
        vec![
            ChannelAction::Data(b"a".to_vec()),
            ChannelAction::Data(b"b".to_vec()),
            ChannelAction::Data(b"c".to_vec()),
            ChannelAction::Eof,
            ChannelAction::Close
        ]
    );
    assert_eq!(
        closing_actions(ChannelStreamKind::Session, 0),
        vec![ChannelAction::ExitStatus(0), ChannelAction::Eof, ChannelAction::Close]
    );
    assert_eq!(
        closing_actions(ChannelStreamKind::TcpForward, 0),
        vec![ChannelAction::Eof, ChannelAction::Close]
    );
}

#[test]
fn local_forward_to_container_service() {
    let mut conn = logged_in();
    let policy = PortForwardingConfig::default();
    let request = match conn.channel_open_direct_tcpip(&policy, "localhost", 8080) {
        Ok(DirectStep::Provision { request, dest_host }) => {
            assert_eq!(dest_host, "127.0.0.1");
            request
        }
        other => panic!("unexpected {:?}", other),
    };
    assert_eq!((request.github_user.as_str(), request.project.as_str()), ("octocat", "demo"));
    let plan = conn.direct_tcpip_provisioned("c0ffee".to_string(), "127.0.0.1", 8080);
    assert_eq!(plan.cmd, strings(&["socat", "-", "TCP:127.0.0.1:8080"]));
    assert_eq!(plan.container_id, "c0ffee");
    assert!(!plan.tty);
    assert_eq!(plan.env, None);
    assert_eq!(plan.kind, ChannelStreamKind::TcpForward);
    assert_eq!(conn.container_id.as_deref(), Some("c0ffee"));
    assert_eq!(conn.start_exec_session(3, "exec1".to_string(), false, plan.kind).map(|_| ()), None);
    assert!(conn.data(3));
    let pong = vec![
        OutputFrame { origin: StreamOrigin::StdErr, data: b"socat: note".to_vec() },
        OutputFrame { origin: StreamOrigin::StdOut, data: b"PONG\n".to_vec() },
    ];
    assert_eq!(
        bridge_transcript(ChannelStreamKind::TcpForward, &pong, 0),
        vec![ChannelAction::Data(b"PONG\n".to_vec()), ChannelAction::Eof, ChannelAction::Close]
    );
    match conn.channel_open_direct_tcpip(&policy, "[::1]", 22) {
        Ok(DirectStep::Spawn(plan)) => {
            assert_eq!(plan.cmd, strings(&["socat", "-", "TCP:127.0.0.1:22"]));
            assert_eq!(plan.container_id, "c0ffee");
        }
        other => panic!("unexpected {:?}", other),
    }
}

#[test]
fn local_forward_policy() {
    let conn = logged_in();
    let mut policy = PortForwardingConfig::default();
    assert!(matches!(
        conn.channel_open_direct_tcpip(&policy, "example.com", 80),
        Ok(DirectStep::Refuse)
    ));
    policy.allow_nonlocal_destinations = true;
    match conn.channel_open_direct_tcpip(&policy, "example.com", 80) {
        Ok(DirectStep::Provision { dest_host, .. }) => assert_eq!(dest_host, "example.com"),
        other => panic!("unexpected {:?}", other),
    }
    policy.allow_local = false;
    for host in ["localhost", "example.com"] {
        assert!(matches!(
            conn.channel_open_direct_tcpip(&policy, host, 80),
            Ok(DirectStep::Refuse)
        ));
    }
    let stranger = Conn::new();
    assert!(matches!(
        stranger.channel_open_direct_tcpip(&PortForwardingConfig::default(), "localhost", 80),
        Err(SessionError::NotAuthenticated)
    ));
    for host in ["localhost", "127.0.0.1", "::1", "[::1]", "0.0.0.0"] {
        assert!(is_localhost(host));
    }
    for host in ["", "LOCALHOST", "127.0.0.2", "example.com", "localhost "] {
        assert!(!is_localhost(host));
    }
}

#[test]
fn remote_forward_binds_loopback_without_gateway_ports() {
    let conn = logged_in();
    let policy = PortForwardingConfig::default();
    assert!(!policy.allow_gateway_ports);
    for address in ["0.0.0.0", "", "*", "localhost", "::1", "192.168.1.5", "example.com"] {
        let bind = conn.tcpip_forward(&policy, address, 9000).unwrap();
        assert_eq!(bind.bind_addr, "127.0.0.1");
        assert_eq!(bind.port, 9000);
    }
}

#[test]
fn remote_forward_with_gateway_ports() {
    let conn = logged_in();
    let mut policy = PortForwardingConfig::default();
    policy.allow_gateway_ports = true;
    for address in ["0.0.0.0", "", "*"] {
        assert_eq!(conn.tcpip_forward(&policy, address, 0).unwrap().bind_addr, "0.0.0.0");
    }
    for address in ["localhost", "127.0.0.1", "::1", "[::1]"] {
        assert_eq!(conn.tcpip_forward(&policy, address, 1).unwrap().bind_addr, "127.0.0.1");
    }
    assert_eq!(conn.tcpip_forward(&policy, "192.168.1.5", 1).unwrap().bind_addr, "192.168.1.5");
    policy.allow_remote = false;
    assert!(conn.tcpip_forward(&policy, "localhost", 1).is_none());
}

#[test]
fn remote_forwards_are_kept_and_cancelled() {
    let mut conn = logged_in();
    assert_eq!(conn.tcpip_forward_bound("localhost", 9000, BindOutcome::Failed), (false, 9000));
    assert!(conn.remote_forwards.is_empty());
    assert_eq!(
        conn.tcpip_forward_bound("localhost", 0, BindOutcome::Bound(Some(40123))),
        (true, 40123)
    );
    assert_eq!(
        conn.tcpip_forward_bound("localhost", 9000, BindOutcome::Bound(Some(9000))),
        (true, 9000)
    );
    assert_eq!(conn.tcpip_forward_bound("", 0, BindOutcome::Bound(None)), (true, 0));
    assert_eq!(
        conn.tcpip_forward_bound("localhost", 9000, BindOutcome::Bound(Some(9000))),
        (true, 9000)
    );
    assert_eq!(conn.remote_forwards.len(), 3);
    assert!(!conn.cancel_tcpip_forward("localhost", 0));
    assert!(!conn.cancel_tcpip_forward("other", 9000));
    assert!(conn.cancel_tcpip_forward("localhost", 40123));
    assert!(!conn.cancel_tcpip_forward("localhost", 40123));
    assert_eq!(conn.remote_forwards.len(), 2);
    conn.pty_request(1, "xterm", 80, 24);
    conn.start_exec_session(1, "e".to_string(), true, ChannelStreamKind::Session);
    let gone = conn.disconnect();
    let mut keys: Vec<(String, u32)> = gone.into_iter().map(|f| (f.address, f.port)).collect();
    keys.sort();
    assert_eq!(keys, vec![("".to_string(), 0), ("localhost".to_string(), 9000)]);
    assert!(conn.remote_forwards.is_empty());
    assert!(conn.ptys.is_empty());
    assert!(conn.exec_sessions.is_empty());
}

#[test]
fn shell_with_and_without_terminal() {
    let mut conn = logged_in();
    assert!(conn.channel_open_session());
    let target = conn.shell_request(0).unwrap();
    assert_eq!((target.github_user.as_str(), target.project.as_str()), ("octocat", "demo"));
    let tmux = ShellConfig { mode: ShellMode::Tmux, tmux_session: "main 1".to_string() };
    let plan = conn.shell_provisioned(0, "c1".to_string(), &tmux);
    assert_eq!(plan.cmd, strings(&["/bin/bash", "-l"]));
    assert!(!plan.tty);
    assert_eq!(plan.env, Some(strings(&["SHELL=/bin/bash", "HOME=/workspace"])));
    assert_eq!(plan.kind, ChannelStreamKind::Session);
    assert!(conn.start_exec_session(0, "e0".to_string(), plan.tty, plan.kind).is_none());
    conn.pty_request(1, "", 120, 40);
    let plan = conn.shell_provisioned(1, "c1".to_string(), &tmux);
    assert_eq!(plan.cmd, strings(&["/bin/bash", "-lc", TMUX_SCRIPT]));
    assert!(plan.tty);
    assert_eq!(plan.env, Some(strings(&["SHELL=/bin/bash", "TERM=xterm-256color"])));
    let resize = conn.start_exec_session(1, "e1".to_string(), plan.tty, plan.kind).unwrap();
    assert_eq!((resize.exec_id.as_str(), resize.width, resize.height), ("e1", 120, 40));
    conn.pty_request(2, "vt100", 70000, 65536 + 24);
    let plan = conn.shell_provisioned(2, "c1".to_string(), &ShellConfig::default());
    assert_eq!(plan.env, Some(strings(&["SHELL=/bin/bash", "TERM=vt100"])));
    let resize = conn.start_exec_session(2, "e2".to_string(), true, plan.kind).unwrap();
    assert_eq!((resize.width, resize.height), (4464, 24));
    assert_eq!(conn.container_id.as_deref(), Some("c1"));
}

#[test]
fn requests_need_a_login() {
    let mut conn = Conn::new();
    assert_eq!(conn.shell_request(0).err(), Some(SessionError::NotAuthenticated));
    assert_eq!(conn.exec_request(0, "ls").err(), Some(SessionError::NotAuthenticated));
    assert_eq!(conn.exec_request(0, "agentman list").err(), Some(SessionError::NotAuthenticated));
    conn.github_user = Some("octocat".to_string());
    assert_eq!(conn.shell_request(0).err(), Some(SessionError::NoProject));
    assert_eq!(conn.exec_request(0, "ls").err(), Some(SessionError::NoProject));
}

#[test]
fn exec_requests() {
    let mut conn = logged_in();
    match conn.exec_request(0, "  agentman destroy --dry-run\n").unwrap() {
        ExecStep::Control(c) => assert_eq!(
            c,
            Command::Destroy { yes: false, keep_workspace: false, dry_run: true, force: false }
        ),
        other => panic!("unexpected {:?}", other),
    }
    match conn.exec_request(0, "echo hi && false").unwrap() {
        ExecStep::Provision(t) => assert_eq!(t.project, "demo"),
        other => panic!("unexpected {:?}", other),
    }
    let plan = conn.exec_provisioned(0, "c1".to_string(), "echo hi && false");
    assert_eq!(plan.cmd, strings(&["/bin/bash", "-c", "echo hi && false"]));
    assert!(!plan.tty);
    assert_eq!(plan.env, Some(strings(&["SHELL=/bin/bash", "HOME=/workspace"])));
    conn.pty_request(4, "screen", 10, 20);
    let plan = conn.exec_provisioned(4, "c1".to_string(), "top");
    assert!(plan.tty);
    assert_eq!(plan.env, Some(strings(&["SHELL=/bin/bash", "TERM=screen"])));
}

#[test]
fn window_changes_and_input() {
    let mut conn = logged_in();
    assert!(conn.window_change_request(1, 100, 30).is_none());
    assert!(conn.ptys.is_empty());
    assert!(!conn.data(1));
    assert!(!conn.channel_eof(1));
    conn.pty_request(1, "xterm", 80, 24);
    assert!(conn.window_change_request(1, 100, 30).is_none());
    assert_eq!((conn.ptys[&1].cols, conn.ptys[&1].rows), (100, 30));
    assert_eq!(conn.ptys[&1].term, "xterm");
    conn.start_exec_session(1, "e1".to_string(), true, ChannelStreamKind::Session);
    conn.start_exec_session(2, "e2".to_string(), false, ChannelStreamKind::Session);
    let resize = conn.window_change_request(1, 132, 43).unwrap();
    assert_eq!((resize.exec_id.as_str(), resize.width, resize.height), ("e1", 132, 43));
    assert!(conn.window_change_request(2, 132, 43).is_none());
    assert!(conn.data(1));
    assert!(conn.channel_eof(1));
    assert!(!conn.data(1));
    assert!(conn.data(2));
    conn.channel_close(1);
    assert!(conn.ptys.is_empty());
    assert_eq!(conn.exec_sessions.len(), 1);
    assert!(!conn.channel_eof(1));
    conn.channel_close(7);
    assert_eq!(conn.exec_sessions.len(), 1);
    conn.pty_request(2, "a", 1, 1);
    conn.pty_request(2, "b", 2, 2);
    assert_eq!(conn.ptys.len(), 1);
    assert_eq!(conn.ptys[&2].term, "b");
    assert_eq!((conn.ptys[&2].cols, conn.ptys[&2].rows), (2, 2));
    assert_eq!(conn.exec_sessions[&2].exec_id, "e2");
    assert!(conn.exec_sessions[&2].stdin_open && !conn.exec_sessions[&2].tty);
}

#[test]
fn control_command_answer() {
    assert_eq!(
        control_reply_actions(2, "refused\n"),
        vec![
            ChannelAction::Success,
            ChannelAction::Data(b"refused\n".to_vec()),
            ChannelAction::ExitStatus(2),
            ChannelAction::Eof,
            ChannelAction::Close
        ]
    );
    assert_eq!(
        control_reply_actions(0, ""),
        vec![
            ChannelAction::Success,
            ChannelAction::ExitStatus(0),
            ChannelAction::Eof,
            ChannelAction::Close
        ]
    );
    assert_eq!(
        provision_failure_actions("no sandbox: engine down"),
        vec![
            ChannelAction::ExtendedData { code: 1, data: b"no sandbox: engine down\n".to_vec() },
            ChannelAction::ExitStatus(255),
            ChannelAction::Eof,
            ChannelAction::Close
        ]
    );
}
