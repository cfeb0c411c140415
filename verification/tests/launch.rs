use electrsd::launch::{Launch, LaunchAction, LaunchEvent, READY_POLL_MILLIS};
use electrsd::{Compat, Conf, DataDir, ElectrsD, Environment, Error, ExitStatus, Release, Upstream};

fn upstream() -> Upstream {
    Upstream {
        cookie_file: "/node/dev/.cookie".to_string(),
        rpc_socket: "127.0.0.1:12381".to_string(),
        p2p_socket: Some("127.0.0.1:12383".to_string()),
    }
}

fn strings(items: &[&str]) -> Vec<String> {
    items.iter().map(|s| s.to_string()).collect()
}

/// Feeds the events in order and returns the answers.
fn drive<'a>(mut launch: Launch<'a>, events: Vec<LaunchEvent>) -> (Launch<'a>, Vec<LaunchAction>) {
    let mut answers = Vec::new();
    for event in events {
        let (next, action) = launch.step(event);
        launch = next;
        answers.push(action);
    }
    (launch, answers)
}

/// The events of one try with a temporary directory and two ports, up to
/// the start of the process.
fn try_until_spawn(dir: &str, electrum: u16, monitoring: u16) -> Vec<LaunchEvent> {
    vec![
        LaunchEvent::UpstreamInfo { initial_block_download: Some(false) },
        LaunchEvent::TempDirCreated(dir.to_string()),
        LaunchEvent::PortAllocated(electrum),
        LaunchEvent::PortAllocated(monitoring),
        LaunchEvent::Spawned,
    ]
}

#[test]
fn default_conf_is_documented_default() {
    let mut conf = Conf::default();
    conf.view_stderr = false;
    conf.http_enabled = false;
    conf.network = "dev";
    conf.tmpdir = None;
    conf.staticdir = None;
    assert_eq!(conf, Conf::default());
    assert!(conf.args.is_empty());
    assert_eq!(conf.attempts, 3);
    assert_eq!(conf.compat, Compat { release: None, legacy: false });
    assert_eq!(conf.clone(), conf);
}

#[test]
fn conf_for_import_build_is_verbose() {
    let conf = Conf::for_compat(Compat { release: Some(Release::V0_5_1), legacy: false });
    assert_eq!(conf.args, vec!["-vvv"]);
    assert_eq!(conf.network, "dev");
    let legacy = Conf::for_compat(Compat { release: None, legacy: true });
    assert_eq!(legacy.args, vec!["-vvv"]);
}

#[test]
fn launch_with_default_conf_reaches_ready() {
    let (launch, first) = ElectrsD::new("/bin/electrs", &upstream(), &Environment::default());
    assert_eq!(first, LaunchAction::QueryUpstream);
    assert!(!launch.is_finished());
    let mut events = try_until_spawn("/tmp/.tmpAbC", 50001, 50002);
    events.push(LaunchEvent::Connected);
    let (launch, answers) = drive(launch, events);
    assert!(launch.is_finished());
    assert_eq!(
        answers,
        vec![
            LaunchAction::CreateTempDir { root: None },
            LaunchAction::AllocatePort,
            LaunchAction::AllocatePort,
            LaunchAction::Spawn {
                exe: "/bin/electrs".to_string(),
                args: strings(&[
                    "--db-dir",
                    "/tmp/.tmpAbC",
                    "--network",
                    "dev",
                    "--cookie-file",
                    "/node/dev/.cookie",
                    "--daemon-rpc-addr",
                    "127.0.0.1:12381",
                    "--daemon-p2p-addr",
                    "127.0.0.1:12383",
                    "--electrum-rpc-addr",
                    "0.0.0.0:50001",
                    "--monitoring-addr",
                    "0.0.0.0:50002",
                ]),
                view_stderr: false,
            },
            LaunchAction::Connect { url: "0.0.0.0:50001".to_string() },
            LaunchAction::Ready(ElectrsD {
                work_dir: DataDir::Temporary("/tmp/.tmpAbC".to_string()),
                electrum_url: "0.0.0.0:50001".to_string(),
                esplora_url: None,
            }),
        ]
    );
}

#[test]
fn launch_nudges_upstream_in_initial_block_download() {
    let (launch, _) = ElectrsD::new("electrs", &upstream(), &Environment::default());
    let (launch, action) = launch.step(LaunchEvent::UpstreamInfo { initial_block_download: Some(true) });
    assert_eq!(action, LaunchAction::NudgeUpstream);
    let (_, action) = launch.step(LaunchEvent::Nudged);
    assert_eq!(action, LaunchAction::CreateTempDir { root: None });
}

#[test]
fn launch_does_not_nudge_without_the_flag() {
    let (launch, _) = ElectrsD::new("electrs", &upstream(), &Environment::default());
    let (_, action) = launch.step(LaunchEvent::UpstreamInfo { initial_block_download: None });
    assert_eq!(action, LaunchAction::CreateTempDir { root: None });
}

#[test]
fn launch_fails_when_upstream_does() {
    let (launch, _) = ElectrsD::new("electrs", &upstream(), &Environment::default());
    let (launch, action) = launch.step(LaunchEvent::Failed("connection refused".to_string()));
    assert_eq!(action, LaunchAction::Fail(Error::TapyrusCoreRpc("connection refused".to_string())));
    assert!(launch.is_finished());
    let (launch, action) = launch.step(LaunchEvent::Connected);
    assert_eq!(action, LaunchAction::Finished);
    assert!(launch.is_finished());

    let (launch, _) = ElectrsD::new("electrs", &upstream(), &Environment::default());
    let (launch, _) = launch.step(LaunchEvent::UpstreamInfo { initial_block_download: Some(true) });
    let (_, action) = launch.step(LaunchEvent::Failed("no wallet".to_string()));
    assert_eq!(action, LaunchAction::Fail(Error::TapyrusCoreRpc("no wallet".to_string())));
}

#[test]
fn both_dirs_fail_before_anything_is_created() {
    let mut conf = Conf::default();
    conf.tmpdir = Some("/tmp/a".to_string());
    conf.staticdir = Some("/var/b".to_string());
    let (launch, first) =
        ElectrsD::with_conf("electrs", &upstream(), &Environment::default(), &conf);
    assert_eq!(first, LaunchAction::QueryUpstream);
    let (launch, action) = launch.step(LaunchEvent::UpstreamInfo { initial_block_download: Some(false) });
    assert_eq!(action, LaunchAction::Fail(Error::BothDirsSpecified));
    assert!(launch.is_finished());

    let (launch, _) = ElectrsD::with_conf("electrs", &upstream(), &Environment::default(), &conf);
    let (launch, action) = launch.step(LaunchEvent::UpstreamInfo { initial_block_download: Some(true) });
    assert_eq!(action, LaunchAction::NudgeUpstream);
    let (_, action) = launch.step(LaunchEvent::Nudged);
    assert_eq!(action, LaunchAction::Fail(Error::BothDirsSpecified));
}

#[test]
fn temporary_directory_goes_under_the_configured_root() {
    let mut conf = Conf::default();
    conf.tmpdir = Some("/scratch".to_string());
    let env = Environment { tempdir_root: Some("/ignored".to_string()), ..Environment::default() };
    let (launch, _) = ElectrsD::with_conf("electrs", &upstream(), &env, &conf);
    let (_, action) = launch.step(LaunchEvent::UpstreamInfo { initial_block_download: None });
    assert_eq!(action, LaunchAction::CreateTempDir { root: Some("/scratch".to_string()) });
}

#[test]
fn temporary_directory_goes_under_the_environment_root() {
    let env = Environment { tempdir_root: Some("/env/root".to_string()), ..Environment::default() };
    let (launch, _) = ElectrsD::new("electrs", &upstream(), &env);
    let (_, action) = launch.step(LaunchEvent::UpstreamInfo { initial_block_download: None });
    assert_eq!(action, LaunchAction::CreateTempDir { root: Some("/env/root".to_string()) });
}

#[test]
fn persistent_directory_is_used_as_named() {
    let mut conf = Conf::default();
    conf.staticdir = Some("/var/lib/electrs".to_string());
    conf.http_enabled = true;
    conf.view_stderr = true;
    conf.args = vec!["--jsonrpc-timeout", "30"];
    conf.network = "prod";
    let (launch, _) = ElectrsD::with_conf("electrs", &upstream(), &Environment::default(), &conf);
    let (launch, action) = launch.step(LaunchEvent::UpstreamInfo { initial_block_download: Some(false) });
    assert_eq!(action, LaunchAction::CreateDir { path: "/var/lib/electrs".to_string() });
    // a temporary directory answers nothing here
    let (launch, action) = launch.step(LaunchEvent::TempDirCreated("/tmp/x".to_string()));
    assert_eq!(action, LaunchAction::Pending);
    let (launch, answers) = drive(
        launch,
        vec![
            LaunchEvent::DirCreated,
            LaunchEvent::PortAllocated(1),
            LaunchEvent::PortAllocated(65535),
            LaunchEvent::PortAllocated(3000),
            LaunchEvent::Spawned,
            LaunchEvent::Connected,
        ],
    );
    assert!(launch.is_finished());
    assert_eq!(
        answers,
        vec![
            LaunchAction::AllocatePort,
            LaunchAction::AllocatePort,
            LaunchAction::AllocatePort,
            LaunchAction::Spawn {
                exe: "electrs".to_string(),
                args: strings(&[
                    "--jsonrpc-timeout",
                    "30",
                    "--db-dir",
                    "/var/lib/electrs",
                    "--network",
                    "prod",
                    "--cookie-file",
                    "/node/dev/.cookie",
                    "--daemon-rpc-addr",
                    "127.0.0.1:12381",
                    "--daemon-p2p-addr",
                    "127.0.0.1:12383",
                    "--electrum-rpc-addr",
                    "0.0.0.0:1",
                    "--monitoring-addr",
                    "0.0.0.0:65535",
                    "--http-addr",
                    "0.0.0.0:3000",
                ]),
                view_stderr: true,
            },
            LaunchAction::Connect { url: "0.0.0.0:1".to_string() },
            LaunchAction::Ready(ElectrsD {
                work_dir: DataDir::Persistent("/var/lib/electrs".to_string()),
                electrum_url: "0.0.0.0:1".to_string(),
                esplora_url: Some("0.0.0.0:3000".to_string()),
            }),
        ]
    );
}

#[test]
fn persistent_directory_is_the_same_on_relaunch() {
    let mut conf = Conf::default();
    conf.staticdir = Some("/var/lib/electrs".to_string());
    let mut paths = Vec::new();
    for electrum in [40000u16, 40010] {
        let (launch, _) =
            ElectrsD::with_conf("electrs", &upstream(), &Environment::default(), &conf);
        let (_, mut answers) = drive(
            launch,
            vec![
                LaunchEvent::UpstreamInfo { initial_block_download: Some(false) },
                LaunchEvent::DirCreated,
                LaunchEvent::PortAllocated(electrum),
                LaunchEvent::PortAllocated(electrum + 1),
                LaunchEvent::Spawned,
                LaunchEvent::Connected,
            ],
        );
        match answers.pop() {
            Some(LaunchAction::Ready(daemon)) => {
                assert_eq!(
                    daemon.kill().1,
                    electrsd::daemon::ShutdownAction::Send(electrsd::daemon::Signal::Interrupt)
                );
                paths.push(daemon.workdir());
            }
            other => panic!("not ready: {:?}", other),
        }
    }
    assert_eq!(paths, vec!["/var/lib/electrs".to_string(), "/var/lib/electrs".to_string()]);
}

#[test]
fn legacy_build_reads_the_cookie_and_imports() {
    let conf = Conf::for_compat(Compat { release: None, legacy: true });
    let mut node = upstream();
    node.p2p_socket = None;
    let (launch, _) = ElectrsD::with_conf("electrs", &node, &Environment::default(), &conf);
    let (_, answers) = drive(
        launch,
        vec![
            LaunchEvent::UpstreamInfo { initial_block_download: None },
            LaunchEvent::TempDirCreated("/tmp/t".to_string()),
            LaunchEvent::CookieRead("__cookie__:secret".to_string()),
            LaunchEvent::PortAllocated(7),
            LaunchEvent::PortAllocated(8),
        ],
    );
    assert_eq!(
        answers,
        vec![
            LaunchAction::CreateTempDir { root: None },
            LaunchAction::ReadCookie { path: "/node/dev/.cookie".to_string() },
            LaunchAction::AllocatePort,
            LaunchAction::AllocatePort,
            LaunchAction::Spawn {
                exe: "electrs".to_string(),
                args: strings(&[
                    "-vvv",
                    "--db-dir",
                    "/tmp/t",
                    "--network",
                    "dev",
                    "--cookie",
                    "__cookie__:secret",
                    "--daemon-rpc-addr",
                    "127.0.0.1:12381",
                    "--jsonrpc-import",
                    "--electrum-rpc-addr",
                    "0.0.0.0:7",
                    "--monitoring-addr",
                    "0.0.0.0:8",
                ]),
                view_stderr: false,
            },
        ]
    );
}

#[test]
fn released_build_imports_with_the_cookie_file() {
    let conf = Conf::for_compat(Compat { release: Some(Release::V0_5_0), legacy: false });
    let (launch, _) = ElectrsD::with_conf("electrs", &upstream(), &Environment::default(), &conf);
    let (_, mut answers) = drive(launch, try_until_spawn("/tmp/t", 10, 20));
    answers.pop();
    match answers.pop() {
        Some(LaunchAction::Spawn { args, .. }) => assert_eq!(
            args,
            strings(&[
                "-vvv",
                "--db-dir",
                "/tmp/t",
                "--network",
                "dev",
                "--cookie-file",
                "/node/dev/.cookie",
                "--daemon-rpc-addr",
                "127.0.0.1:12381",
                "--jsonrpc-import",
                "--electrum-rpc-addr",
                "0.0.0.0:10",
                "--monitoring-addr",
                "0.0.0.0:20",
            ])
        ),
        other => panic!("no spawn: {:?}", other),
    }
}

#[test]
fn readiness_polls_every_half_second_while_the_process_runs() {
    assert_eq!(READY_POLL_MILLIS, 500);
    let (launch, _) = ElectrsD::new("electrs", &upstream(), &Environment::default());
    let (launch, _) = drive(launch, try_until_spawn("/tmp/t", 10, 20));
    let (launch, answers) = drive(
        launch,
        vec![
            LaunchEvent::ConnectFailed,
            LaunchEvent::StillRunning,
            LaunchEvent::Slept,
            LaunchEvent::ConnectFailed,
            LaunchEvent::StillRunning,
            LaunchEvent::Slept,
            LaunchEvent::Connected,
        ],
    );
    assert!(launch.is_finished());
    assert_eq!(answers[0], LaunchAction::PollExit);
    assert_eq!(answers[1], LaunchAction::Sleep { millis: 500 });
    assert_eq!(answers[2], LaunchAction::Connect { url: "0.0.0.0:10".to_string() });
    assert_eq!(answers[3], LaunchAction::PollExit);
    assert_eq!(answers[4], LaunchAction::Sleep { millis: 500 });
    assert_eq!(answers[5], LaunchAction::Connect { url: "0.0.0.0:10".to_string() });
    assert!(matches!(answers[6], LaunchAction::Ready(_)));
}

/// Lets the process exit early `failures` times, then become reachable.
fn launch_after_failures(failures: u16) -> (Vec<LaunchAction>, u8) {
    let (mut launch, _) = ElectrsD::new("electrs", &upstream(), &Environment::default());
    let mut spawns = Vec::new();
    for n in 0..failures {
        let mut events = try_until_spawn("/tmp/t", 20000 + 2 * n, 20001 + 2 * n);
        events.push(LaunchEvent::ConnectFailed);
        events.push(LaunchEvent::Exited(ExitStatus { code: Some(1) }));
        let left = launch.attempts();
        let (next, mut answers) = drive(launch, events);
        launch = next;
        let last = answers.pop().unwrap();
        spawns.push(answers.remove(3));
        if last != LaunchAction::QueryUpstream {
            spawns.push(last);
            return (spawns, left);
        }
    }
    let mut events = try_until_spawn("/tmp/t", 30000, 30001);
    events.push(LaunchEvent::Connected);
    let left = launch.attempts();
    let (_, mut answers) = drive(launch, events);
    let last = answers.pop().unwrap();
    spawns.push(answers.remove(3));
    spawns.push(last);
    (spawns, left)
}

fn electrum_arg(action: &LaunchAction) -> String {
    match action {
        LaunchAction::Spawn { args, .. } => {
            let at = args.iter().position(|a| a == "--electrum-rpc-addr").unwrap();
            args[at + 1].clone()
        }
        other => panic!("no spawn: {:?}", other),
    }
}

#[test]
fn launch_succeeds_on_the_last_try() {
    // three further tries: the fourth start of the process is the last
    let (mut actions, left) = launch_after_failures(3);
    assert_eq!(left, 0);
    let last = actions.pop().unwrap();
    assert_eq!(
        last,
        LaunchAction::Ready(ElectrsD {
            work_dir: DataDir::Temporary("/tmp/t".to_string()),
            electrum_url: "0.0.0.0:30000".to_string(),
            esplora_url: None,
        })
    );
    let ports: Vec<String> = actions.iter().map(electrum_arg).collect();
    assert_eq!(
        ports,
        strings(&["0.0.0.0:20000", "0.0.0.0:20002", "0.0.0.0:20004", "0.0.0.0:30000"])
    );
}

#[test]
fn launch_succeeds_on_an_earlier_try() {
    let (mut actions, left) = launch_after_failures(1);
    assert_eq!(left, 2);
    assert!(matches!(actions.pop(), Some(LaunchAction::Ready(_))));
    assert_eq!(actions.len(), 2);
}

#[test]
fn launch_fails_with_early_exit_when_no_try_is_left() {
    let (mut actions, left) = launch_after_failures(4);
    assert_eq!(left, 0);
    assert_eq!(
        actions.pop(),
        Some(LaunchAction::Fail(Error::EarlyExit(ExitStatus { code: Some(1) })))
    );
    // the process was started four times, each time with the ports of its own try
    let ports: Vec<String> = actions.iter().map(electrum_arg).collect();
    assert_eq!(
        ports,
        strings(&["0.0.0.0:20000", "0.0.0.0:20002", "0.0.0.0:20004", "0.0.0.0:20006"])
    );
}

#[test]
fn launch_without_further_tries_fails_at_the_first_exit() {
    let mut conf = Conf::default();
    conf.attempts = 0;
    let (launch, _) = ElectrsD::with_conf("electrs", &upstream(), &Environment::default(), &conf);
    let mut events = try_until_spawn("/tmp/t", 1, 2);
    events.push(LaunchEvent::ConnectFailed);
    events.push(LaunchEvent::Exited(ExitStatus { code: None }));
    let (launch, mut answers) = drive(launch, events);
    assert!(launch.is_finished());
    assert_eq!(answers.pop(), Some(LaunchAction::Fail(Error::EarlyExit(ExitStatus { code: None }))));
}

#[test]
fn failures_of_the_system_end_the_launch() {
    let stages: Vec<Vec<LaunchEvent>> = vec![
        vec![LaunchEvent::UpstreamInfo { initial_block_download: None }],
        vec![
            LaunchEvent::UpstreamInfo { initial_block_download: None },
            LaunchEvent::TempDirCreated("/tmp/t".to_string()),
        ],
        vec![
            LaunchEvent::UpstreamInfo { initial_block_download: None },
            LaunchEvent::TempDirCreated("/tmp/t".to_string()),
            LaunchEvent::PortAllocated(1),
        ],
        vec![
            LaunchEvent::UpstreamInfo { initial_block_download: None },
            LaunchEvent::TempDirCreated("/tmp/t".to_string()),
            LaunchEvent::PortAllocated(1),
            LaunchEvent::PortAllocated(2),
        ],
        vec![
            LaunchEvent::UpstreamInfo { initial_block_download: None },
            LaunchEvent::TempDirCreated("/tmp/t".to_string()),
            LaunchEvent::PortAllocated(1),
            LaunchEvent::PortAllocated(2),
            LaunchEvent::Spawned,
            LaunchEvent::ConnectFailed,
        ],
    ];
    for events in stages {
        let (launch, _) = ElectrsD::new("electrs", &upstream(), &Environment::default());
        let (launch, _) = drive(launch, events);
        let (launch, action) = launch.step(LaunchEvent::Failed("denied".to_string()));
        assert_eq!(action, LaunchAction::Fail(Error::Io("denied".to_string())));
        assert!(launch.is_finished());
    }
}

#[test]
fn events_that_answer_nothing_are_ignored() {
    let (launch, _) = ElectrsD::new("electrs", &upstream(), &Environment::default());
    let (launch, action) = launch.step(LaunchEvent::PortAllocated(5));
    assert_eq!(action, LaunchAction::Pending);
    let (launch, action) = launch.step(LaunchEvent::Connected);
    assert_eq!(action, LaunchAction::Pending);
    let (launch, action) = launch.step(LaunchEvent::UpstreamInfo { initial_block_download: None });
    assert_eq!(action, LaunchAction::CreateTempDir { root: None });
    // a persistent directory was not asked for
    let (launch, action) = launch.step(LaunchEvent::DirCreated);
    assert_eq!(action, LaunchAction::Pending);
    let (launch, _) = drive(launch, vec![
        LaunchEvent::TempDirCreated("/tmp/t".to_string()),
        LaunchEvent::PortAllocated(1),
        LaunchEvent::PortAllocated(2),
        LaunchEvent::Spawned,
    ]);
    // a failure report does not answer a connection attempt or a pause
    let (launch, action) = launch.step(LaunchEvent::Failed("x".to_string()));
    assert_eq!(action, LaunchAction::Pending);
    let (launch, _) = drive(launch, vec![LaunchEvent::ConnectFailed, LaunchEvent::StillRunning]);
    let (launch, action) = launch.step(LaunchEvent::Failed("x".to_string()));
    assert_eq!(action, LaunchAction::Pending);
    assert!(!launch.is_finished());
}

#[test]
fn both_dirs_fail_whatever_the_companion_node() {
    let mut conf = Conf::default();
    conf.tmpdir = Some("/tmp/a".to_string());
    conf.staticdir = Some("/tmp/b".to_string());
    let mut node = upstream();
    node.p2p_socket = None;
    let (launch, first) = ElectrsD::with_conf("electrs", &node, &Environment::default(), &conf);
    assert_eq!(first, LaunchAction::QueryUpstream);
    let (launch, action) = launch.step(LaunchEvent::UpstreamInfo { initial_block_download: Some(false) });
    assert_eq!(action, LaunchAction::Fail(Error::BothDirsSpecified));
    assert!(launch.is_finished());
}

#[test]
fn launch_needs_the_peer_to_peer_port_of_the_node() {
    let mut node = upstream();
    node.p2p_socket = None;
    let (launch, first) = ElectrsD::new("electrs", &node, &Environment::default());
    assert_eq!(first, LaunchAction::QueryUpstream);
    let (launch, action) = launch.step(LaunchEvent::UpstreamInfo { initial_block_download: None });
    assert_eq!(action, LaunchAction::CreateTempDir { root: None });
    let (launch, action) = launch.step(LaunchEvent::TempDirCreated("/tmp/t".to_string()));
    assert_eq!(action, LaunchAction::MissingP2p);
    assert!(launch.is_finished());
    let (_, action) = launch.step(LaunchEvent::PortAllocated(1));
    assert_eq!(action, LaunchAction::Finished);

    // the failure of the node's answer comes first
    let (launch, _) = ElectrsD::new("electrs", &node, &Environment::default());
    let (_, action) = launch.step(LaunchEvent::Failed("refused".to_string()));
    assert_eq!(action, LaunchAction::Fail(Error::TapyrusCoreRpc("refused".to_string())));

    // a build that imports over JSON-RPC does without the port
    let conf = Conf::for_compat(Compat { release: Some(Release::V0_5_1), legacy: false });
    let (launch, _) = ElectrsD::with_conf("electrs", &node, &Environment::default(), &conf);
    let (launch, _) = launch.step(LaunchEvent::UpstreamInfo { initial_block_download: None });
    let (_, action) = launch.step(LaunchEvent::TempDirCreated("/tmp/t".to_string()));
    assert_eq!(action, LaunchAction::AllocatePort);
}
