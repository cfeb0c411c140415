use electrsd::daemon::Signal;
use electrsd::launch::{LaunchAction, LaunchEvent};
use electrsd::{ElectrsD, Environment, Upstream};

/// A stand-in for the system: it hands out ports in turn, and runs daemons
/// that index the chain of the companion node when they are told to.
struct System {
    next_port: u16,
    node_height: usize,
    listening: Vec<(String, usize)>,
    temp_dirs: usize,
}

impl System {
    fn new() -> System {
        System { next_port: 40000, node_height: 1, listening: Vec::new(), temp_dirs: 0 }
    }

    fn upstream(&self) -> Upstream {
        Upstream {
            cookie_file: "/node/.cookie".to_string(),
            rpc_socket: "127.0.0.1:12381".to_string(),
            p2p_socket: Some("127.0.0.1:12383".to_string()),
        }
    }

    fn generate_to_address(&mut self, blocks: usize) {
        self.node_height += blocks;
    }

    fn launch(&mut self, exe: &str) -> ElectrsD {
        let (mut launch, mut action) = ElectrsD::new(exe, &self.upstream(), &Environment::default());
        let mut spawned: Option<String> = None;
        loop {
            let event = match action {
                LaunchAction::QueryUpstream => {
                    LaunchEvent::UpstreamInfo { initial_block_download: Some(false) }
                }
                LaunchAction::CreateTempDir { .. } => {
                    self.temp_dirs += 1;
                    LaunchEvent::TempDirCreated(format!("/tmp/.tmp{}", self.temp_dirs))
                }
                LaunchAction::AllocatePort => {
                    self.next_port += 1;
                    LaunchEvent::PortAllocated(self.next_port)
                }
                LaunchAction::Spawn { args, .. } => {
                    let at = args.iter().position(|a| a == "--electrum-rpc-addr").unwrap();
                    spawned = Some(args[at + 1].clone());
                    LaunchEvent::Spawned
                }
                LaunchAction::Connect { url } => {
                    assert_eq!(Some(&url), spawned.as_ref());
                    assert!(self.listening.iter().all(|(taken, _)| *taken != url));
                    self.listening.push((url, self.node_height));
                    LaunchEvent::Connected
                }
                LaunchAction::Ready(daemon) => return daemon,
                other => panic!("unexpected {:?}", other),
            };
            let (next, then) = launch.step(event);
            launch = next;
            action = then;
        }
    }

    fn deliver(&mut self, electrsd: &ElectrsD, signal: Signal) {
        if signal == Signal::User1 {
            for (url, height) in self.listening.iter_mut() {
                if *url == electrsd.electrum_url {
                    *height = self.node_height;
                }
            }
        }
    }

    fn header_height(&self, electrsd: &ElectrsD) -> usize {
        self.listening.iter().find(|(url, _)| *url == electrsd.electrum_url).unwrap().1
    }
}

#[test]
fn test_electrsd() {
    let mut system = System::new();
    let electrsd = system.launch("electrs");
    assert_eq!(system.header_height(&electrsd), 1);
    system.generate_to_address(100);

    system.deliver(&electrsd, electrsd.trigger());

    let height = loop {
        let height = system.header_height(&electrsd);
        if height > 100 {
            break height;
        }
    };
    assert_eq!(height, 101);

    // launch another instance to check there are no fixed port used
    let another = system.launch("electrs");
    assert_ne!(another.electrum_url, electrsd.electrum_url);
    assert_eq!(system.header_height(&another), 101);
}
