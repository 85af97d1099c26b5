use ethup::chains::{_hoodi_config, mainnet_config};
use ethup::cli::{Cli, Commands};
use ethup::config::{http_url, ClConfig, ElConfig};
use ethup::layout::{bin_dir, data_dir, join, log_dir, secret_dir};
use ethup::runner::{
    log_line, relayed, spawn_cl, spawn_el, start_nodes, Action, Event, Launch, LaunchStep, Output,
    Role, RunError, Shutdown, SignalError, SpawnError, Supervisor,
};

fn el_config() -> ElConfig {
    ElConfig {
        name: "reth".to_string(),
        bin: "/opt/bin/reth".to_string(),
        chain: "mainnet".to_string(),
        data_dir: "/var/lib/reth".to_string(),
        http_addr: "127.0.0.1".to_string(),
        http_port: 8545,
        authrpc_addr: "127.0.0.2".to_string(),
        authrpc_port: 8551,
        jwt_path: "/etc/jwt.hex".to_string(),
    }
}

fn cl_config() -> ClConfig {
    ClConfig {
        name: "lighthouse".to_string(),
        bin: "/opt/bin/lighthouse".to_string(),
        data_dir: "/var/lib/lighthouse".to_string(),
        chain: "mainnet".to_string(),
        http_addr: "127.0.0.1".to_string(),
        http_port: 5052,
        execution_endpoint: "http://127.0.0.2:8551".to_string(),
        execution_jwt: "/etc/jwt.hex".to_string(),
        checkpoint_sync_url: Some("https://checkpoint.example".to_string()),
    }
}

#[test]
fn urls_are_built_from_address_and_port() {
    assert_eq!(el_config().rpc_url(), "http://127.0.0.1:8545");
    assert_eq!(el_config().authrpc_url(), "http://127.0.0.2:8551");
    assert_eq!(cl_config().http_url(), "http://127.0.0.1:5052");
    assert_eq!(http_url("localhost", 0), "http://localhost:0");
    assert_eq!(http_url("[::1]", 65535), "http://[::1]:65535");
}

#[test]
fn paths_are_joined() {
    assert_eq!(join("/home/op", ".ethup/bin"), "/home/op/.ethup/bin");
    assert_eq!(join("/home/op/", ".ethup/bin"), "/home/op/.ethup/bin");
    assert_eq!(join("/", "x"), "/x");
    assert_eq!(join("", "x"), "x");
    assert_eq!(join("/home/op", "/etc"), "/etc");
    assert_eq!(join("/home/op", ""), "/home/op/");
    assert_eq!(join("rel", "a/b"), "rel/a/b");
}

#[test]
fn paths_are_joined_as_std_joins_them() {
    for base in ["/home/op", "/home/op/", "/", "", "rel", "a//"] {
        for rest in [".ethup/bin", "x", "", "/abs", "a/b/"] {
            let expected = std::path::Path::new(base).join(rest);
            assert_eq!(join(base, rest), expected.to_str().unwrap(), "{:?} {:?}", base, rest);
        }
    }
}

#[test]
fn directories_lie_below_home() {
    assert_eq!(bin_dir("/home/op"), "/home/op/.ethup/bin");
    assert_eq!(secret_dir("/home/op"), "/home/op/.ethup/secrets");
    assert_eq!(data_dir("/home/op"), "/home/op/.ethup/data");
    assert_eq!(log_dir("/home/op"), "/home/op/.ethup/logs");
}

#[test]
fn mainnet_configuration() {
    let (el, cl) = mainnet_config("/home/op");
    assert_eq!(
        el,
        ElConfig {
            name: "reth".to_string(),
            bin: "/home/op/.ethup/bin/reth".to_string(),
            chain: "mainnet".to_string(),
            data_dir: "/home/op/.ethup/data/reth-mainnet".to_string(),
            http_addr: "127.0.0.1".to_string(),
            http_port: 8545,
            authrpc_addr: "127.0.0.1".to_string(),
            authrpc_port: 8551,
            jwt_path: "/home/op/.ethup/secrets/jwt.hex".to_string(),
        }
    );
    assert_eq!(
        cl,
        ClConfig {
            name: "lighthouse".to_string(),
            bin: "/home/op/.ethup/bin/lighthouse".to_string(),
            data_dir: "/home/op/.ethup/data/lighthouse-mainnet".to_string(),
            chain: "mainnet".to_string(),
            http_addr: "127.0.0.1".to_string(),
            http_port: 5052,
            execution_endpoint: "http://127.0.0.1:8551".to_string(),
            execution_jwt: "/home/op/.ethup/secrets/jwt.hex".to_string(),
            checkpoint_sync_url: Some("https://mainnet.checkpoint.sigp.io".to_string()),
        }
    );
}

#[test]
fn hoodi_configuration() {
    let (el, cl) = _hoodi_config("/root");
    assert_eq!(el.chain, "hoodi");
    assert_eq!(el.data_dir, "/root/.ethup/data/reth-hoodi");
    assert_eq!(el.bin, "/root/.ethup/bin/reth");
    assert_eq!(cl.chain, "hoodi");
    assert_eq!(cl.data_dir, "/root/.ethup/data/lighthouse-hoodi");
    assert_eq!(
        cl.checkpoint_sync_url.as_deref(),
        Some("https://checkpoint-sync.hoodi.ethpandaops.io")
    );
}

#[test]
fn configurations_are_paired() {
    for (el, cl) in [mainnet_config("/h"), _hoodi_config("/h")] {
        assert_eq!(cl.execution_jwt, el.jwt_path);
        assert_eq!(cl.execution_endpoint, el.authrpc_url());
    }
}

#[test]
fn execution_node_arguments() {
    let launch = spawn_el(&el_config(), false);
    assert_eq!(
        launch,
        Launch {
            role: Role::Execution,
            program: "/opt/bin/reth".to_string(),
            args: [
                "node", "--chain", "mainnet", "--datadir", "/var/lib/reth", "--authrpc.addr",
                "127.0.0.2", "--authrpc.port", "8551", "--authrpc.jwtsecret", "/etc/jwt.hex",
                "--http", "--http.addr", "127.0.0.1", "--http.port", "8545", "--http.api", "all",
            ]
            .iter()
            .map(|a| a.to_string())
            .collect(),
            data_dir: "/var/lib/reth".to_string(),
            output: Output::Captured,
        }
    );
}

#[test]
fn consensus_node_arguments() {
    let launch = spawn_cl(&cl_config(), false);
    assert_eq!(
        launch,
        Launch {
            role: Role::Consensus,
            program: "/opt/bin/lighthouse".to_string(),
            args: [
                "bn", "--network", "mainnet", "--datadir", "/var/lib/lighthouse",
                "--execution-endpoint", "http://127.0.0.2:8551", "--execution-jwt",
                "/etc/jwt.hex", "--http", "--http-address", "127.0.0.1", "--http-port", "5052",
                "--checkpoint-sync-url", "https://checkpoint.example",
            ]
            .iter()
            .map(|a| a.to_string())
            .collect(),
            data_dir: "/var/lib/lighthouse".to_string(),
            output: Output::Captured,
        }
    );
}

#[test]
fn consensus_node_arguments_without_checkpoint() {
    let mut cfg = cl_config();
    cfg.checkpoint_sync_url = None;
    let launch = spawn_cl(&cfg, true);
    assert_eq!(launch.args.len(), 14);
    assert_eq!(launch.args.last().map(|a| a.as_str()), Some("5052"));
    assert!(!launch.args.iter().any(|a| a == "--checkpoint-sync-url"));
}

#[test]
fn quiet_launches_discard_their_output() {
    assert_eq!(spawn_el(&el_config(), true).output, Output::Discarded);
    assert_eq!(spawn_cl(&cl_config(), true).output, Output::Discarded);
    assert_eq!(spawn_el(&el_config(), false).output, Output::Captured);
    assert_eq!(spawn_cl(&cl_config(), false).output, Output::Captured);
    assert_eq!(spawn_el(&el_config(), true).args, spawn_el(&el_config(), false).args);
}

#[test]
fn relayed_lines_are_tagged_and_coloured() {
    assert_eq!(log_line(Role::Execution, "started"), "\x1b[32m[EL]\x1b[0m started");
    assert_eq!(log_line(Role::Consensus, "slot 5"), "\x1b[34m[CL]\x1b[0m slot 5");
    assert_eq!(log_line(Role::Consensus, ""), "\x1b[34m[CL]\x1b[0m ");
    assert_ne!(Role::Execution.colour(), Role::Consensus.colour());
    assert_eq!(Role::Execution.tag(), "EL");
    assert_eq!(Role::Consensus.tag(), "CL");
}

#[test]
fn relays_are_attached_unless_quiet() {
    assert_eq!(relayed(false), vec![Role::Execution, Role::Consensus]);
    assert_eq!(relayed(true), Vec::<Role>::new());
}

#[test]
fn roles_are_siblings() {
    assert_eq!(Role::Execution.other(), Role::Consensus);
    assert_eq!(Role::Consensus.other(), Role::Execution);
}

#[test]
fn interrupt_stops_both_nodes_with_success() {
    assert_eq!(
        start_nodes(Event::Interrupt),
        Shutdown { terminated: vec![Role::Execution, Role::Consensus], result: Ok(()) }
    );
}

#[test]
fn execution_exit_with_status_1_fails_the_run() {
    assert_eq!(
        start_nodes(Event::Exited { role: Role::Execution, code: Some(1) }),
        Shutdown {
            terminated: vec![Role::Consensus],
            result: Err(RunError::UnexpectedExit { role: Role::Execution, code: Some(1) }),
        }
    );
}

#[test]
fn consensus_exit_fails_the_run() {
    assert_eq!(
        start_nodes(Event::Exited { role: Role::Consensus, code: None }),
        Shutdown {
            terminated: vec![Role::Execution],
            result: Err(RunError::UnexpectedExit { role: Role::Consensus, code: None }),
        }
    );
}

#[test]
fn a_clean_exit_is_a_failure_too() {
    let shutdown = start_nodes(Event::Exited { role: Role::Execution, code: Some(0) });
    assert_eq!(
        shutdown.result,
        Err(RunError::UnexpectedExit { role: Role::Execution, code: Some(0) })
    );
    assert_eq!(shutdown.terminated, vec![Role::Consensus]);
}

#[test]
fn supervisor_goes_from_running_to_done() {
    let events = [
        Event::Interrupt,
        Event::Exited { role: Role::Execution, code: Some(1) },
        Event::Exited { role: Role::Consensus, code: Some(2) },
    ];
    for event in events {
        let running = Supervisor::new();
        assert_eq!(running, Supervisor::Running);
        assert_eq!(running.action(), Action::Await);
        let stopping = running.on_event(event);
        let asked = match stopping.action() {
            Action::Terminate(roles) => roles,
            other => panic!("no termination but {:?}", other),
        };
        for role in [Role::Execution, Role::Consensus] {
            let still_runs = event != Event::Exited { role, code: Some(1) }
                && event != Event::Exited { role, code: Some(2) };
            let times = asked.iter().filter(|r| **r == role).count();
            assert_eq!(times, if still_runs { 1 } else { 0 });
        }
        let done = stopping.on_terminated();
        assert!(matches!(done, Supervisor::Done(_)));
        assert!(matches!(done.action(), Action::Return(_)));
        assert_eq!(done.on_terminated(), done);
        assert_eq!(done.on_event(Event::Interrupt), done);
    }
}

#[test]
fn supervisor_takes_only_the_first_event() {
    let stopping = Supervisor::new().on_event(Event::Interrupt);
    assert_eq!(stopping, Supervisor::ShuttingDownByRequest);
    let later = Event::Exited { role: Role::Execution, code: Some(9) };
    assert_eq!(stopping.on_event(later), Supervisor::ShuttingDownByRequest);
    let failing = Supervisor::new().on_event(later);
    assert_eq!(failing, Supervisor::ShuttingDownByFailure { role: Role::Execution, code: Some(9) });
    assert_eq!(failing.on_event(Event::Interrupt), failing);
    assert_eq!(
        failing.on_event(Event::Exited { role: Role::Consensus, code: None }),
        failing
    );
}

#[test]
fn supervisor_waits_until_an_event_comes() {
    let running = Supervisor::new();
    assert_eq!(running.on_terminated(), Supervisor::Running);
    assert_eq!(running.on_terminated().action(), Action::Await);
}

#[test]
fn run_failures_are_described() {
    assert_eq!(
        RunError::UnexpectedExit { role: Role::Execution, code: Some(1) }.describe(),
        "EL exited unexpectedly with status 1"
    );
    assert_eq!(
        RunError::UnexpectedExit { role: Role::Consensus, code: Some(-11) }.describe(),
        "CL exited unexpectedly with status -11"
    );
    assert_eq!(
        RunError::UnexpectedExit { role: Role::Consensus, code: Some(i32::MIN) }.describe(),
        "CL exited unexpectedly with status -2147483648"
    );
    assert_eq!(
        RunError::UnexpectedExit { role: Role::Consensus, code: None }.describe(),
        "CL exited unexpectedly without a status"
    );
}

#[test]
fn commands_are_plain_values() {
    let run = Cli { command: Commands::Run { quiet: true } };
    assert_eq!(run.command, Commands::Run { quiet: true });
    assert_ne!(run.command, Commands::Run { quiet: false });
    assert_ne!(run.command, Commands::Status);
}

#[test]
fn launch_failures_are_described() {
    let launch = spawn_el(&el_config(), true);
    assert_eq!(
        SpawnError { role: launch.role, step: LaunchStep::CreateDataDir }.describe(&launch),
        "EL data directory /var/lib/reth could not be created"
    );
    let launch = spawn_cl(&cl_config(), true);
    assert_eq!(
        SpawnError { role: launch.role, step: LaunchStep::StartProgram }.describe(&launch),
        "CL program /opt/bin/lighthouse could not be started"
    );
}

#[test]
fn signal_failures_are_described() {
    assert_eq!(
        SignalError { role: Role::Execution }.describe(),
        "EL could not be asked to terminate"
    );
    assert_eq!(
        SignalError { role: Role::Consensus }.describe(),
        "CL could not be asked to terminate"
    );
}
