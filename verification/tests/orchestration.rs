use tor_launcher::config::{Config, HiddenServiceConfig};
use tor_launcher::run::{Action, Event, Orchestrator, RunState};
use tor_launcher::RunError;

fn config(hidden_services: Vec<HiddenServiceConfig>) -> Config {
    Config {
        config_port: 9051,
        socks_port: Some(9050),
        command: String::from("echo hi"),
        tor_exe: None,
        tor_password: None,
        hidden_services,
    }
}

#[test]
fn empty_service_list_skips_provisioning_requests() {
    let mut orch = Orchestrator::new(config(Vec::new()), 7);
    assert!(matches!(orch.step(Event::Proceed), Action::StartDaemon(_)));
    assert!(matches!(orch.step(Event::DaemonReady), Action::OpenControl(9051)));
    assert!(matches!(orch.step(Event::ControlOpened), Action::SendCommand(_)));
    assert!(matches!(orch.step(Event::Response(b"250 OK\r\n".to_vec())), Action::Continue));
    assert_eq!(orch.state, RunState::Provisioning);
    match orch.step(Event::Proceed) {
        Action::StartCommand(c) => assert_eq!(c, "echo hi"),
        _ => panic!("provisioning with no services must start the command at once"),
    }
    assert_eq!(orch.state, RunState::RunningCommand);
}

#[test]
fn launch_that_never_bootstraps_fails_the_run() {
    let mut orch = Orchestrator::new(config(Vec::new()), 7);
    assert!(matches!(orch.step(Event::Proceed), Action::StartDaemon(_)));
    assert!(matches!(orch.step(Event::DaemonGone), Action::Halt));
    assert_eq!(orch.state, RunState::Failed(RunError::LaunchFailure));
    assert!(orch.done());
}

#[test]
fn full_run_passes_through_every_state_and_terminates() {
    let services = vec![HiddenServiceConfig { port: 6667, path: None, ssl_port: None }];
    let mut orch = Orchestrator::new(config(services), 31337);
    assert_eq!(orch.state, RunState::Launching);

    match orch.step(Event::Proceed) {
        Action::StartDaemon(args) => assert_eq!(
            args,
            vec!["ControlPort", "9051", "__OwningControllerProcess", "31337", "SocksPort", "9050"],
        ),
        _ => panic!("launching must start the daemon"),
    }

    assert!(matches!(orch.step(Event::DaemonReady), Action::OpenControl(9051)));
    assert_eq!(orch.state, RunState::Connecting);

    match orch.step(Event::ControlOpened) {
        Action::SendCommand(c) => assert_eq!(c, "AUTHENTICATE\r\n"),
        _ => panic!("an open control connection must be authenticated"),
    }
    assert_eq!(orch.state, RunState::Authenticating);

    assert!(matches!(orch.step(Event::Response(b"250 OK\r\n".to_vec())), Action::Continue));
    assert_eq!(orch.state, RunState::Provisioning);

    match orch.step(Event::Proceed) {
        Action::SendCommand(c) => assert_eq!(
            c,
            "SETCONF HiddenServiceDir=\".hidden-service\" HiddenServicePort=\"80 127.0.0.1:6667\"\r\n",
        ),
        _ => panic!("one service is configured, so one request must go out"),
    }

    assert!(matches!(orch.step(Event::Response(b"250 OK\r\n".to_vec())), Action::Continue));
    assert_eq!(orch.provisioned, 1);

    match orch.step(Event::Proceed) {
        Action::StartCommand(c) => assert_eq!(c, "echo hi"),
        _ => panic!("after provisioning, the command must start"),
    }
    assert_eq!(orch.state, RunState::RunningCommand);

    assert!(matches!(orch.step(Event::CommandDone), Action::StopDaemon));
    assert_eq!(orch.state, RunState::ShuttingDown);

    assert!(matches!(orch.step(Event::DaemonStopped), Action::Halt));
    assert_eq!(orch.state, RunState::Terminated);
    assert!(orch.done());
}

#[test]
fn rejected_provisioning_fails_and_never_starts_the_command() {
    let services = vec![HiddenServiceConfig { port: 6667, path: None, ssl_port: None }];
    let mut orch = Orchestrator::new(config(services), 7);
    assert!(matches!(orch.step(Event::Proceed), Action::StartDaemon(_)));
    assert!(matches!(orch.step(Event::DaemonReady), Action::OpenControl(_)));
    assert!(matches!(orch.step(Event::ControlOpened), Action::SendCommand(_)));
    assert!(matches!(orch.step(Event::Response(b"250 OK\r\n".to_vec())), Action::Continue));
    assert!(matches!(orch.step(Event::Proceed), Action::SendCommand(_)));

    assert!(matches!(orch.step(Event::Response(b"510 Bad\r".to_vec())), Action::StopDaemon));
    assert_eq!(orch.state, RunState::Failed(RunError::ProvisioningFailure));
    assert!(orch.done());

    assert!(matches!(orch.step(Event::DaemonStopped), Action::Halt));
    assert_eq!(orch.state, RunState::Failed(RunError::ProvisioningFailure));
}

#[test]
fn rejected_authentication_fails_the_run() {
    let mut orch = Orchestrator::new(config(Vec::new()), 7);
    assert!(matches!(orch.step(Event::Proceed), Action::StartDaemon(_)));
    assert!(matches!(orch.step(Event::DaemonReady), Action::OpenControl(_)));
    assert!(matches!(orch.step(Event::ControlOpened), Action::SendCommand(_)));
    assert!(matches!(orch.step(Event::Response(b"515 Bad\r".to_vec())), Action::StopDaemon));
    assert_eq!(orch.state, RunState::Failed(RunError::AuthenticationFailure));
}

#[test]
fn unreachable_control_port_fails_the_run() {
    let mut orch = Orchestrator::new(config(Vec::new()), 7);
    assert!(matches!(orch.step(Event::Proceed), Action::StartDaemon(_)));
    assert!(matches!(orch.step(Event::DaemonReady), Action::OpenControl(_)));
    assert!(matches!(orch.step(Event::ControlRefused), Action::StopDaemon));
    assert_eq!(orch.state, RunState::Failed(RunError::ConnectionFailure));
}

#[test]
fn command_that_cannot_start_fails_the_run() {
    let mut orch = Orchestrator::new(config(Vec::new()), 7);
    assert!(matches!(orch.step(Event::Proceed), Action::StartDaemon(_)));
    assert!(matches!(orch.step(Event::DaemonReady), Action::OpenControl(_)));
    assert!(matches!(orch.step(Event::ControlOpened), Action::SendCommand(_)));
    assert!(matches!(orch.step(Event::Response(b"250 OK\r\n".to_vec())), Action::Continue));
    assert!(matches!(orch.step(Event::Proceed), Action::StartCommand(_)));
    assert!(matches!(orch.step(Event::CommandNotStarted), Action::StopDaemon));
    assert_eq!(orch.state, RunState::Failed(RunError::CommandSpawnFailure));
}

#[test]
fn failed_daemon_shutdown_is_reported() {
    let mut orch = Orchestrator::new(config(Vec::new()), 7);
    assert!(matches!(orch.step(Event::Proceed), Action::StartDaemon(_)));
    assert!(matches!(orch.step(Event::DaemonReady), Action::OpenControl(_)));
    assert!(matches!(orch.step(Event::ControlOpened), Action::SendCommand(_)));
    assert!(matches!(orch.step(Event::Response(b"250 OK\r\n".to_vec())), Action::Continue));
    assert!(matches!(orch.step(Event::Proceed), Action::StartCommand(_)));
    assert!(matches!(orch.step(Event::CommandDone), Action::StopDaemon));
    assert!(matches!(orch.step(Event::DaemonNotStopped), Action::Halt));
    assert_eq!(orch.state, RunState::Failed(RunError::ShutdownFailure));
}

#[test]
fn unexpected_events_change_nothing_and_halt() {
    let mut orch = Orchestrator::new(config(Vec::new()), 7);
    assert!(matches!(orch.step(Event::CommandDone), Action::Halt));
    assert_eq!(orch.state, RunState::Launching);
    assert!(matches!(orch.step(Event::DaemonStopped), Action::Halt));
    assert_eq!(orch.state, RunState::Launching);
}

#[test]
fn authenticate_command_carries_the_configured_password() {
    let mut cfg = config(Vec::new());
    cfg.tor_password = Some(String::from("SECRET-REDACTED"));
    let mut orch = Orchestrator::new(cfg, 7);
    assert!(matches!(orch.step(Event::Proceed), Action::StartDaemon(_)));
    assert!(matches!(orch.step(Event::DaemonReady), Action::OpenControl(_)));
    match orch.step(Event::ControlOpened) {
        Action::SendCommand(c) => assert_eq!(c, "AUTHENTICATE \"SECRET-REDACTED\"\r\n"),
        _ => panic!("an open control connection must be authenticated"),
    }
}
