use code_open::alias::AliasTable;
use code_open::client::{in_ssh_session, send_request_to_server, SSH_SESSION_VARIABLE};
use code_open::codec::encode;
use code_open::config::{CodeOpenConfig, DEFAULT_IP, DEFAULT_PORT};
use code_open::editor::open_vscode_command;
use code_open::error::{ConfigError, DecodeError, Failure, Reach};
use code_open::request::{CodeOpenInfo, CodeOpenRequest};
use code_open::server::{dispatch, server_start, Server, ServerAction, ServerEvent, ServerState};

fn open(host: &str, path: &str) -> CodeOpenRequest {
    CodeOpenRequest::Open(CodeOpenInfo::new(host.to_owned(), path.to_owned()))
}

fn table_with_alias() -> AliasTable {
    let mut table = AliasTable::new();
    table.insert("boxA".to_owned(), "my-alias".to_owned());
    table
}

fn listening(table: AliasTable) -> Server {
    let (mut server, _) = server_start(&CodeOpenConfig::default(), table, false);
    assert!(matches!(server.step(ServerEvent::Bound), ServerAction::Accept));
    server
}

fn spawn_arguments(action: ServerAction) -> (String, Vec<String>) {
    match action {
        ServerAction::Spawn(command) => (command.program, command.arguments),
        other => panic!("expected a spawn, got {:?}", other),
    }
}

#[test]
fn config_defaults() {
    let config = CodeOpenConfig::default();
    assert_eq!(config.ip, "0.0.0.0");
    assert_eq!(config.port, 3000);
    assert_eq!(DEFAULT_IP, "0.0.0.0");
    assert_eq!(DEFAULT_PORT, 3000);
}

#[test]
fn config_setters_change_one_field_each() {
    let mut config = CodeOpenConfig::default();
    config.set_ip("127.0.0.1".to_owned());
    assert_eq!(config.ip, "127.0.0.1");
    assert_eq!(config.port, 3000);
    config.set_port(65535);
    assert_eq!(config.ip, "127.0.0.1");
    assert_eq!(config.port, 65535);
}

#[test]
fn editor_command_for_a_remote_directory() {
    let command = open_vscode_command(
        CodeOpenInfo::new("my-alias".to_owned(), "/home/u/proj".to_owned()),
        false,
    );
    assert_eq!(command.program, "code");
    assert_eq!(command.arguments, vec!["--remote", "ssh-remote+my-alias", "/home/u/proj"]);
}

#[test]
fn editor_command_on_windows() {
    let command = open_vscode_command(CodeOpenInfo::new("h".to_owned(), "/p".to_owned()), true);
    assert_eq!(command.program, "code.cmd");
    assert_eq!(command.arguments, vec!["--remote", "ssh-remote+h", "/p"]);
}

#[test]
fn dispatch_resolves_the_host_before_the_editor_is_named() {
    let command = dispatch(encode(&open("boxA", "/home/u/proj")), &table_with_alias(), false).unwrap();
    assert_eq!(command.program, "code");
    assert_eq!(command.arguments, vec!["--remote", "ssh-remote+my-alias", "/home/u/proj"]);
}

#[test]
fn dispatch_without_alias_keeps_the_host() {
    let command = dispatch(encode(&open("boxB", "/srv")), &table_with_alias(), false).unwrap();
    assert_eq!(command.arguments, vec!["--remote", "ssh-remote+boxB", "/srv"]);
}

#[test]
fn dispatch_refuses_a_truncated_frame() {
    let mut frame = encode(&open("boxA", "/home/u/proj"));
    frame.truncate(frame.len() - 3);
    assert_eq!(
        dispatch(frame, &table_with_alias(), false).err(),
        Some(DecodeError::Truncated)
    );
}

#[test]
fn server_starts_by_binding_the_configured_address() {
    let mut config = CodeOpenConfig::default();
    config.set_ip("127.0.0.1".to_owned());
    config.set_port(4000);
    let (server, action) = server_start(&config, AliasTable::new(), false);
    assert_eq!(server.current_state(), ServerState::Starting);
    match action {
        ServerAction::Bind { ip, port } => {
            assert_eq!(ip, "127.0.0.1");
            assert_eq!(port, 4000);
        }
        other => panic!("expected a bind, got {:?}", other),
    }
}

#[test]
fn bind_failure_ends_the_server() {
    let (mut server, _) = server_start(&CodeOpenConfig::default(), AliasTable::new(), false);
    assert!(matches!(
        server.step(ServerEvent::BindFailed),
        ServerAction::Stop(Failure::Bind)
    ));
    assert_eq!(server.current_state(), ServerState::Stopped);
}

#[test]
fn one_connection_goes_through_all_states() {
    let mut server = listening(table_with_alias());
    assert_eq!(server.current_state(), ServerState::Listening);
    assert!(matches!(server.step(ServerEvent::Accepted), ServerAction::Receive));
    assert_eq!(server.current_state(), ServerState::Decoding);
    let action = server.step(ServerEvent::Received(encode(&open("boxA", "/home/u/proj"))));
    assert_eq!(server.current_state(), ServerState::Dispatching);
    let (program, arguments) = spawn_arguments(action);
    assert_eq!(program, "code");
    assert_eq!(arguments, vec!["--remote", "ssh-remote+my-alias", "/home/u/proj"]);
    assert!(matches!(server.step(ServerEvent::Spawned), ServerAction::Accept));
    assert_eq!(server.current_state(), ServerState::Listening);
}

#[test]
fn second_connection_waits_for_the_first_dispatch() {
    let mut server = listening(table_with_alias());
    let mut log: Vec<&str> = Vec::new();
    for request in [open("boxA", "/first"), open("boxB", "/second")] {
        assert!(matches!(server.step(ServerEvent::Accepted), ServerAction::Receive));
        log.push("decode begins");
        let action = server.step(ServerEvent::Received(encode(&request)));
        assert!(matches!(action, ServerAction::Spawn(_)));
        log.push("dispatch begins");
        assert!(matches!(server.step(ServerEvent::Spawned), ServerAction::Accept));
        log.push("dispatch ends");
    }
    assert_eq!(
        log,
        vec![
            "decode begins",
            "dispatch begins",
            "dispatch ends",
            "decode begins",
            "dispatch begins",
            "dispatch ends"
        ]
    );
}

#[test]
fn connection_that_arrives_during_a_dispatch_is_not_taken() {
    let mut server = listening(AliasTable::new());
    server.step(ServerEvent::Accepted);
    server.step(ServerEvent::Received(encode(&open("h", "/p"))));
    assert_eq!(server.current_state(), ServerState::Dispatching);
    assert!(matches!(
        server.step(ServerEvent::Accepted),
        ServerAction::Stop(Failure::UnexpectedEvent)
    ));
    assert_eq!(server.current_state(), ServerState::Stopped);
}

#[test]
fn connection_that_arrives_during_decoding_is_not_taken() {
    let mut server = listening(AliasTable::new());
    server.step(ServerEvent::Accepted);
    assert!(matches!(
        server.step(ServerEvent::Accepted),
        ServerAction::Stop(Failure::UnexpectedEvent)
    ));
    assert_eq!(server.current_state(), ServerState::Stopped);
}

#[test]
fn spawn_failure_costs_only_the_request() {
    let mut server = listening(AliasTable::new());
    server.step(ServerEvent::Accepted);
    server.step(ServerEvent::Received(encode(&open("h", "/p"))));
    assert!(matches!(server.step(ServerEvent::SpawnFailed), ServerAction::Accept));
    assert_eq!(server.current_state(), ServerState::Listening);
    assert!(matches!(server.step(ServerEvent::Accepted), ServerAction::Receive));
}

#[test]
fn malformed_frame_ends_the_server() {
    let mut server = listening(AliasTable::new());
    server.step(ServerEvent::Accepted);
    let mut frame = encode(&open("h", "/p"));
    frame.pop();
    assert!(matches!(
        server.step(ServerEvent::Received(frame)),
        ServerAction::Stop(Failure::Decode(DecodeError::Truncated))
    ));
    assert_eq!(server.current_state(), ServerState::Stopped);
}

#[test]
fn unknown_request_ends_the_server() {
    let mut server = listening(AliasTable::new());
    server.step(ServerEvent::Accepted);
    let frame = vec![4u8, 0, 0, 0, 0, 0, 0, 0, 9, 0, 0, 0];
    assert!(matches!(
        server.step(ServerEvent::Received(frame)),
        ServerAction::Stop(Failure::Decode(DecodeError::UnknownTag))
    ));
    assert_eq!(server.current_state(), ServerState::Stopped);
}

#[test]
fn accept_failure_ends_the_server() {
    let mut server = listening(AliasTable::new());
    assert!(matches!(
        server.step(ServerEvent::AcceptFailed),
        ServerAction::Stop(Failure::Accept)
    ));
    assert_eq!(server.current_state(), ServerState::Stopped);
}

#[test]
fn stopped_server_stays_stopped() {
    let mut server = listening(AliasTable::new());
    server.step(ServerEvent::AcceptFailed);
    for event in [ServerEvent::Bound, ServerEvent::Accepted, ServerEvent::Spawned] {
        assert!(matches!(server.step(event), ServerAction::Stop(Failure::UnexpectedEvent)));
        assert_eq!(server.current_state(), ServerState::Stopped);
    }
}

#[test]
fn events_before_the_listener_is_bound_end_the_server() {
    let (mut server, _) = server_start(&CodeOpenConfig::default(), AliasTable::new(), false);
    assert!(matches!(
        server.step(ServerEvent::Accepted),
        ServerAction::Stop(Failure::UnexpectedEvent)
    ));
    assert_eq!(server.current_state(), ServerState::Stopped);
}

#[test]
fn only_a_spawn_failure_spares_the_process() {
    assert_eq!(Failure::Spawn.reach(), Reach::Request);
    for failure in [
        Failure::Config(ConfigError::MalformedPort),
        Failure::Config(ConfigError::TableUnreadable),
        Failure::Config(ConfigError::TableUnwritable),
        Failure::Config(ConfigError::DirectoryUncreatable),
        Failure::Bind,
        Failure::Connect,
        Failure::Accept,
        Failure::Decode(DecodeError::Truncated),
        Failure::Decode(DecodeError::UnknownTag),
        Failure::Decode(DecodeError::InvalidText),
        Failure::Decode(DecodeError::TrailingBytes),
        Failure::UnexpectedEvent,
    ] {
        assert_eq!(failure.reach(), Reach::Process);
    }
}

#[test]
fn ssh_session_is_known_by_its_variable() {
    assert_eq!(SSH_SESSION_VARIABLE, "SSH_CONNECTION");
    let names = |list: &[&str]| list.iter().map(|name| name.to_string()).collect::<Vec<String>>();
    assert!(in_ssh_session(&names(&["PATH", "SSH_CONNECTION", "HOME"])));
    assert!(in_ssh_session(&names(&["SSH_CONNECTION"])));
    assert!(!in_ssh_session(&names(&["PATH", "HOME"])));
    assert!(!in_ssh_session(&names(&["SSH_CLIENT", "ssh_connection", "SSH_CONNECTION2"])));
    assert!(!in_ssh_session(&names(&[])));
}

#[test]
fn delivery_holds_the_address_and_one_frame() {
    let mut config = CodeOpenConfig::default();
    config.set_ip("10.0.0.2".to_owned());
    config.set_port(3100);
    let request = open("boxA", "/home/u/proj");
    let delivery = send_request_to_server(&config, &request);
    assert_eq!(delivery.ip, "10.0.0.2");
    assert_eq!(delivery.port, 3100);
    assert_eq!(delivery.frame, encode(&request));
    let command = dispatch(delivery.frame, &table_with_alias(), false).unwrap();
    assert_eq!(command.arguments, vec!["--remote", "ssh-remote+my-alias", "/home/u/proj"]);
}
