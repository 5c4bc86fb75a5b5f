use minecli::config::{ServerConfig, ServerEntry};
use minecli::session::{open_failure_message, Action, Identity, OpenFailure, Session, SessionEvent};

type Event = SessionEvent<&'static str>;

fn stored(address: &str, tag: &str) -> ServerConfig {
    ServerConfig {
        servers: vec![ServerEntry {
            address: address.to_string(),
            client_uuid: format!("client-{tag}"),
            minecraft_uuid: format!("minecraft-{tag}"),
            pinned_cert: Some(format!("cert-{tag}")),
            supports_components: false,
        }],
    }
}

fn identity(tag: &str) -> Identity {
    Identity {
        client_uuid: format!("client-{tag}"),
        minecraft_uuid: format!("minecraft-{tag}"),
    }
}

fn link(address: &str, code: &str) -> Session {
    match Session::start_link::<&str>(address, code, false) {
        Ok((session, Action::LoadConfig)) => session,
        other => panic!("{:?}", other),
    }
}

fn connect(address: &str) -> Session {
    match Session::start_connect::<&str>(address, true) {
        Ok((session, Action::LoadConfig)) => session,
        other => panic!("{:?}", other),
    }
}

/// Links with a server and returns the configuration that is written.
fn saved_by_link(address: &str, certificate: Option<String>, later: ServerConfig) -> ServerConfig {
    let mut session = link(address, "ABC123");
    session.advance(Event::ConfigLoaded(ServerConfig::new()));
    session.advance(Event::Opened);
    session.advance(Event::Authenticated(identity("new")));
    session.advance(Event::Announced);
    match session.advance(Event::AuthOk { certificate }) {
        Some(Action::LoadConfig) => {}
        other => panic!("{:?}", other),
    }
    let saved = match session.advance(Event::ConfigLoaded(later)) {
        Some(Action::SaveConfig(config)) => config,
        other => panic!("{:?}", other),
    };
    assert!(matches!(session.advance(Event::ConfigSaved), Some(Action::Finish)));
    saved
}

#[test]
fn blank_code_is_refused_before_the_address() {
    for code in ["", " ", "\t\n", "\u{3000}"] {
        let refused = Session::start_link::<&str>("not an address", code, false);
        assert_eq!(refused.unwrap_err(), "Link code cannot be empty");
    }
}

#[test]
fn bad_address_is_refused() {
    let no_port = "Invalid server address format. Expected format: host:port";
    let bad_port = "Invalid port number. Must be between 1-65535";
    assert_eq!(Session::start_link::<&str>("host", "ABC", false).unwrap_err(), no_port);
    assert_eq!(Session::start_link::<&str>("host:x", "ABC", false).unwrap_err(), bad_port);
    assert_eq!(Session::start_link::<&str>("host:0", "ABC", false).unwrap_err(), bad_port);
    assert_eq!(Session::start_connect::<&str>("host:0", false).unwrap_err(), bad_port);
    assert_eq!(Session::start_connect::<&str>("host", false).unwrap_err(), no_port);
    assert_eq!(Session::start_connect::<&str>("host:70000", false).unwrap_err(), bad_port);
}

#[test]
fn link_shows_the_code_and_no_identity() {
    let mut session = link("mc.example.org:7632", " ABC ");
    match session.advance(Event::ConfigLoaded(ServerConfig::new())) {
        Some(Action::Open { host, address, pinned_cert }) => {
            assert_eq!(host, "mc.example.org");
            assert_eq!(address, "mc.example.org:7632");
            assert_eq!(pinned_cert, None);
        }
        other => panic!("{:?}", other),
    }
    match session.advance(Event::Opened) {
        Some(Action::Authenticate(login)) => {
            assert_eq!(login.client_uuid, None);
            assert_eq!(login.link_code, " ABC ");
        }
        other => panic!("{:?}", other),
    }
    match session.advance(Event::Authenticated(identity("x"))) {
        Some(Action::Announce(c)) => {
            assert_eq!(c.supported_formats, vec!["components", "commonmark"]);
            assert_eq!(c.preferred_format, Some("commonmark".to_string()));
        }
        other => panic!("{:?}", other),
    }
    assert!(matches!(session.advance(Event::Announced), Some(Action::AwaitAuthOk)));
}

#[test]
fn link_opens_with_the_pinned_certificate() {
    let mut session = link("h:1", "ABC");
    match session.advance(Event::ConfigLoaded(stored("h:1", "old"))) {
        Some(Action::Open { pinned_cert, .. }) => {
            assert_eq!(pinned_cert, Some("cert-old".to_string()))
        }
        other => panic!("{:?}", other),
    }
}

#[test]
fn link_stores_its_entry_in_the_configuration_as_it_then_is() {
    let saved = saved_by_link("h:1", Some("shown".to_string()), stored("other:2", "other"));
    assert_eq!(saved.servers.len(), 2);
    assert_eq!(saved.servers[0].address, "other:2");
    let entry = &saved.servers[1];
    assert_eq!(entry.address, "h:1");
    assert_eq!(entry.client_uuid, "client-new");
    assert_eq!(entry.minecraft_uuid, "minecraft-new");
    assert_eq!(entry.pinned_cert, Some("shown".to_string()));
    assert!(entry.supports_components);
}

#[test]
fn connect_uses_what_link_stored() {
    let saved = saved_by_link("h:1", Some("shown".to_string()), stored("h:1", "old"));
    let mut session = connect("h:1");
    match session.advance(Event::ConfigLoaded(saved)) {
        Some(Action::Open { host, address, pinned_cert }) => {
            assert_eq!(host, "h");
            assert_eq!(address, "h:1");
            assert_eq!(pinned_cert, Some("shown".to_string()));
        }
        other => panic!("{:?}", other),
    }
    match session.advance(Event::Opened) {
        Some(Action::Authenticate(login)) => {
            assert_eq!(login.client_uuid, Some("client-new".to_string()));
            assert_eq!(login.link_code, "");
        }
        other => panic!("{:?}", other),
    }
}

#[test]
fn connect_runs_to_the_conversation() {
    let mut session = connect("h:1");
    session.advance(Event::ConfigLoaded(stored("h:1", "old")));
    session.advance(Event::Opened);
    match session.advance(Event::Authenticated(identity("ignored"))) {
        Some(Action::Announce(c)) => {
            assert_eq!(c.preferred_format, Some("components".to_string()))
        }
        other => panic!("{:?}", other),
    }
    session.advance(Event::Announced);
    match session.advance(Event::AuthOk { certificate: Some("ignored".to_string()) }) {
        Some(Action::SaveConfig(config)) => {
            assert_eq!(config.servers.len(), 1);
            assert_eq!(config.servers[0].client_uuid, "client-old");
            assert_eq!(config.servers[0].pinned_cert, Some("cert-old".to_string()));
            assert!(config.servers[0].supports_components);
        }
        other => panic!("{:?}", other),
    }
    assert!(matches!(session.advance(Event::ConfigSaved), Some(Action::StartRepl)));
}

#[test]
fn unlinked_client_is_refused() {
    let mut session = connect("h:1");
    match session.advance(Event::ConfigLoaded(stored("h:2", "other"))) {
        Some(Action::Fail(message)) => {
            assert_eq!(message, "Server not linked. Use --link to link first.")
        }
        other => panic!("{:?}", other),
    }
    assert!(session.advance(Event::Opened).is_none());
}

#[test]
fn certificate_failure_is_told() {
    let failure = OpenFailure {
        config_message: Some("pinned certificate mismatch".to_string()),
        description: "Config error: pinned certificate mismatch".to_string(),
    };
    assert_eq!(
        open_failure_message(&failure),
        "Certificate verification failed: pinned certificate mismatch. This may indicate a MITM attack or server certificate change."
    );
}

#[test]
fn other_open_failures_are_told() {
    let config = OpenFailure {
        config_message: Some("bad host name".to_string()),
        description: "Config error: bad host name".to_string(),
    };
    assert_eq!(open_failure_message(&config), "TLS connection failed: Config error: bad host name");
    let io = OpenFailure {
        config_message: None,
        description: "I/O error: certificate".to_string(),
    };
    assert_eq!(open_failure_message(&io), "TLS connection failed: I/O error: certificate");
}

#[test]
fn open_failure_ends_the_session() {
    let mut session = link("h:1", "ABC");
    session.advance(Event::ConfigLoaded(ServerConfig::new()));
    let failure = OpenFailure { config_message: None, description: "refused".to_string() };
    match session.advance(Event::OpenFailed(failure)) {
        Some(Action::Fail(message)) => assert_eq!(message, "TLS connection failed: refused"),
        other => panic!("{:?}", other),
    }
    assert!(session.advance(Event::Failed("late")).is_none());
}

#[test]
fn failure_ends_the_session_in_every_phase() {
    for steps in 0..6 {
        let mut session = link("h:1", "ABC");
        let events = vec![
            Event::ConfigLoaded(ServerConfig::new()),
            Event::Opened,
            Event::Authenticated(identity("x")),
            Event::Announced,
            Event::AuthOk { certificate: None },
            Event::ConfigLoaded(ServerConfig::new()),
        ];
        for event in events.into_iter().take(steps) {
            assert!(session.advance(event).is_some());
        }
        match session.advance(Event::Failed("reset")) {
            Some(Action::Abort(error)) => assert_eq!(error, "reset"),
            other => panic!("{:?}", other),
        }
        assert!(session.advance(Event::Failed("late")).is_none());
        assert!(session.advance(Event::ConfigSaved).is_none());
    }
}

#[test]
fn events_out_of_turn_change_nothing() {
    let mut session = link("h:1", "ABC");
    assert!(session.advance(Event::Opened).is_none());
    assert!(session.advance(Event::ConfigSaved).is_none());
    assert!(session.advance(Event::AuthOk { certificate: None }).is_none());
    assert!(matches!(
        session.advance(Event::ConfigLoaded(ServerConfig::new())),
        Some(Action::Open { .. })
    ));
    assert!(session.advance(Event::ConfigLoaded(ServerConfig::new())).is_none());
    assert!(matches!(session.advance(Event::Opened), Some(Action::Authenticate(_))));
}
