use minecli::config::{ServerConfig, ServerEntry};

fn entry(address: &str, tag: &str) -> ServerEntry {
    ServerEntry {
        address: address.to_string(),
        client_uuid: format!("client-{tag}"),
        minecraft_uuid: format!("minecraft-{tag}"),
        pinned_cert: Some(format!("cert-{tag}")),
        supports_components: false,
    }
}

fn config(entries: Vec<ServerEntry>) -> ServerConfig {
    ServerConfig { servers: entries }
}

fn addresses(config: &ServerConfig) -> Vec<String> {
    config.servers.iter().map(|e| e.address.clone()).collect()
}

#[test]
fn new_configuration_is_empty() {
    let c = ServerConfig::new();
    assert!(c.servers.is_empty());
    assert!(c.find("a:1").is_none());
    assert_eq!(c.pinned_cert("a:1"), None);
}

#[test]
fn first_entry_is_found() {
    let c = config(vec![entry("a:1", "one"), entry("b:2", "two"), entry("b:2", "three")]);
    assert_eq!(c.find("b:2").unwrap().client_uuid, "client-two");
    assert_eq!(c.pinned_cert("b:2"), Some("cert-two".to_string()));
    assert!(c.find("b:22").is_none());
    assert!(c.find("").is_none());
}

#[test]
fn pinned_certificate_may_be_missing() {
    let mut e = entry("a:1", "one");
    e.pinned_cert = None;
    assert_eq!(config(vec![e]).pinned_cert("a:1"), None);
}

#[test]
fn link_replaces_every_entry_for_the_address() {
    let mut c = config(vec![
        entry("a:1", "old1"),
        entry("b:2", "b"),
        entry("a:1", "old2"),
        entry("c:3", "c"),
        entry("a:1", "old3"),
    ]);
    c.record_link(entry("a:1", "new"));
    assert_eq!(addresses(&c), vec!["b:2", "c:3", "a:1"]);
    assert_eq!(c.servers[2].client_uuid, "client-new");
    assert_eq!(c.servers[2].minecraft_uuid, "minecraft-new");
}

#[test]
fn link_into_empty_configuration() {
    let mut c = ServerConfig::new();
    c.record_link(entry("a:1", "new"));
    assert_eq!(addresses(&c), vec!["a:1"]);
}

#[test]
fn what_was_linked_is_found() {
    let mut c = config(vec![entry("a:1", "old"), entry("b:2", "b")]);
    c.record_link(entry("a:1", "new"));
    assert_eq!(c.find("a:1").unwrap().client_uuid, "client-new");
    assert_eq!(c.pinned_cert("a:1"), Some("cert-new".to_string()));
}

#[test]
fn link_keeps_other_servers() {
    let mut c = config(vec![entry("b:2", "first"), entry("a:1", "a"), entry("b:2", "second")]);
    c.record_link(entry("a:1", "new"));
    assert_eq!(c.find("b:2").unwrap().client_uuid, "client-first");
    assert_eq!(c.servers.len(), 3);
}

#[test]
fn linking_again_replaces_the_first_link() {
    let mut once = config(vec![entry("b:2", "b"), entry("a:1", "a")]);
    let mut twice = config(vec![entry("b:2", "b"), entry("a:1", "a")]);
    once.record_link(entry("a:1", "second"));
    twice.record_link(entry("a:1", "first"));
    twice.record_link(entry("a:1", "second"));
    assert_eq!(format!("{:?}", once), format!("{:?}", twice));
}

#[test]
fn linking_keeps_one_entry_for_each_address() {
    let mut c = ServerConfig::new();
    for (address, servers) in [("a:1", 1), ("b:2", 2), ("a:1", 2), ("c:3", 3), ("b:2", 3)] {
        c.record_link(entry(address, "x"));
        assert_eq!(c.servers.len(), servers);
    }
    assert_eq!(addresses(&c), vec!["a:1", "c:3", "b:2"]);
    assert!(c.note_components("c:3"));
    assert_eq!(addresses(&c), vec!["a:1", "c:3", "b:2"]);
}

#[test]
fn components_are_noted_in_the_first_entry_only() {
    let mut c = config(vec![entry("b:2", "b"), entry("a:1", "one"), entry("a:1", "two")]);
    assert!(c.note_components("a:1"));
    let flags: Vec<bool> = c.servers.iter().map(|e| e.supports_components).collect();
    assert_eq!(flags, vec![false, true, false]);
    assert_eq!(addresses(&c), vec!["b:2", "a:1", "a:1"]);
    assert_eq!(c.find("a:1").unwrap().client_uuid, "client-one");
    assert_eq!(c.pinned_cert("a:1"), Some("cert-one".to_string()));
}

#[test]
fn components_of_an_unknown_server_are_not_noted() {
    let mut c = config(vec![entry("b:2", "b")]);
    assert!(!c.note_components("a:1"));
    assert!(!c.servers[0].supports_components);
}

#[test]
fn copy_of_an_entry_is_equal() {
    let e = entry("a:1", "one");
    assert_eq!(format!("{:?}", e.clone()), format!("{:?}", e));
}
