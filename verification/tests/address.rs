use minecli::address::{parse_server_addr, server_address, DEFAULT_PORT, INVALID_PORT, MISSING_PORT};

#[test]
fn default_port() {
    assert_eq!(DEFAULT_PORT, 7632);
}

#[test]
fn address_is_host_colon_port() {
    assert_eq!(server_address("mc.example.org", 7632), "mc.example.org:7632");
    assert_eq!(server_address("", 0), ":0");
}

#[test]
fn host_is_what_stands_before_the_last_colon() {
    assert_eq!(parse_server_addr("localhost:7632"), Ok("localhost"));
    assert_eq!(parse_server_addr("::1:80"), Ok("::1"));
    assert_eq!(parse_server_addr(":80"), Ok(""));
    assert_eq!(parse_server_addr("hôte:1"), Ok("hôte"));
}

#[test]
fn port_may_carry_a_plus_sign_and_leading_zeros() {
    assert_eq!(parse_server_addr("h:+80"), Ok("h"));
    assert_eq!(parse_server_addr("h:0080"), Ok("h"));
}

#[test]
fn port_runs_from_one_to_the_largest() {
    assert_eq!(parse_server_addr("h:1"), Ok("h"));
    assert_eq!(parse_server_addr("h:65535"), Ok("h"));
}

#[test]
fn port_zero_is_refused() {
    for addr in ["localhost:0", "h:+0", "h:000", ":0"] {
        assert_eq!(parse_server_addr(addr), Err(INVALID_PORT.to_string()), "{:?}", addr);
    }
    assert_eq!(parse_server_addr(&server_address("h", 0)), Err(INVALID_PORT.to_string()));
}

#[test]
fn missing_port_is_refused() {
    let message = "Invalid server address format. Expected format: host:port";
    assert_eq!(MISSING_PORT, message);
    assert_eq!(parse_server_addr("localhost"), Err(message.to_string()));
    assert_eq!(parse_server_addr(""), Err(message.to_string()));
}

#[test]
fn invalid_port_is_refused() {
    let message = "Invalid port number. Must be between 1-65535";
    assert_eq!(INVALID_PORT, message);
    for addr in ["h:", "h:x", "h:65536", "h:-1", "h: 80", "h:80 ", "a:1:b"] {
        assert_eq!(parse_server_addr(addr), Err(message.to_string()), "{:?}", addr);
    }
}

#[test]
fn address_gives_host_back() {
    for host in ["localhost", "", "::1", "a:b:c", "[::1]", "1:2", "hôte"] {
        for port in [1u16, 80, 7632, 65535] {
            let addr = server_address(host, port);
            assert_eq!(parse_server_addr(&addr), Ok(host));
        }
    }
}
