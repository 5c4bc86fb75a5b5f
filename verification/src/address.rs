//! Server addresses, written `host:port`.

use vstd::prelude::*;

use crate::text;

verus! {

/// The port of a MineChat server that is not told otherwise.
pub const DEFAULT_PORT: u16 = 7632;

/// Said of an address in which no port is given.
pub const MISSING_PORT: &'static str = "Invalid server address format. Expected format: host:port";

/// Said of an address whose port is not a number from 1 to 65535.
pub const INVALID_PORT: &'static str = "Invalid port number. Must be between 1-65535";

/// Whether a text denotes a port: a 16-bit number other than zero.
pub open spec fn is_port(s: Seq<char>) -> bool {
    match text::u16_value(s) {
        Some(port) => port >= 1,
        None => false,
    }
}

/// The address of a host and a port.
pub open spec fn address_of(host: Seq<char>, port: u16) -> Seq<char> {
    host.push(':') + text::decimal(port as nat)
}

/// The host of an address: what stands before the last colon, provided that a
/// port follows it; otherwise the text that says what is wrong.
pub open spec fn host_of(addr: Seq<char>) -> Result<Seq<char>, Seq<char>> {
    match addr.index_of_last(':') {
        None => Err(MISSING_PORT@),
        Some(i) => if is_port(addr.skip(i + 1)) {
            Ok(addr.take(i))
        } else {
            Err(INVALID_PORT@)
        },
    }
}

/// The position of the last colon is the one colon after which no other comes.
proof fn lemma_last_colon(s: Seq<char>, i: int)
    requires
        0 <= i < s.len(),
        s[i] == ':',
        forall|j: int| i < j < s.len() ==> s[j] != ':',
    ensures
        s.index_of_last(':') == Some(i),
{
    s.index_of_last_ensures(':');
    assert(s.contains(s[i]));
}

/// The accepted addresses are a host, a colon and a number from 1 to 65535,
/// whatever the host holds.
pub proof fn law_accepted_addresses(addr: Seq<char>, host: Seq<char>)
    ensures
        host_of(addr) == Ok::<Seq<char>, Seq<char>>(host) <==> exists|port: Seq<char>|
            #[trigger] is_port(port) && addr == host.push(':') + port,
{
    addr.index_of_last_ensures(':');
    if host_of(addr) == Ok::<Seq<char>, Seq<char>>(host) {
        let i = addr.index_of_last(':')->0;
        let port = addr.skip(i + 1);
        assert(is_port(port));
        assert(addr =~= host.push(':') + port);
    }
    if exists|port: Seq<char>|
        #[trigger] is_port(port) && addr == host.push(':') + port {
        let port = choose|port: Seq<char>|
            #[trigger] is_port(port) && addr == host.push(':') + port;
        let i = host.len() as int;
        assert forall|j: int| i < j < addr.len() implies addr[j] != ':' by {
            assert(addr[j] == port[j - i - 1]);
            let digits = text::without_plus(port);
            if port[0] == '+' {
                if j - i - 1 > 0 {
                    assert(digits[j - i - 2] == port[j - i - 1]);
                }
            } else {
                assert(digits[j - i - 1] == port[j - i - 1]);
            }
        }
        lemma_last_colon(addr, i);
        assert(addr.skip(i + 1) =~= port);
        assert(addr.take(i) =~= host);
    }
}

/// An address that is made of a host and a port from 1 on is accepted and gives
/// that host back, whatever the host holds.
pub proof fn law_address_gives_host_back(host: Seq<char>, port: u16)
    requires
        port >= 1,
    ensures
        host_of(address_of(host, port)) == Ok::<Seq<char>, Seq<char>>(host),
{
    text::law_decimal_reads_back(port);
    assert(is_port(text::decimal(port as nat)));
    law_accepted_addresses(address_of(host, port), host);
}

/// Port zero is refused for every host.
pub proof fn law_port_zero_is_refused(host: Seq<char>)
    ensures
        host_of(address_of(host, 0)) == Err::<Seq<char>, Seq<char>>(INVALID_PORT@),
{
    let addr = address_of(host, 0);
    let i = host.len() as int;
    text::law_decimal_reads_back(0);
    assert(addr[i] == ':');
    assert(addr.len() == i + 2);
    lemma_last_colon(addr, i);
    assert(addr.skip(i + 1) =~= text::decimal(0));
}

/// A text that is read as a number denotes a port exactly if the number is not
/// zero, and any other text denotes none.
pub proof fn law_ports_are_numbers_from_one(s: Seq<char>, port: u16)
    ensures
        text::u16_value(s) == Some(port) ==> (is_port(s) <==> port >= 1),
        text::u16_value(s) is None ==> !is_port(s),
{
}

/// The numeral of a port holds no colon.
proof fn lemma_port_stands_last(host: Seq<char>, port: u16)
    ensures
        address_of(host, port).index_of_last(':') == Some(host.len() as int),
        address_of(host, port).take(host.len() as int) == host,
        address_of(host, port).skip(host.len() + 1int) == text::decimal(port as nat),
{
    let addr = address_of(host, port);
    let numeral = text::decimal(port as nat);
    let i = host.len() as int;
    text::law_decimal_denotes(port as nat);
    assert(addr[i] == ':');
    assert forall|j: int| i < j < addr.len() implies addr[j] != ':' by {
        assert(addr[j] == numeral[j - i - 1]);
    }
    lemma_last_colon(addr, i);
    assert(addr.take(i) =~= host);
    assert(addr.skip(i + 1) =~= numeral);
}

/// The address of a host and a port begins with the host and a colon, and what
/// follows is made of digits, does not begin with a zero unless it is one, and
/// reads back as the port.
pub proof fn law_address_gives_port_back(host: Seq<char>, port: u16)
    ensures
        ({
            let addr = address_of(host, port);
            let rest = addr.skip(host.len() + 1int);
            &&& addr.len() > host.len() + 1
            &&& addr.take(host.len() as int) == host
            &&& addr[host.len() as int] == ':'
            &&& text::u16_value(rest) == Some(port)
            &&& text::all_digits(rest)
            &&& rest[0] == '0' ==> rest.len() == 1
        }),
{
    lemma_port_stands_last(host, port);
    text::law_decimal_denotes(port as nat);
    text::law_decimal_reads_back(port);
    text::law_decimal_has_no_leading_zero(port as nat);
}

/// Addresses are equal only if both their hosts and their ports are.
pub proof fn law_addresses_tell_servers_apart(
    host: Seq<char>,
    port: u16,
    other_host: Seq<char>,
    other_port: u16,
)
    ensures
        address_of(host, port) == address_of(other_host, other_port) <==> host == other_host
            && port == other_port,
{
    lemma_port_stands_last(host, port);
    lemma_port_stands_last(other_host, other_port);
    text::law_decimal_reads_back(port);
    text::law_decimal_reads_back(other_port);
}

/// An address is judged by what follows its last colon: if that is read as a
/// number from 1 on, everything before the colon is the host, and else the port
/// is what is wrong. Without a colon the port is what is missing.
pub proof fn law_last_colon_decides(host: Seq<char>, port: Seq<char>)
    requires
        !port.contains(':'),
    ensures
        ({
            let judged = host_of(host + seq![':'] + port);
            match text::u16_value(port) {
                Some(n) if n >= 1 => judged == Ok::<Seq<char>, Seq<char>>(host),
                _ => judged == Err::<Seq<char>, Seq<char>>(
                    "Invalid port number. Must be between 1-65535"@,
                ),
            }
        }),
        host_of(port) == Err::<Seq<char>, Seq<char>>(
            "Invalid server address format. Expected format: host:port"@,
        ),
{
    let addr = host + seq![':'] + port;
    let i = host.len() as int;
    assert(addr[i] == ':');
    assert forall|j: int| i < j < addr.len() implies addr[j] != ':' by {
        assert(addr[j] == port[j - i - 1]);
        assert(port.contains(port[j - i - 1]));
    }
    lemma_last_colon(addr, i);
    assert(addr.take(i) =~= host);
    assert(addr.skip(i + 1) =~= port);
    port.index_of_last_ensures(':');
}

/// Writes the address of a host and a port.
pub fn server_address(host: &str, port: u16) -> (addr: String)
    ensures
        addr@ == address_of(host@, port),
{
    proof {
        reveal_strlit(":");
    }
    let addr = host.to_string().concat(":").concat(text::decimal_text(port as u64).as_str());
    assert(addr@ =~= address_of(host@, port));
    addr
}

/// Checks a server address and returns its host.
pub fn parse_server_addr(addr: &str) -> (r: Result<&str, String>)
    ensures
        match r {
            Ok(host) => host_of(addr@) == Ok::<Seq<char>, Seq<char>>(host@),
            Err(message) => host_of(addr@) == Err::<Seq<char>, Seq<char>>(message@),
        },
{
    let v = text::chars_of(addr);
    let mut i: usize = v.len();
    while i > 0
        invariant
            v@ == addr@,
            i <= v.len(),
            forall|j: int| i <= j < v.len() ==> addr@[j] != ':',
        decreases i,
    {
        i = i - 1;
        if v[i] == ':' {
            proof {
                lemma_last_colon(addr@, i as int);
                assert(addr@.skip(i + 1) =~= addr@.subrange(i + 1, addr@.len() as int));
                assert(addr@.take(i as int) =~= addr@.subrange(0, i as int));
            }
            return match text::read_u16(addr.substring_char(i + 1, v.len())) {
                Some(port) if port >= 1 => Ok(addr.substring_char(0, i)),
                _ => Err(INVALID_PORT.to_string()),
            };
        }
    }
    proof {
        addr@.index_of_last_ensures(':');
    }
    Err(MISSING_PORT.to_string())
}

} // verus!
