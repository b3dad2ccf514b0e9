//! The fixed loopback endpoint on which the supervised server answers.

use vstd::prelude::*;
use vstd::string::StringExecFns;

verus! {

/// The TCP port of the server, which is also the port probed at startup.
pub const SERVER_PORT: u16 = 8002;

/// The loopback address, as text.
pub open spec fn host_text() -> Seq<char> {
    "127.0.0.1"@
}

/// The character of one decimal digit.
pub open spec fn digit_char(digit: nat) -> char {
    if digit == 0 {
        '0'
    } else if digit == 1 {
        '1'
    } else if digit == 2 {
        '2'
    } else if digit == 3 {
        '3'
    } else if digit == 4 {
        '4'
    } else if digit == 5 {
        '5'
    } else if digit == 6 {
        '6'
    } else if digit == 7 {
        '7'
    } else if digit == 8 {
        '8'
    } else {
        '9'
    }
}

/// A number in decimal, without leading zeros.
pub open spec fn decimal_text(number: nat) -> Seq<char>
    decreases number,
{
    if number < 10 {
        seq![digit_char(number)]
    } else {
        decimal_text(number / 10).push(digit_char(number % 10))
    }
}

/// The port in decimal, as text.
pub open spec fn port_text() -> Seq<char> {
    decimal_text(SERVER_PORT as nat)
}

/// `host:port`, the address that the availability probe binds.
pub open spec fn probe_address_text() -> Seq<char> {
    host_text() + ":"@ + port_text()
}

/// The base URL that is handed to the frontend.
pub open spec fn server_url_text() -> Seq<char> {
    "http://"@ + probe_address_text()
}

/// The loopback host of the server.
pub fn server_host() -> (host: String)
    ensures
        host@ == host_text(),
{
    String::from_str("127.0.0.1")
}

/// The address to bind when testing whether the port is free.
pub fn probe_address() -> (address: String)
    ensures
        address@ == probe_address_text(),
        address@ == "127.0.0.1:8002"@,
{
    proof {
        lemma_endpoint_literals();
    }
    String::from_str("127.0.0.1:8002")
}

/// The base URL of the server: always the same text, whatever happened to
/// the supervised process.
pub fn get_server_url() -> (url: String)
    ensures
        url@ == "http://127.0.0.1:8002"@,
        url@ == server_url_text(),
{
    proof {
        lemma_endpoint_literals();
    }
    String::from_str("http://127.0.0.1:8002")
}

/// The texts composed of host and port are the literals that the functions
/// return.
pub proof fn lemma_endpoint_literals()
    ensures
        port_text() == "8002"@,
        probe_address_text() == "127.0.0.1:8002"@,
        server_url_text() == "http://127.0.0.1:8002"@,
{
    reveal_strlit("127.0.0.1");
    reveal_strlit("8002");
    reveal_strlit(":");
    reveal_with_fuel(decimal_text, 5);
    assert(port_text() =~= "8002"@);
    reveal_strlit("http://");
    reveal_strlit("127.0.0.1:8002");
    reveal_strlit("http://127.0.0.1:8002");
    assert(probe_address_text() =~= "127.0.0.1:8002"@);
    assert(server_url_text() =~= "http://127.0.0.1:8002"@);
}

} // verus!
