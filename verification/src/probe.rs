//! Address of a reachability probe: the text handed to a TCP connect.

use crate::text::{decimal_digits, decimal_string};
use vstd::prelude::*;
use vstd::string::*;

verus! {

/// The address of `port` on `host`: the host, a colon, the port in decimal.
pub open spec fn socket_address(host: Seq<char>, port: nat) -> Seq<char> {
    host + seq![':'] + decimal_digits(port)
}

/// Writes the address to connect to for a probe of `port` on `host`.
pub fn connection_address(host: &str, port: usize) -> (addr: String)
    ensures
        addr@ == socket_address(host@, port as nat),
{
    let mut addr = String::from_str(host);
    addr.append(":");
    proof {
        reveal_strlit(":");
    }
    let digits = decimal_string(port as u64);
    addr.append(digits.as_str());
    addr
}

} // verus!
