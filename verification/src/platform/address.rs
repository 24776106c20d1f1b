//! Socket addresses as the discovery tools print them: a host, a colon, a port.

use vstd::prelude::*;
use crate::text::number::{parse_u16, read_u16};
use crate::text::search::{after_last, take_after_last};
use crate::text::split::texts;

verus! {

/// The port of the address `token`: the number written after its last colon.
/// `None` where `token` holds no colon or no 16-bit number follows the last.
pub open spec fn address_port(token: Seq<char>) -> Option<u16> {
    match after_last(token, ':') {
        Some(digits) => parse_u16(digits),
        None => None,
    }
}

/// The port of the first of `tokens`, from index `i` on, that is an address.
pub open spec fn first_address_port(tokens: Seq<Seq<char>>, i: int) -> Option<u16>
    decreases tokens.len() - i,
{
    if i < 0 || i >= tokens.len() {
        None
    } else {
        match address_port(tokens[i]) {
            Some(port) => Some(port),
            None => first_address_port(tokens, i + 1),
        }
    }
}

/// Reads the port of the address `token`.
pub fn read_address_port(token: &Vec<char>) -> (r: Option<u16>)
    ensures
        r == address_port(token@),
{
    match take_after_last(token, ':') {
        Some(digits) => read_u16(&digits),
        None => None,
    }
}

/// Finds the first of `tokens`, from index `from` on, that is an address,
/// and reads its port.
pub fn find_address_port(tokens: &Vec<Vec<char>>, from: usize) -> (r: Option<u16>)
    ensures
        r == first_address_port(texts(tokens@), from as int),
{
    let mut i: usize = from;
    while i < tokens.len()
        invariant
            from <= i,
            first_address_port(texts(tokens@), from as int) == first_address_port(
                texts(tokens@),
                i as int,
            ),
        decreases tokens.len() - i,
    {
        match read_address_port(&tokens[i]) {
            Some(port) => {
                return Some(port);
            },
            None => {},
        }
        i += 1;
    }
    None
}

} // verus!
