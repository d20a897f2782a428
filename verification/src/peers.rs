//! Connecting to another node.

use vstd::prelude::*;
use vstd::string::StrSliceExecFns;

use crate::primitives::Network;
use crate::res::{Error, RpcError, RpcErrorView};
use crate::text::characters;

verus! {

/// The port on which nodes of a network listen.
pub open spec fn default_port(network: Network) -> u16 {
    match network {
        Network::Bitcoin => 8333,
        Network::Testnet => 18333,
        Network::Regtest => 18444,
        Network::Signet => 38333,
    }
}

/// Whether a text has exactly one colon, and that at `i`.
pub open spec fn only_colon_at(node: Seq<char>, i: int) -> bool {
    &&& 0 <= i < node.len()
    &&& node[i] == ':'
    &&& forall|j: int| 0 <= j < node.len() && j != i ==> node[j] != ':'
}

/// What stands before the first colon: all of a text without one.
pub open spec fn host_of(node: Seq<char>) -> Seq<char> {
    match node.index_of_first(':') {
        Some(i) => node.take(i),
        None => node,
    }
}

/// What stands behind the colon of a text that has exactly one.
pub open spec fn port_of(node: Seq<char>) -> Option<Seq<char>> {
    match node.index_of_first(':') {
        Some(i) => if only_colon_at(node, i) {
            Some(node.skip(i + 1))
        } else {
            None
        },
        None => None,
    }
}

/// Whether a text is made of decimal digits, at least one.
pub open spec fn is_decimal(text: Seq<char>) -> bool {
    &&& text.len() > 0
    &&& forall|i: int| 0 <= i < text.len() ==> '0' <= #[trigger] text[i] <= '9'
}

/// The number that decimal digits stand for.
pub open spec fn decimal_value(digits: Seq<char>) -> nat
    decreases digits.len(),
{
    if digits.len() == 0 {
        0
    } else {
        10 * decimal_value(digits.drop_last()) + (digits.last() as nat - '0' as nat) as nat
    }
}

/// The number of sixteen bits that decimal digits stand for.
pub open spec fn decimal_u16(text: Seq<char>) -> Option<u16> {
    if is_decimal(text) && decimal_value(text) <= u16::MAX {
        Some(decimal_value(text) as u16)
    } else {
        None
    }
}

/// The port that a text stands for: a plus sign or none, then decimal digits, for a number
/// of sixteen bits.
pub open spec fn port_number(text: Seq<char>) -> Option<u16> {
    if text.len() > 0 && text[0] == '+' {
        decimal_u16(text.skip(1))
    } else {
        decimal_u16(text)
    }
}

proof fn lemma_value_of_prefix(digits: Seq<char>, end: int)
    requires
        0 <= end <= digits.len(),
    ensures
        decimal_value(digits.take(end)) <= decimal_value(digits),
    decreases digits.len(),
{
    if end == digits.len() {
        assert(digits.take(end) =~= digits);
    } else {
        assert(digits.drop_last().take(end) =~= digits.take(end));
        lemma_value_of_prefix(digits.drop_last(), end);
    }
}

/// Reads a number from the characters from `start` on.
fn parse_decimal(text: &Vec<char>, start: usize) -> (number: Option<u16>)
    requires
        start <= text@.len(),
    ensures
        number == decimal_u16(text@.skip(start as int)),
{
    let ghost digits = text@.skip(start as int);
    if start == text.len() {
        return None;
    }
    let mut value: u32 = 0;
    let mut i: usize = start;
    assert(digits.take(0) =~= Seq::<char>::empty());
    while i < text.len()
        invariant
            start <= i <= text@.len(),
            digits == text@.skip(start as int),
            value <= u16::MAX,
            value == decimal_value(digits.take(i - start)),
            forall|j: int| 0 <= j < i - start ==> '0' <= #[trigger] digits[j] <= '9',
        decreases text@.len() - i,
    {
        let digit = text[i];
        assert(digits[i - start] == digit);
        if digit < '0' || digit > '9' {
            return None;
        }
        proof {
            let read = digits.take(i + 1 - start);
            assert(read.drop_last() =~= digits.take(i - start));
            lemma_value_of_prefix(digits, i + 1 - start);
        }
        value = 10 * value + (digit as u32 - '0' as u32);
        if value > 65535 {
            return None;
        }
        i += 1;
    }
    assert(digits.take(i - start) =~= digits);
    Some(value as u16)
}

/// Reads a port from the characters from `start` on.
fn parse_port(text: &Vec<char>, start: usize) -> (port: Option<u16>)
    requires
        start <= text@.len(),
    ensures
        port == port_number(text@.skip(start as int)),
{
    if start < text.len() && text[start] == '+' {
        assert(text@.skip(start as int).skip(1) =~= text@.skip(start + 1));
        parse_decimal(text, start + 1)
    } else {
        parse_decimal(text, start)
    }
}

/// A node to connect to, before its address has been read.
#[derive(PartialEq, Eq, Debug)]
pub struct AddressWanted {
    pub ip: String,
    pub port: u16,
}

/// A node to connect to.
#[derive(PartialEq, Eq, Debug)]
pub struct Peer<A> {
    pub address: A,
    pub port: u16,
}

/// The port to connect to: the one that the text names, or the network's if it names none.
pub open spec fn peer_port(node: Seq<char>, network: Network) -> Option<u16> {
    match port_of(node) {
        Some(port) => port_number(port),
        None => Some(default_port(network)),
    }
}

/// The port on which nodes of a network listen.
pub fn get_default_port(network: Network) -> (port: u16)
    ensures
        port == default_port(network),
{
    match network {
        Network::Bitcoin => 8333,
        Network::Testnet => 18333,
        Network::Regtest => 18444,
        Network::Signet => 38333,
    }
}

/// Splits a node's name into address and port.
pub fn split_node(node: &str, network: Network) -> (wanted: Result<AddressWanted, RpcError>)
    ensures
        match peer_port(node@, network) {
            Some(port) => wanted matches Ok(wanted) && wanted.ip@ == host_of(node@) && wanted.port
                == port,
            None => wanted matches Err(error) && error@ == RpcErrorView::Api(Error::InvalidPort),
        },
{
    let text = characters(node);
    let mut first: usize = 0;
    while first < text.len() && text[first] != ':'
        invariant
            first <= text@.len(),
            forall|j: int| 0 <= j < first ==> text@[j] != ':',
        decreases text@.len() - first,
    {
        first += 1;
    }
    proof {
        text@.index_of_first_ensures(':');
        if first < text@.len() {
            assert(text@.contains(text@[first as int]));
        }
        assert(text@.index_of_first(':') == if first < text@.len() {
            Some(first as int)
        } else {
            None
        });
        assert(text@.take(text@.len() as int) =~= text@);
    }
    let ip = node.substring_char(0, first).to_owned();
    assert(ip@ =~= host_of(node@));
    if first == text.len() {
        return Ok(AddressWanted { ip, port: get_default_port(network) });
    }
    let mut second: usize = first + 1;
    while second < text.len() && text[second] != ':'
        invariant
            first < second <= text@.len(),
            forall|j: int| first < j < second ==> text@[j] != ':',
        decreases text@.len() - second,
    {
        second += 1;
    }
    if second < text.len() {
        assert(text@[second as int] == ':');
        return Ok(AddressWanted { ip, port: get_default_port(network) });
    }
    assert(only_colon_at(text@, first as int));
    match parse_port(&text, first + 1) {
        Some(port) => Ok(AddressWanted { ip, port }),
        None => Err(RpcError::Api(Error::InvalidPort)),
    }
}

impl AddressWanted {
    /// Goes on with the address that the text stands for, if it stands for one.
    pub fn parsed<A>(self, address: Option<A>) -> (peer: Result<Peer<A>, RpcError>)
        ensures
            match address {
                Some(address) => peer == Ok::<Peer<A>, RpcError>(
                    Peer { address, port: self.port },
                ),
                None => peer matches Err(error) && error@ == RpcErrorView::Api(
                    Error::InvalidAddress,
                ),
            },
    {
        match address {
            Some(address) => Ok(Peer { address, port: self.port }),
            None => Err(RpcError::Api(Error::InvalidAddress)),
        }
    }
}

impl<A> Peer<A> {
    /// Answers once the node has been told to connect.
    pub fn connected(self) -> (reply: Result<bool, RpcError>)
        ensures
            reply == Ok::<bool, RpcError>(true),
    {
        Ok(true)
    }
}

} // verus!
