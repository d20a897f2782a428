use florestad_rpc::peers::{get_default_port, split_node, AddressWanted, Peer};
use florestad_rpc::primitives::Network;
use florestad_rpc::res::{Error, RpcError};
use florestad_rpc::server::{Rpc, RpcImpl};

fn node(name: &str) -> Result<AddressWanted, RpcError> {
    let rpc = RpcImpl { network: Network::Bitcoin, block_filter_storage: false };
    rpc.add_node(name.to_string())
}

fn wanted(ip: &str, port: u16) -> Result<AddressWanted, RpcError> {
    Ok(AddressWanted { ip: ip.to_string(), port })
}

#[test]
fn named_port_is_used() {
    assert_eq!(node("127.0.0.1:1234"), wanted("127.0.0.1", 1234));
    assert_eq!(node("10.0.0.1:0"), wanted("10.0.0.1", 0));
    assert_eq!(node("10.0.0.1:65535"), wanted("10.0.0.1", 65535));
    assert_eq!(node("10.0.0.1:+80"), wanted("10.0.0.1", 80));
    assert_eq!(node("10.0.0.1:0000000080"), wanted("10.0.0.1", 80));
    assert_eq!(node(":80"), wanted("", 80));
}

#[test]
fn unnamed_port_is_the_networks() {
    for (network, port) in [
        (Network::Bitcoin, 8333),
        (Network::Testnet, 18333),
        (Network::Regtest, 18444),
        (Network::Signet, 38333),
    ] {
        assert_eq!(get_default_port(network), port);
        assert_eq!(split_node("10.0.0.1", network), wanted("10.0.0.1", port));
        assert_eq!(split_node("10.0.0.1:7", network), wanted("10.0.0.1", 7));
    }
    assert_eq!(node(""), wanted("", 8333));
}

#[test]
fn more_than_one_colon_leaves_the_first_piece() {
    assert_eq!(node("::1"), wanted("", 8333));
    assert_eq!(node("2001:db8::1"), wanted("2001", 8333));
    assert_eq!(node("a:b:c"), wanted("a", 8333));
    assert_eq!(node("10.0.0.1:80:"), wanted("10.0.0.1", 8333));
}

#[test]
fn wrong_port_is_refused() {
    let refused = Err(RpcError::Api(Error::InvalidPort));
    for name in [
        "10.0.0.1:",
        "10.0.0.1:65536",
        "10.0.0.1:99999999999999999999",
        "10.0.0.1:-1",
        "10.0.0.1:+",
        "10.0.0.1:++1",
        "10.0.0.1: 80",
        "10.0.0.1:80 ",
        "10.0.0.1:0x50",
        "10.0.0.1:8_0",
        "10.0.0.1:\u{0664}",
        ":",
    ] {
        assert_eq!(node(name), refused);
    }
}

#[test]
fn names_outside_ascii_are_split_too() {
    assert_eq!(node("n\u{f6}de:80"), wanted("n\u{f6}de", 80));
    assert_eq!(node("n\u{f6}de"), wanted("n\u{f6}de", 8333));
}

#[test]
fn every_port_is_read_back() {
    for port in [0u16, 9, 10, 99, 100, 8333, 9999, 10000, 65535] {
        assert_eq!(node(&format!("h:{}", port)), wanted("h", port));
    }
}

#[test]
fn wrong_address_is_refused() {
    let address: Option<u32> = None;
    let peer = node("nowhere:80").unwrap().parsed(address);
    assert_eq!(peer, Err(RpcError::Api(Error::InvalidAddress)));
}

#[test]
fn node_is_connected_to() {
    let peer = node("10.0.0.1:80").unwrap().parsed(Some(0x0a00_0001u32)).unwrap();
    assert_eq!(peer, Peer { address: 0x0a00_0001u32, port: 80 });
    assert_eq!(peer.connected(), Ok(true));
}
