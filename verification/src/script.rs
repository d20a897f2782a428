//! What the interface says about a script.

use vstd::prelude::*;

use crate::primitives::Network;

verus! {

/// What `Script::bytes_to_asm` of `bitcoin` writes for a script.
pub uninterp spec fn script_asm(script: Seq<u8>) -> Seq<char>;

/// What `Address::from_script` of `bitcoin` gives for a script on a network, as a text; none
/// where it is an error.
pub uninterp spec fn script_address(script: Seq<u8>, network: Network) -> Option<Seq<char>>;

/// Pay to public key hash: `OP_DUP OP_HASH160 <20 bytes> OP_EQUALVERIFY OP_CHECKSIG`.
pub open spec fn is_p2pkh(script: Seq<u8>) -> bool {
    &&& script.len() == 25
    &&& script[0] == 0x76
    &&& script[1] == 0xa9
    &&& script[2] == 20
    &&& script[23] == 0x88
    &&& script[24] == 0xac
}

/// Pay to script hash: `OP_HASH160 <20 bytes> OP_EQUAL`.
pub open spec fn is_p2sh(script: Seq<u8>) -> bool {
    &&& script.len() == 23
    &&& script[0] == 0xa9
    &&& script[1] == 20
    &&& script[22] == 0x87
}

/// Pay to witness public key hash, version 0: `OP_0 <20 bytes>`.
pub open spec fn is_v0_p2wpkh(script: Seq<u8>) -> bool {
    &&& script.len() == 22
    &&& script[0] == 0
    &&& script[1] == 20
}

/// Pay to witness script hash, version 0: `OP_0 <32 bytes>`.
pub open spec fn is_v0_p2wsh(script: Seq<u8>) -> bool {
    &&& script.len() == 34
    &&& script[0] == 0
    &&& script[1] == 32
}

/// The name of a script's type, for the four types that the interface knows.
pub open spec fn script_type(script: Seq<u8>) -> Option<Seq<char>> {
    if is_p2pkh(script) {
        Some("p2pkh"@)
    } else if is_p2sh(script) {
        Some("p2sh"@)
    } else if is_v0_p2wpkh(script) {
        Some("v0_p2wpkh"@)
    } else if is_v0_p2wsh(script) {
        Some("v0_p2wsh"@)
    } else {
        None
    }
}

/// `Script::is_p2pkh` of `bitcoin`: the script has exactly the bytes of that template.
#[verifier::external_body]
pub(crate) fn script_is_p2pkh(script: &Vec<u8>) -> (is: bool)
    ensures
        is == is_p2pkh(script@),
{
    bitcoin::Script::from(script.clone()).is_p2pkh()
}

/// `Script::is_p2sh` of `bitcoin`: the script has exactly the bytes of that template.
#[verifier::external_body]
pub(crate) fn script_is_p2sh(script: &Vec<u8>) -> (is: bool)
    ensures
        is == is_p2sh(script@),
{
    bitcoin::Script::from(script.clone()).is_p2sh()
}

/// `Script::is_v0_p2wpkh` of `bitcoin`: the script has exactly the bytes of that template.
#[verifier::external_body]
pub(crate) fn script_is_v0_p2wpkh(script: &Vec<u8>) -> (is: bool)
    ensures
        is == is_v0_p2wpkh(script@),
{
    bitcoin::Script::from(script.clone()).is_v0_p2wpkh()
}

/// `Script::is_v0_p2wsh` of `bitcoin`: the script has exactly the bytes of that template.
#[verifier::external_body]
pub(crate) fn script_is_v0_p2wsh(script: &Vec<u8>) -> (is: bool)
    ensures
        is == is_v0_p2wsh(script@),
{
    bitcoin::Script::from(script.clone()).is_v0_p2wsh()
}

/// `Script::bytes_to_asm` of `bitcoin`: the script's opcodes and pushes, written out. The text is
/// named, not written out here.
#[verifier::external_body]
pub(crate) fn script_asm_of(script: &Vec<u8>) -> (text: String)
    ensures
        text@ == script_asm(script@),
{
    bitcoin::Script::bytes_to_asm(script)
}

/// `Address::from_script` of `bitcoin` and the `Display` of the address. The text is named,
/// not computed here. A script of one of the four known types always has an address; which
/// others have one is left unsaid.
#[verifier::external_body]
pub(crate) fn script_address_of(script: &Vec<u8>, network: Network) -> (address: Option<String>)
    ensures
        match address {
            Some(text) => script_address(script@, network) == Some(text@),
            None => script_address(script@, network) is None,
        },
        script_type(script@) is Some ==> address is Some,
{
    let network = match network {
        Network::Bitcoin => bitcoin::Network::Bitcoin,
        Network::Testnet => bitcoin::Network::Testnet,
        Network::Signet => bitcoin::Network::Signet,
        Network::Regtest => bitcoin::Network::Regtest,
    };
    let script = bitcoin::Script::from(script.clone());
    bitcoin::Address::from_script(&script, network).ok().map(|address| address.to_string())
}

} // verus!
