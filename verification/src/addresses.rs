//! Bitcoin addresses in their text form.

use crate::actions::Address;
use crate::ledger::Network;
use vstd::prelude::*;

verus! {

#[verifier::external_type_specification]
#[verifier::external_body]
pub struct ExAddressError(bitcoin::util::address::Error);

/// What the `FromStr` impl of `bitcoin::Address` makes of a text: the network
/// of the address and the script that pays to it, or nothing where it refuses
/// the text.
pub uninterp spec fn bitcoin_address_parse(text: Seq<char>) -> Option<(Network, Seq<u8>)>;

/// Parses an address with the `FromStr` impl of `bitcoin::Address` and takes
/// its network and its script. The contract names the outcome and claims
/// nothing of which texts are taken.
#[verifier::external_body]
fn parse_bitcoin_address(text: &str) -> (r: Result<Address, bitcoin::util::address::Error>)
    ensures
        r matches Ok(address) ==> bitcoin_address_parse(text@) == Some(
            (address.network, address.script_pubkey@),
        ),
        r is Err ==> bitcoin_address_parse(text@) is None,
{
    let parsed = text.parse::<bitcoin::Address>()?;
    let network = match parsed.network {
        bitcoin::Network::Bitcoin => Network::Mainnet,
        bitcoin::Network::Testnet => Network::Testnet,
        bitcoin::Network::Regtest => Network::Regtest,
    };
    Ok(Address { network, script_pubkey: parsed.script_pubkey().into_bytes() })
}

/// Why a text is not an address of the ledger.
#[derive(Clone, Copy, Debug, PartialEq, Eq, Structural)]
pub enum AddressError {
    /// The text is no Bitcoin address.
    Malformed,
    /// The address belongs to another network than the ledger's.
    WrongNetwork,
}

impl Address {
    /// Reads an address of the ledger on `network` from its text form. An
    /// address of another network is refused.
    pub fn from_str(s: &str, network: Network) -> (r: Result<Address, AddressError>)
        ensures
            r matches Ok(address) ==> address.network == network && bitcoin_address_parse(s@)
                == Some((network, address.script_pubkey@)),
            r == Err::<Address, AddressError>(AddressError::Malformed) <==> bitcoin_address_parse(
                s@,
            ) is None,
            r == Err::<Address, AddressError>(AddressError::WrongNetwork) <==> (
            bitcoin_address_parse(s@) matches Some(parsed) && parsed.0 != network),
    {
        match parse_bitcoin_address(s) {
            Ok(address) => {
                if address.network == network {
                    Ok(address)
                } else {
                    Err(AddressError::WrongNetwork)
                }
            },
            Err(_) => Err(AddressError::Malformed),
        }
    }
}

} // verus!
