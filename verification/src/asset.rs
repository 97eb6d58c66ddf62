//! What is swapped, and who may claim it.

use crate::bytes::bytes_eq;
use vstd::prelude::*;

verus! {

/// An unsigned 256-bit number, as two halves of 128 bits.
#[derive(Clone, Copy, Debug, PartialEq, Eq, Hash, Structural)]
pub struct U256 {
    pub high: u128,
    pub low: u128,
}

/// An account on an Ethereum-family ledger.
#[derive(Clone, Copy, Debug, PartialEq, Eq, Hash)]
pub struct EthereumAddress(pub [u8; 20]);

/// The hash of a public key, which names the owner of a Bitcoin output.
#[derive(Clone, Copy, Debug, PartialEq, Eq, Hash)]
pub struct PubkeyHash(pub [u8; 20]);

/// Who may redeem or be refunded, in the form that the ledger uses.
#[derive(Clone, Copy, Debug, PartialEq, Eq, Hash)]
pub enum Identity {
    Bitcoin(PubkeyHash),
    Ethereum(EthereumAddress),
}

/// An amount of tokens held by an ERC20 contract.
#[derive(Clone, Copy, Debug, PartialEq, Eq, Hash)]
pub struct Erc20 {
    pub token_contract: EthereumAddress,
    pub quantity: U256,
}

/// Which sort of asset this is.
#[derive(Clone, Copy, Debug, PartialEq, Eq, Hash, Structural)]
pub enum AssetKind {
    Bitcoin,
    Ether,
    Erc20,
}

/// An amount of one of the assets that can be swapped: satoshi, wei, or
/// tokens.
#[derive(Clone, Copy, Debug, PartialEq, Eq, Hash)]
pub enum Asset {
    Bitcoin(u64),
    Ether(U256),
    Erc20(Erc20),
}

impl U256 {
    /// The number as a natural number.
    pub open spec fn to_nat(self) -> nat {
        (self.high * 0x1_0000_0000_0000_0000_0000_0000_0000_0000 + self.low) as nat
    }

    /// A number that fits in 128 bits.
    pub fn from_u128(value: u128) -> (r: Self)
        ensures
            r == (U256 { high: 0, low: value }),
            r.to_nat() == value,
    {
        U256 { high: 0, low: value }
    }
}

impl EthereumAddress {
    /// Whether two addresses are the same.
    pub fn same(&self, other: &EthereumAddress) -> (r: bool)
        ensures
            r == (*self == *other),
    {
        let r = bytes_eq(&self.0, &other.0);
        proof {
            if r {
                assert(self.0 =~= other.0);
            }
        }
        r
    }
}

impl Asset {
    /// The sort of this asset, in specifications.
    pub open spec fn spec_kind(self) -> AssetKind {
        match self {
            Asset::Bitcoin(_) => AssetKind::Bitcoin,
            Asset::Ether(_) => AssetKind::Ether,
            Asset::Erc20(_) => AssetKind::Erc20,
        }
    }

    /// The sort of this asset.
    pub fn kind(&self) -> (r: AssetKind)
        ensures
            r == self.spec_kind(),
    {
        match self {
            Asset::Bitcoin(_) => AssetKind::Bitcoin,
            Asset::Ether(_) => AssetKind::Ether,
            Asset::Erc20(_) => AssetKind::Erc20,
        }
    }

    /// Whether two assets are of the same sort and amount.
    pub fn same(&self, other: &Asset) -> (r: bool)
        ensures
            r == (*self == *other),
    {
        match (self, other) {
            (Asset::Bitcoin(a), Asset::Bitcoin(b)) => *a == *b,
            (Asset::Ether(a), Asset::Ether(b)) => *a == *b,
            (Asset::Erc20(a), Asset::Erc20(b)) => a.quantity == b.quantity
                && a.token_contract.same(&b.token_contract),
            _ => false,
        }
    }
}

} // verus!
