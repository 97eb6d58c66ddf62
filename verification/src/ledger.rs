//! The ledgers a swap can run on.

use crate::bytes::bytes_eq;
use vstd::prelude::*;

verus! {

/// A Bitcoin network.
#[derive(Clone, Copy, Debug, PartialEq, Eq, Hash, Structural)]
pub enum Network {
    Mainnet,
    Testnet,
    Regtest,
}

/// The Bitcoin ledger on one of its networks.
#[derive(Clone, Copy, Debug, PartialEq, Eq, Hash, Structural)]
pub struct Bitcoin {
    network: Network,
}

/// An Ethereum-family ledger, told apart by its chain id.
#[derive(Clone, Copy, Debug, PartialEq, Eq, Hash, Structural)]
pub struct Ethereum {
    pub chain_id: u32,
}

/// Which family a ledger belongs to.
#[derive(Clone, Copy, Debug, PartialEq, Eq, Hash, Structural)]
pub enum LedgerKind {
    Bitcoin,
    Ethereum,
}

/// One side's ledger.
#[derive(Clone, Copy, Debug, PartialEq, Eq, Hash, Structural)]
pub enum Ledger {
    Bitcoin(Bitcoin),
    Ethereum(Ethereum),
}

/// A point in time, in seconds since the epoch.
#[derive(Clone, Copy, Debug, PartialEq, Eq, Hash, Structural)]
pub struct Timestamp(pub u32);

/// The output of a Bitcoin transaction.
#[derive(Clone, Copy, Debug, PartialEq, Eq, Hash)]
pub struct OutPoint {
    pub txid: [u8; 32],
    pub vout: u32,
}

/// An earlier form of [`OutPoint`], kept for those who still hold one.
#[derive(Clone, Copy, Debug, PartialEq, Eq, Hash)]
pub struct HtlcId {
    pub transaction_id: [u8; 32],
    pub vout: u32,
}

impl Bitcoin {
    /// The network of this ledger, in specifications.
    pub closed spec fn spec_network(self) -> Network {
        self.network
    }

    /// The Bitcoin ledger on `network`.
    pub fn new(network: Network) -> (r: Self)
        ensures
            r.spec_network() == network,
    {
        Bitcoin { network }
    }

    /// The Bitcoin ledger on the regression-test network.
    pub fn regtest() -> (r: Self)
        ensures
            r.spec_network() == Network::Regtest,
    {
        Bitcoin { network: Network::Regtest }
    }

    /// The network of this ledger.
    pub fn network(&self) -> (r: Network)
        ensures
            r == self.spec_network(),
    {
        self.network
    }

    /// The ticker symbol of the ledger's currency.
    pub fn symbol() -> (r: String)
        ensures
            r@ == "BTC"@,
    {
        "BTC".to_string()
    }
}

impl Default for Bitcoin {
    fn default() -> (r: Self)
        ensures
            r.spec_network() == Network::Regtest,
    {
        Bitcoin { network: Network::Regtest }
    }
}

impl Ledger {
    /// The family of this ledger, in specifications.
    pub open spec fn spec_kind(self) -> LedgerKind {
        match self {
            Ledger::Bitcoin(_) => LedgerKind::Bitcoin,
            Ledger::Ethereum(_) => LedgerKind::Ethereum,
        }
    }

    /// The family of this ledger.
    pub fn kind(&self) -> (r: LedgerKind)
        ensures
            r == self.spec_kind(),
    {
        match self {
            Ledger::Bitcoin(_) => LedgerKind::Bitcoin,
            Ledger::Ethereum(_) => LedgerKind::Ethereum,
        }
    }
}

impl OutPoint {
    /// Whether two outpoints name the same output.
    pub fn same(&self, other: &OutPoint) -> (r: bool)
        ensures
            r == (*self == *other),
    {
        let r = self.vout == other.vout && bytes_eq(&self.txid, &other.txid);
        proof {
            if r {
                assert(self.txid =~= other.txid);
            }
        }
        r
    }
}

impl HtlcId {
    /// The same output as an outpoint.
    pub fn to_outpoint(&self) -> (r: OutPoint)
        ensures
            r.txid == self.transaction_id,
            r.vout == self.vout,
    {
        OutPoint { txid: self.transaction_id, vout: self.vout }
    }
}

} // verus!
