//! The parameters of one side's contract.

use crate::asset::{Asset, Erc20, EthereumAddress, Identity, PubkeyHash, U256};
use crate::ledger::{Bitcoin, Ethereum, Ledger, Timestamp};
use crate::messages::{Accept, Request};
use crate::secret::SecretHash;
use vstd::prelude::*;

verus! {

/// What fixes one contract: who may redeem, who is refunded and from when on,
/// how much is locked, under which hash, and on which ledger.
#[derive(Clone, Copy, Debug, PartialEq)]
pub struct HtlcParams<L, A, I> {
    pub asset: A,
    pub ledger: L,
    pub redeem_identity: I,
    pub refund_identity: I,
    pub expiry: Timestamp,
    pub secret_hash: SecretHash,
}

/// The parameters of a contract on Bitcoin, with the amount in satoshi.
pub type BitcoinHtlcParams = HtlcParams<Bitcoin, u64, PubkeyHash>;

/// The parameters of a contract that holds ether, with the amount in wei.
pub type EtherHtlcParams = HtlcParams<Ethereum, U256, EthereumAddress>;

/// The parameters of a contract that holds ERC20 tokens.
pub type Erc20HtlcParams = HtlcParams<Ethereum, Erc20, EthereumAddress>;

/// The parameters of the contract on the alpha ledger: funded by the proposer
/// and redeemable by the one who accepted.
pub open spec fn alpha_params(request: Request, response: Accept) -> HtlcParams<
    Ledger,
    Asset,
    Identity,
> {
    HtlcParams {
        asset: request.alpha_asset,
        ledger: request.alpha_ledger,
        redeem_identity: response.alpha_ledger_redeem_identity,
        refund_identity: request.alpha_ledger_refund_identity,
        expiry: request.alpha_expiry,
        secret_hash: request.secret_hash,
    }
}

/// The parameters of the contract on the beta ledger: funded by the one who
/// accepted and redeemable by the proposer.
pub open spec fn beta_params(request: Request, response: Accept) -> HtlcParams<
    Ledger,
    Asset,
    Identity,
> {
    HtlcParams {
        asset: request.beta_asset,
        ledger: request.beta_ledger,
        redeem_identity: request.beta_ledger_redeem_identity,
        refund_identity: response.beta_ledger_refund_identity,
        expiry: request.beta_expiry,
        secret_hash: request.secret_hash,
    }
}

impl HtlcParams<Ledger, Asset, Identity> {
    /// The parameters of the alpha contract of an accepted swap.
    pub fn new_alpha_params(request: &Request, accept_response: &Accept) -> (r: Self)
        ensures
            r == alpha_params(*request, *accept_response),
    {
        HtlcParams {
            asset: request.alpha_asset,
            ledger: request.alpha_ledger,
            redeem_identity: accept_response.alpha_ledger_redeem_identity,
            refund_identity: request.alpha_ledger_refund_identity,
            expiry: request.alpha_expiry,
            secret_hash: request.secret_hash,
        }
    }

    /// The parameters of the beta contract of an accepted swap.
    pub fn new_beta_params(request: &Request, accept_response: &Accept) -> (r: Self)
        ensures
            r == beta_params(*request, *accept_response),
    {
        HtlcParams {
            asset: request.beta_asset,
            ledger: request.beta_ledger,
            redeem_identity: request.beta_ledger_redeem_identity,
            refund_identity: accept_response.beta_ledger_refund_identity,
            expiry: request.beta_expiry,
            secret_hash: request.secret_hash,
        }
    }

    /// These parameters read as those of a Bitcoin contract, where every part
    /// is of Bitcoin's kind.
    pub open spec fn spec_as_bitcoin(self) -> Option<BitcoinHtlcParams> {
        match (self.ledger, self.asset, self.redeem_identity, self.refund_identity) {
            (
                Ledger::Bitcoin(ledger),
                Asset::Bitcoin(asset),
                Identity::Bitcoin(redeem_identity),
                Identity::Bitcoin(refund_identity),
            ) => Some(
                HtlcParams {
                    asset,
                    ledger,
                    redeem_identity,
                    refund_identity,
                    expiry: self.expiry,
                    secret_hash: self.secret_hash,
                },
            ),
            _ => None,
        }
    }

    /// These parameters read as those of an ether contract, where every part
    /// is of that kind.
    pub open spec fn spec_as_ether(self) -> Option<EtherHtlcParams> {
        match (self.ledger, self.asset, self.redeem_identity, self.refund_identity) {
            (
                Ledger::Ethereum(ledger),
                Asset::Ether(asset),
                Identity::Ethereum(redeem_identity),
                Identity::Ethereum(refund_identity),
            ) => Some(
                HtlcParams {
                    asset,
                    ledger,
                    redeem_identity,
                    refund_identity,
                    expiry: self.expiry,
                    secret_hash: self.secret_hash,
                },
            ),
            _ => None,
        }
    }

    /// These parameters read as those of an ERC20 contract, where every part
    /// is of that kind.
    pub open spec fn spec_as_erc20(self) -> Option<Erc20HtlcParams> {
        match (self.ledger, self.asset, self.redeem_identity, self.refund_identity) {
            (
                Ledger::Ethereum(ledger),
                Asset::Erc20(asset),
                Identity::Ethereum(redeem_identity),
                Identity::Ethereum(refund_identity),
            ) => Some(
                HtlcParams {
                    asset,
                    ledger,
                    redeem_identity,
                    refund_identity,
                    expiry: self.expiry,
                    secret_hash: self.secret_hash,
                },
            ),
            _ => None,
        }
    }

    /// Narrows the parameters to those of a Bitcoin contract.
    pub fn as_bitcoin(&self) -> (r: Option<BitcoinHtlcParams>)
        ensures
            r == self.spec_as_bitcoin(),
    {
        match (self.ledger, self.asset, self.redeem_identity, self.refund_identity) {
            (
                Ledger::Bitcoin(ledger),
                Asset::Bitcoin(asset),
                Identity::Bitcoin(redeem_identity),
                Identity::Bitcoin(refund_identity),
            ) => Some(
                HtlcParams {
                    asset,
                    ledger,
                    redeem_identity,
                    refund_identity,
                    expiry: self.expiry,
                    secret_hash: self.secret_hash,
                },
            ),
            _ => None,
        }
    }

    /// Narrows the parameters to those of an ether contract.
    pub fn as_ether(&self) -> (r: Option<EtherHtlcParams>)
        ensures
            r == self.spec_as_ether(),
    {
        match (self.ledger, self.asset, self.redeem_identity, self.refund_identity) {
            (
                Ledger::Ethereum(ledger),
                Asset::Ether(asset),
                Identity::Ethereum(redeem_identity),
                Identity::Ethereum(refund_identity),
            ) => Some(
                HtlcParams {
                    asset,
                    ledger,
                    redeem_identity,
                    refund_identity,
                    expiry: self.expiry,
                    secret_hash: self.secret_hash,
                },
            ),
            _ => None,
        }
    }

    /// Narrows the parameters to those of an ERC20 contract.
    pub fn as_erc20(&self) -> (r: Option<Erc20HtlcParams>)
        ensures
            r == self.spec_as_erc20(),
    {
        match (self.ledger, self.asset, self.redeem_identity, self.refund_identity) {
            (
                Ledger::Ethereum(ledger),
                Asset::Erc20(asset),
                Identity::Ethereum(redeem_identity),
                Identity::Ethereum(refund_identity),
            ) => Some(
                HtlcParams {
                    asset,
                    ledger,
                    redeem_identity,
                    refund_identity,
                    expiry: self.expiry,
                    secret_hash: self.secret_hash,
                },
            ),
            _ => None,
        }
    }
}

} // verus!
