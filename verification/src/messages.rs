//! The messages by which two parties agree on a swap.

use crate::asset::{Asset, AssetKind, Identity};
use crate::ids::SwapId;
use crate::ledger::{Ledger, LedgerKind, Timestamp};
use crate::secret::SecretHash;
use vstd::prelude::*;

verus! {

/// The hash function that binds the two contracts of a swap.
#[derive(Clone, Copy, Debug, PartialEq, Eq, Structural)]
pub enum HashFunction {
    Sha256,
}

/// A proposal to swap `alpha_asset` on `alpha_ledger` for `beta_asset` on
/// `beta_ledger`.
#[derive(Clone, Copy, Debug, PartialEq)]
pub struct Request {
    pub swap_id: SwapId,
    pub alpha_ledger: Ledger,
    pub beta_ledger: Ledger,
    pub alpha_asset: Asset,
    pub beta_asset: Asset,
    pub hash_function: HashFunction,
    pub alpha_ledger_refund_identity: Identity,
    pub beta_ledger_redeem_identity: Identity,
    pub alpha_expiry: Timestamp,
    pub beta_expiry: Timestamp,
    pub secret_hash: SecretHash,
}

/// The answer that takes a proposal up.
#[derive(Clone, Copy, Debug, PartialEq)]
pub struct Accept {
    pub swap_id: SwapId,
    pub beta_ledger_refund_identity: Identity,
    pub alpha_ledger_redeem_identity: Identity,
}

/// Why a proposal was turned down.
#[derive(Clone, Copy, Debug, PartialEq, Eq, Structural)]
pub enum SwapDeclineReason {
    UnsatisfactoryRate,
    UnsupportedProtocol,
    UnsupportedSwap,
    MissingMandatoryHeader,
    BadJsonField,
}

/// The answer that turns a proposal down.
#[derive(Clone, Copy, Debug, PartialEq)]
pub struct Decline {
    pub swap_id: SwapId,
    pub reason: Option<SwapDeclineReason>,
}

/// How far the two parties have got in agreeing on the swap.
#[derive(Clone, Copy, Debug, PartialEq)]
#[allow(inconsistent_fields)]
pub enum SwapCommunication {
    Proposed { request: Request },
    Accepted { request: Request, response: Accept },
    Declined { request: Request, response: Decline },
}

/// Why a proposal cannot be taken up as it stands.
#[derive(Clone, Copy, Debug, PartialEq, Eq, Structural)]
pub enum ConfigurationError {
    /// The alpha contract does not outlive the beta contract.
    ExpiriesNotOrdered,
    /// The ledgers, assets and identities do not form a pair that can be
    /// swapped.
    UnsupportedAssetPair,
}

/// Whether an asset of this sort lives on a ledger of this family.
pub open spec fn asset_fits_ledger(asset: AssetKind, ledger: LedgerKind) -> bool {
    match (asset, ledger) {
        (AssetKind::Bitcoin, LedgerKind::Bitcoin) => true,
        (AssetKind::Ether, LedgerKind::Ethereum) => true,
        (AssetKind::Erc20, LedgerKind::Ethereum) => true,
        _ => false,
    }
}

/// Whether an identity is of the form that a ledger of this family uses.
pub open spec fn identity_fits_ledger(identity: Identity, ledger: LedgerKind) -> bool {
    match (identity, ledger) {
        (Identity::Bitcoin(_), LedgerKind::Bitcoin) => true,
        (Identity::Ethereum(_), LedgerKind::Ethereum) => true,
        _ => false,
    }
}

fn check_asset_fits_ledger(asset: &Asset, ledger: &Ledger) -> (r: bool)
    ensures
        r == asset_fits_ledger(asset.spec_kind(), ledger.spec_kind()),
{
    match (asset, ledger) {
        (Asset::Bitcoin(_), Ledger::Bitcoin(_)) => true,
        (Asset::Ether(_), Ledger::Ethereum(_)) => true,
        (Asset::Erc20(_), Ledger::Ethereum(_)) => true,
        _ => false,
    }
}

fn check_identity_fits_ledger(identity: &Identity, ledger: &Ledger) -> (r: bool)
    ensures
        r == identity_fits_ledger(*identity, ledger.spec_kind()),
{
    match (identity, ledger) {
        (Identity::Bitcoin(_), Ledger::Bitcoin(_)) => true,
        (Identity::Ethereum(_), Ledger::Ethereum(_)) => true,
        _ => false,
    }
}

impl Request {
    /// Whether the two sides can be swapped for each other: each asset lives
    /// on its ledger, the identities named for a ledger have its form, and the
    /// two ledgers belong to different families.
    pub open spec fn supported_pair(self) -> bool {
        &&& asset_fits_ledger(self.alpha_asset.spec_kind(), self.alpha_ledger.spec_kind())
        &&& asset_fits_ledger(self.beta_asset.spec_kind(), self.beta_ledger.spec_kind())
        &&& identity_fits_ledger(self.alpha_ledger_refund_identity, self.alpha_ledger.spec_kind())
        &&& identity_fits_ledger(self.beta_ledger_redeem_identity, self.beta_ledger.spec_kind())
        &&& self.alpha_ledger.spec_kind() != self.beta_ledger.spec_kind()
    }

    /// Whether the alpha contract expires strictly after the beta contract.
    pub open spec fn expiries_ordered(self) -> bool {
        self.alpha_expiry.0 > self.beta_expiry.0
    }

    /// Whether the proposal may be taken up.
    pub open spec fn acceptable(self) -> bool {
        self.expiries_ordered() && self.supported_pair()
    }

    /// Checks a proposal before it is taken up. The order of the expiries is
    /// looked at first.
    pub fn validate(&self) -> (r: Result<(), ConfigurationError>)
        ensures
            r is Ok <==> self.acceptable(),
            r == Err::<(), ConfigurationError>(ConfigurationError::ExpiriesNotOrdered)
                <==> !self.expiries_ordered(),
            r == Err::<(), ConfigurationError>(ConfigurationError::UnsupportedAssetPair) <==> (
            self.expiries_ordered() && !self.supported_pair()),
    {
        if self.alpha_expiry.0 <= self.beta_expiry.0 {
            return Err(ConfigurationError::ExpiriesNotOrdered);
        }
        let supported = check_asset_fits_ledger(&self.alpha_asset, &self.alpha_ledger)
            && check_asset_fits_ledger(&self.beta_asset, &self.beta_ledger)
            && check_identity_fits_ledger(&self.alpha_ledger_refund_identity, &self.alpha_ledger)
            && check_identity_fits_ledger(&self.beta_ledger_redeem_identity, &self.beta_ledger)
            && self.alpha_ledger.kind() != self.beta_ledger.kind();
        if supported {
            Ok(())
        } else {
            Err(ConfigurationError::UnsupportedAssetPair)
        }
    }
}

impl Accept {
    /// Whether the identities of the answer have the forms that the ledgers of
    /// `request` use.
    pub open spec fn fits(self, request: Request) -> bool {
        &&& identity_fits_ledger(self.alpha_ledger_redeem_identity, request.alpha_ledger.spec_kind())
        &&& identity_fits_ledger(self.beta_ledger_refund_identity, request.beta_ledger.spec_kind())
    }

    /// Whether this answer can stand beside `request`.
    pub fn check_fits(&self, request: &Request) -> (r: bool)
        ensures
            r == self.fits(*request),
    {
        check_identity_fits_ledger(&self.alpha_ledger_redeem_identity, &request.alpha_ledger)
            && check_identity_fits_ledger(&self.beta_ledger_refund_identity, &request.beta_ledger)
    }
}

impl SwapCommunication {
    /// The proposal that the communication started with, in specifications.
    pub open spec fn spec_request(self) -> Request {
        match self {
            SwapCommunication::Proposed { request } => request,
            SwapCommunication::Accepted { request, .. } => request,
            SwapCommunication::Declined { request, .. } => request,
        }
    }

    /// The proposal that the communication started with.
    pub fn request(&self) -> (r: &Request)
        ensures
            *r == self.spec_request(),
    {
        match self {
            SwapCommunication::Proposed { request } => request,
            SwapCommunication::Accepted { request, .. } => request,
            SwapCommunication::Declined { request, .. } => request,
        }
    }
}

} // verus!
