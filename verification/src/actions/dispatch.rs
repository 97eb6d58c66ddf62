//! Picks the instruction that fits the ledger and asset of a contract.

use crate::actions::btc;
use crate::actions::erc20;
use crate::actions::ether;
use crate::actions::{Action, ActionView, LedgerAction, LedgerActionView};
use crate::asset::{Asset, Identity};
use crate::htlc_params::HtlcParams;
use crate::ledger::Ledger;
use crate::secret::Secret;
use crate::seed::SwapSeed;
use crate::transaction::{HtlcLocation, Transaction};
use vstd::prelude::*;

verus! {

/// The parameters of a contract whose ledger, asset and identities are not
/// yet known to fit each other.
pub type AnyHtlcParams = HtlcParams<Ledger, Asset, Identity>;

/// The first step towards a funded contract: funding it, or, for tokens,
/// creating it. Nothing where the parts of the parameters do not fit.
pub open spec fn spec_start_action(htlc_params: AnyHtlcParams) -> Option<ActionView> {
    if let Some(params) = htlc_params.spec_as_bitcoin() {
        Some(
            ActionView::Fund(
                LedgerActionView::BitcoinSendToAddress(btc::spec_fund_action(params)),
            ),
        )
    } else if let Some(params) = htlc_params.spec_as_ether() {
        Some(
            ActionView::Fund(
                LedgerActionView::EthereumDeployContract(ether::spec_fund_action(params)),
            ),
        )
    } else if let Some(params) = htlc_params.spec_as_erc20() {
        Some(
            ActionView::Deploy(
                LedgerActionView::EthereumDeployContract(erc20::spec_deploy_action(params)),
            ),
        )
    } else {
        None
    }
}

/// The funding of a contract that exists but holds nothing yet: a token
/// contract at an Ethereum address. Nothing otherwise.
pub open spec fn spec_fund_deployed_action(
    htlc_params: AnyHtlcParams,
    htlc_location: HtlcLocation,
) -> Option<ActionView> {
    match (htlc_params.spec_as_erc20(), htlc_location) {
        (Some(params), HtlcLocation::Ethereum(address)) => Some(
            ActionView::Fund(
                LedgerActionView::EthereumCallContract(
                    erc20::spec_fund_action(params, params.asset.token_contract, address),
                ),
            ),
        ),
        _ => None,
    }
}

/// The refund of the contract at `htlc_location`. Nothing where the parts do
/// not fit each other, or where the Bitcoin refund cannot be built.
pub open spec fn spec_refund_action(
    htlc_params: AnyHtlcParams,
    htlc_location: HtlcLocation,
    secret_source: SwapSeed,
    fund_transaction: Transaction,
) -> Option<ActionView> {
    if let Some(params) = htlc_params.spec_as_bitcoin() {
        match (htlc_location, fund_transaction) {
            (HtlcLocation::Bitcoin(outpoint), Transaction::Bitcoin(transaction)) => {
                match btc::spec_refund_action(params, outpoint, secret_source, transaction) {
                    Some(spend) => Some(
                        ActionView::Refund(LedgerActionView::BitcoinSpendOutput(spend)),
                    ),
                    None => None,
                }
            },
            _ => None,
        }
    } else if let Some(params) = htlc_params.spec_as_ether() {
        match (htlc_location, fund_transaction) {
            (HtlcLocation::Ethereum(address), Transaction::Ethereum(_)) => Some(
                ActionView::Refund(
                    LedgerActionView::EthereumCallContract(
                        ether::spec_refund_action(params, address),
                    ),
                ),
            ),
            _ => None,
        }
    } else if let Some(params) = htlc_params.spec_as_erc20() {
        match htlc_location {
            HtlcLocation::Ethereum(address) => Some(
                ActionView::Refund(
                    LedgerActionView::EthereumCallContract(
                        erc20::spec_refund_action(params.ledger.chain_id, params.expiry, address),
                    ),
                ),
            ),
            _ => None,
        }
    } else {
        None
    }
}

/// The redeem of the contract at `htlc_location` with `secret`. Nothing where
/// the parts do not fit each other, or where the Bitcoin redeem cannot be
/// built.
pub open spec fn spec_redeem_action(
    htlc_params: AnyHtlcParams,
    htlc_location: HtlcLocation,
    secret_source: SwapSeed,
    secret: Seq<u8>,
) -> Option<ActionView> {
    if let Some(params) = htlc_params.spec_as_bitcoin() {
        match htlc_location {
            HtlcLocation::Bitcoin(outpoint) => {
                match btc::spec_redeem_action(params, outpoint, secret_source, secret) {
                    Some(spend) => Some(
                        ActionView::Redeem(LedgerActionView::BitcoinSpendOutput(spend)),
                    ),
                    None => None,
                }
            },
            _ => None,
        }
    } else if let Some(params) = htlc_params.spec_as_ether() {
        match htlc_location {
            HtlcLocation::Ethereum(address) => Some(
                ActionView::Redeem(
                    LedgerActionView::EthereumCallContract(
                        ether::spec_redeem_action(params, address, secret),
                    ),
                ),
            ),
            _ => None,
        }
    } else if let Some(params) = htlc_params.spec_as_erc20() {
        match htlc_location {
            HtlcLocation::Ethereum(address) => Some(
                ActionView::Redeem(
                    LedgerActionView::EthereumCallContract(
                        erc20::spec_redeem_action(address, secret, params.ledger.chain_id),
                    ),
                ),
            ),
            _ => None,
        }
    } else {
        None
    }
}

/// The mathematical value of an action that may be missing.
pub open spec fn optional_view(action: Option<Action>) -> Option<ActionView> {
    match action {
        Some(action) => Some(action@),
        None => None,
    }
}

/// The first step towards a funded contract.
pub fn start_action(htlc_params: &AnyHtlcParams) -> (r: Option<Action>)
    ensures
        optional_view(r) == spec_start_action(*htlc_params),
{
    if let Some(params) = htlc_params.as_bitcoin() {
        Some(Action::Fund(LedgerAction::BitcoinSendToAddress(btc::fund_action(params))))
    } else if let Some(params) = htlc_params.as_ether() {
        Some(Action::Fund(LedgerAction::EthereumDeployContract(ether::fund_action(params))))
    } else if let Some(params) = htlc_params.as_erc20() {
        Some(Action::Deploy(LedgerAction::EthereumDeployContract(erc20::deploy_action(params))))
    } else {
        None
    }
}

/// The funding of a contract that exists but holds nothing yet.
pub fn fund_deployed_action(htlc_params: &AnyHtlcParams, htlc_location: &HtlcLocation) -> (r:
    Option<Action>)
    ensures
        optional_view(r) == spec_fund_deployed_action(*htlc_params, *htlc_location),
{
    match (htlc_params.as_erc20(), htlc_location) {
        (Some(params), HtlcLocation::Ethereum(address)) => Some(
            Action::Fund(
                LedgerAction::EthereumCallContract(
                    erc20::fund_action(params, params.asset.token_contract, *address),
                ),
            ),
        ),
        _ => None,
    }
}

/// The refund of the contract at `htlc_location`.
pub fn refund_action(
    htlc_params: &AnyHtlcParams,
    htlc_location: &HtlcLocation,
    secret_source: &SwapSeed,
    fund_transaction: &Transaction,
) -> (r: Option<Action>)
    ensures
        optional_view(r) == spec_refund_action(
            *htlc_params,
            *htlc_location,
            *secret_source,
            *fund_transaction,
        ),
{
    if let Some(params) = htlc_params.as_bitcoin() {
        match (htlc_location, fund_transaction) {
            (HtlcLocation::Bitcoin(outpoint), Transaction::Bitcoin(transaction)) => {
                match btc::refund_action(params, *outpoint, secret_source, transaction) {
                    Some(spend) => Some(Action::Refund(LedgerAction::BitcoinSpendOutput(spend))),
                    None => None,
                }
            },
            _ => None,
        }
    } else if let Some(params) = htlc_params.as_ether() {
        match (htlc_location, fund_transaction) {
            (HtlcLocation::Ethereum(address), Transaction::Ethereum(transaction)) => Some(
                Action::Refund(
                    LedgerAction::EthereumCallContract(
                        ether::refund_action(params, *address, secret_source, transaction),
                    ),
                ),
            ),
            _ => None,
        }
    } else if let Some(params) = htlc_params.as_erc20() {
        match htlc_location {
            HtlcLocation::Ethereum(address) => Some(
                Action::Refund(
                    LedgerAction::EthereumCallContract(
                        erc20::refund_action(params.ledger.chain_id, params.expiry, *address),
                    ),
                ),
            ),
            _ => None,
        }
    } else {
        None
    }
}

/// The redeem of the contract at `htlc_location` with `secret`.
pub fn redeem_action(
    htlc_params: &AnyHtlcParams,
    htlc_location: &HtlcLocation,
    secret_source: &SwapSeed,
    secret: Secret,
) -> (r: Option<Action>)
    ensures
        optional_view(r) == spec_redeem_action(
            *htlc_params,
            *htlc_location,
            *secret_source,
            secret@,
        ),
{
    if let Some(params) = htlc_params.as_bitcoin() {
        match htlc_location {
            HtlcLocation::Bitcoin(outpoint) => {
                match btc::redeem_action(params, *outpoint, secret_source, secret) {
                    Some(spend) => Some(Action::Redeem(LedgerAction::BitcoinSpendOutput(spend))),
                    None => None,
                }
            },
            _ => None,
        }
    } else if let Some(params) = htlc_params.as_ether() {
        match htlc_location {
            HtlcLocation::Ethereum(address) => Some(
                Action::Redeem(
                    LedgerAction::EthereumCallContract(
                        ether::redeem_action(params, *address, secret_source, secret),
                    ),
                ),
            ),
            _ => None,
        }
    } else if let Some(params) = htlc_params.as_erc20() {
        match htlc_location {
            HtlcLocation::Ethereum(address) => Some(
                Action::Redeem(
                    LedgerAction::EthereumCallContract(
                        erc20::redeem_action(*address, secret, params.ledger.chain_id),
                    ),
                ),
            ),
            _ => None,
        }
    } else {
        None
    }
}

} // verus!
