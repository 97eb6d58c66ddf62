//! Instructions for a contract that holds ether.

use crate::actions::{CallContract, CallContractView, DeployContract, DeployContractView};
use crate::asset::EthereumAddress;
use crate::bytes::bytes_to_vec;
use crate::contracts::{heth_contract, heth_contract_code};
use crate::htlc_params::EtherHtlcParams;
use crate::secret::Secret;
use crate::seed::SwapSeed;
use crate::transaction::EthereumTransaction;
use blockchain_contracts::ethereum::heth;
use vstd::prelude::*;

verus! {

/// The instruction that funds an ether contract: its creation, with the
/// amount sent along.
pub open spec fn spec_fund_action(htlc_params: EtherHtlcParams) -> DeployContractView {
    DeployContractView {
        data: heth_contract(
            htlc_params.expiry.0,
            htlc_params.refund_identity.0@,
            htlc_params.redeem_identity.0@,
            htlc_params.secret_hash@,
        ),
        amount: htlc_params.asset,
        gas_limit: 130_000,
        chain_id: htlc_params.ledger.chain_id,
    }
}

/// The instruction that takes the refund of an ether contract: a call
/// without data, which cannot succeed before the expiry.
pub open spec fn spec_refund_action(
    htlc_params: EtherHtlcParams,
    htlc_location: EthereumAddress,
) -> CallContractView {
    CallContractView {
        to: htlc_location,
        data: None,
        gas_limit: 100_000,
        chain_id: htlc_params.ledger.chain_id,
        min_block_timestamp: Some(htlc_params.expiry),
    }
}

/// The instruction that redeems an ether contract: a call with the secret as
/// its data.
pub open spec fn spec_redeem_action(
    htlc_params: EtherHtlcParams,
    htlc_location: EthereumAddress,
    secret: Seq<u8>,
) -> CallContractView {
    CallContractView {
        to: htlc_location,
        data: Some(secret),
        gas_limit: 100_000,
        chain_id: htlc_params.ledger.chain_id,
        min_block_timestamp: None,
    }
}

/// How to fund an ether contract.
pub fn fund_action(htlc_params: EtherHtlcParams) -> (r: DeployContract)
    ensures
        r@ == spec_fund_action(htlc_params),
{
    let data = heth_contract_code(
        htlc_params.expiry.0,
        &htlc_params.refund_identity,
        &htlc_params.redeem_identity,
        htlc_params.secret_hash.as_raw(),
    );
    let gas_limit = heth::Htlc::deploy_tx_gas_limit();
    DeployContract {
        data,
        amount: htlc_params.asset,
        gas_limit,
        chain_id: htlc_params.ledger.chain_id,
    }
}

/// How to take the refund of the ether contract at `htlc_location`.
pub fn refund_action(
    htlc_params: EtherHtlcParams,
    htlc_location: EthereumAddress,
    _secret_source: &SwapSeed,
    _fund_transaction: &EthereumTransaction,
) -> (r: CallContract)
    ensures
        r@ == spec_refund_action(htlc_params, htlc_location),
{
    let gas_limit = heth::Htlc::refund_tx_gas_limit();
    CallContract {
        to: htlc_location,
        data: None,
        gas_limit,
        chain_id: htlc_params.ledger.chain_id,
        min_block_timestamp: Some(htlc_params.expiry),
    }
}

/// How to redeem the ether contract at `htlc_location` with `secret`.
pub fn redeem_action(
    htlc_params: EtherHtlcParams,
    htlc_location: EthereumAddress,
    _secret_source: &SwapSeed,
    secret: Secret,
) -> (r: CallContract)
    ensures
        r@ == spec_redeem_action(htlc_params, htlc_location, secret@),
{
    let data = bytes_to_vec(secret.as_raw_secret());
    let gas_limit = heth::Htlc::redeem_tx_gas_limit();
    CallContract {
        to: htlc_location,
        data: Some(data),
        gas_limit,
        chain_id: htlc_params.ledger.chain_id,
        min_block_timestamp: None,
    }
}

} // verus!
