//! Instructions for a contract that holds ERC20 tokens.

use crate::actions::{CallContract, CallContractView, DeployContract, DeployContractView};
use crate::asset::{EthereumAddress, U256};
use crate::bytes::bytes_to_vec;
use crate::contracts::{
    erc20_transfer_call_data, erc20_transfer_payload, herc20_contract, herc20_contract_code,
};
use crate::htlc_params::Erc20HtlcParams;
use crate::ledger::Timestamp;
use crate::secret::Secret;
use blockchain_contracts::ethereum::herc20;
use vstd::prelude::*;

verus! {

/// The instruction that creates a token contract. No ether is sent along.
pub open spec fn spec_deploy_action(htlc_params: Erc20HtlcParams) -> DeployContractView {
    DeployContractView {
        data: herc20_contract(
            htlc_params.expiry.0,
            htlc_params.refund_identity.0@,
            htlc_params.redeem_identity.0@,
            htlc_params.secret_hash@,
            htlc_params.asset.token_contract.0@,
            htlc_params.asset.quantity.high,
            htlc_params.asset.quantity.low,
        ),
        amount: U256 { high: 0, low: 0 },
        gas_limit: 160_000,
        chain_id: htlc_params.ledger.chain_id,
    }
}

/// The instruction that funds a token contract: a call of the token's own
/// contract that moves the agreed quantity to the swap contract.
pub open spec fn spec_fund_action(
    htlc_params: Erc20HtlcParams,
    to_erc20_contract: EthereumAddress,
    htlc_location: EthereumAddress,
) -> CallContractView {
    CallContractView {
        to: to_erc20_contract,
        data: Some(
            erc20_transfer_payload(
                htlc_params.asset.quantity.high,
                htlc_params.asset.quantity.low,
                htlc_location.0@,
            ),
        ),
        gas_limit: 100_000,
        chain_id: htlc_params.ledger.chain_id,
        min_block_timestamp: None,
    }
}

/// The instruction that takes the refund of a token contract: a call
/// without data, which cannot succeed before the expiry.
pub open spec fn spec_refund_action(
    chain_id: u32,
    expiry: Timestamp,
    htlc_location: EthereumAddress,
) -> CallContractView {
    CallContractView {
        to: htlc_location,
        data: None,
        gas_limit: 100_000,
        chain_id,
        min_block_timestamp: Some(expiry),
    }
}

/// The instruction that redeems a token contract: a call with the secret as
/// its data.
pub open spec fn spec_redeem_action(
    htlc_location: EthereumAddress,
    secret: Seq<u8>,
    chain_id: u32,
) -> CallContractView {
    CallContractView {
        to: htlc_location,
        data: Some(secret),
        gas_limit: 100_000,
        chain_id,
        min_block_timestamp: None,
    }
}

/// How to create a token contract.
pub fn deploy_action(htlc_params: Erc20HtlcParams) -> (r: DeployContract)
    ensures
        r@ == spec_deploy_action(htlc_params),
{
    let data = herc20_contract_code(
        htlc_params.expiry.0,
        &htlc_params.refund_identity,
        &htlc_params.redeem_identity,
        htlc_params.secret_hash.as_raw(),
        &htlc_params.asset.token_contract,
        htlc_params.asset.quantity,
    );
    let gas_limit = herc20::Htlc::deploy_tx_gas_limit();
    DeployContract {
        data,
        amount: U256 { high: 0, low: 0 },
        gas_limit,
        chain_id: htlc_params.ledger.chain_id,
    }
}

/// How to fund the token contract at `htlc_location`.
pub fn fund_action(
    htlc_params: Erc20HtlcParams,
    to_erc20_contract: EthereumAddress,
    htlc_location: EthereumAddress,
) -> (r: CallContract)
    ensures
        r@ == spec_fund_action(htlc_params, to_erc20_contract, htlc_location),
{
    let gas_limit = herc20::Htlc::fund_tx_gas_limit();
    let data = erc20_transfer_call_data(htlc_params.asset.quantity, &htlc_location);
    CallContract {
        to: to_erc20_contract,
        data: Some(data),
        gas_limit,
        chain_id: htlc_params.ledger.chain_id,
        min_block_timestamp: None,
    }
}

/// How to take the refund of the token contract at `htlc_location`.
pub fn refund_action(chain_id: u32, expiry: Timestamp, htlc_location: EthereumAddress) -> (r:
    CallContract)
    ensures
        r@ == spec_refund_action(chain_id, expiry, htlc_location),
{
    let gas_limit = herc20::Htlc::refund_tx_gas_limit();
    CallContract {
        to: htlc_location,
        data: None,
        gas_limit,
        chain_id,
        min_block_timestamp: Some(expiry),
    }
}

/// How to redeem the token contract at `htlc_location` with `secret`.
pub fn redeem_action(htlc_location: EthereumAddress, secret: Secret, chain_id: u32) -> (r:
    CallContract)
    ensures
        r@ == spec_redeem_action(htlc_location, secret@, chain_id),
{
    let data = bytes_to_vec(secret.as_raw_secret());
    let gas_limit = herc20::Htlc::redeem_tx_gas_limit();
    CallContract {
        to: htlc_location,
        data: Some(data),
        gas_limit,
        chain_id,
        min_block_timestamp: None,
    }
}

} // verus!
