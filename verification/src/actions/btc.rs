//! Instructions for a contract on Bitcoin.

use crate::actions::{
    Address, AddressView, SendToAddress, SendToAddressView, SpendOutput, SpendOutputView,
    InputParametersView,
};
use crate::asset::PubkeyHash;
use crate::contracts::{
    hbit_script, hbit_script_pubkey, hbit_unlock_after_timeout, hbit_unlock_with_secret,
    redeem_witness, refund_witness, secp256k1_secret_key_valid, secret_key_is_valid,
};
use crate::htlc_params::BitcoinHtlcParams;
use crate::ledger::{Network, OutPoint};
use crate::secret::{sha256, Secret};
use crate::seed::{redeem_tag, refund_tag, seeded_digest, SwapSeed};
use crate::transaction::BitcoinTransaction;
use vstd::prelude::*;

verus! {

/// The script of the contract with these parameters.
pub open spec fn spec_script(htlc_params: BitcoinHtlcParams) -> Seq<u8> {
    hbit_script(
        htlc_params.expiry.0,
        htlc_params.refund_identity.0@,
        htlc_params.redeem_identity.0@,
        htlc_params.secret_hash@,
    )
}

/// The address of the contract with these parameters: it pays to the hash of
/// the contract's script.
pub open spec fn spec_compute_address(htlc_params: BitcoinHtlcParams) -> AddressView {
    AddressView {
        network: htlc_params.ledger.spec_network(),
        script_pubkey: seq![0u8, 32u8] + sha256(spec_script(htlc_params)),
    }
}

/// The instruction that funds a Bitcoin contract: a payment of the agreed
/// amount to the contract's address.
pub open spec fn spec_fund_action(htlc_params: BitcoinHtlcParams) -> SendToAddressView {
    SendToAddressView {
        to: spec_compute_address(htlc_params),
        amount: htlc_params.asset,
        network: htlc_params.ledger.spec_network(),
    }
}

/// The instruction that redeems the contract at `htlc_location`, if the key
/// derived for redeeming is one that can sign.
pub open spec fn spec_redeem_action(
    htlc_params: BitcoinHtlcParams,
    htlc_location: OutPoint,
    secret_source: SwapSeed,
    secret: Seq<u8>,
) -> Option<SpendOutputView> {
    if secp256k1_secret_key_valid(seeded_digest(secret_source@, redeem_tag())) {
        Some(
            SpendOutputView {
                previous_output: htlc_location,
                value: htlc_params.asset,
                input_parameters: InputParametersView {
                    witness: redeem_witness(secret),
                    sequence: 0xFFFF_FFFEu32,
                    locktime: 0u32,
                    prev_script: spec_script(htlc_params),
                },
                network: htlc_params.ledger.spec_network(),
            },
        )
    } else {
        None
    }
}

/// The instruction that takes the refund of the contract at `htlc_location`,
/// if the funding transaction has that output and the key derived for the
/// refund is one that can sign. It spends what the output holds, and cannot
/// be mined before the expiry.
pub open spec fn spec_refund_action(
    htlc_params: BitcoinHtlcParams,
    htlc_location: OutPoint,
    secret_source: SwapSeed,
    fund_transaction: BitcoinTransaction,
) -> Option<SpendOutputView> {
    if htlc_location.vout < fund_transaction.output@.len() && secp256k1_secret_key_valid(
        seeded_digest(secret_source@, refund_tag()),
    ) {
        Some(
            SpendOutputView {
                previous_output: htlc_location,
                value: fund_transaction.output@[htlc_location.vout as int].value,
                input_parameters: InputParametersView {
                    witness: refund_witness(),
                    sequence: 0xFFFF_FFFEu32,
                    locktime: htlc_params.expiry.0,
                    prev_script: spec_script(htlc_params),
                },
                network: htlc_params.ledger.spec_network(),
            },
        )
    } else {
        None
    }
}

/// The script that pays to the holder of the key with this hash: a version 0
/// witness program of 20 bytes.
pub open spec fn pubkeyhash_script(pubkeyhash: PubkeyHash) -> Seq<u8> {
    seq![0u8, 20u8] + pubkeyhash.0@
}

impl Address {
    /// The address of the holder of the key with hash `pubkeyhash`, on
    /// `network`.
    pub fn from_pubkeyhash_and_network(pubkeyhash: PubkeyHash, network: Network) -> (r: Address)
        ensures
            r@.network == network,
            r@.script_pubkey == pubkeyhash_script(pubkeyhash),
    {
        let mut script_pubkey: Vec<u8> = Vec::new();
        script_pubkey.push(0u8);
        script_pubkey.push(20u8);
        let mut i: usize = 0;
        while i < 20
            invariant
                i <= 20,
                script_pubkey@ == seq![0u8, 20u8] + pubkeyhash.0@.subrange(0, i as int),
            decreases 20 - i,
        {
            script_pubkey.push(pubkeyhash.0[i]);
            assert(script_pubkey@ =~= seq![0u8, 20u8] + pubkeyhash.0@.subrange(0, i + 1));
            i += 1;
        }
        assert(pubkeyhash.0@.subrange(0, 20) =~= pubkeyhash.0@);
        Address { network, script_pubkey }
    }
}

/// The address that a Bitcoin contract with these parameters is funded at.
pub fn compute_address(htlc_params: &BitcoinHtlcParams) -> (r: Address)
    ensures
        r@ == spec_compute_address(*htlc_params),
{
    let script_pubkey = hbit_script_pubkey(
        htlc_params.expiry.0,
        &htlc_params.refund_identity,
        &htlc_params.redeem_identity,
        htlc_params.secret_hash.as_raw(),
    );
    Address { network: htlc_params.ledger.network(), script_pubkey }
}

/// How to fund a Bitcoin contract.
pub fn fund_action(htlc_params: BitcoinHtlcParams) -> (r: SendToAddress)
    ensures
        r@ == spec_fund_action(htlc_params),
{
    let to = compute_address(&htlc_params);
    SendToAddress { to, amount: htlc_params.asset, network: htlc_params.ledger.network() }
}

/// How to redeem the Bitcoin contract at `htlc_location` with `secret`, or
/// nothing where the seed yields no key that can sign.
pub fn redeem_action(
    htlc_params: BitcoinHtlcParams,
    htlc_location: OutPoint,
    secret_source: &SwapSeed,
    secret: Secret,
) -> (r: Option<SpendOutput>)
    ensures
        match r {
            Some(action) => Some(action@),
            None => None,
        } == spec_redeem_action(htlc_params, htlc_location, *secret_source, secret@),
{
    let key = secret_source.derive_redeem_identity();
    if !secret_key_is_valid(&key) {
        return None;
    }
    let input_parameters = hbit_unlock_with_secret(
        htlc_params.expiry.0,
        &htlc_params.refund_identity,
        &htlc_params.redeem_identity,
        htlc_params.secret_hash.as_raw(),
        &key,
        secret.as_raw_secret(),
    );
    Some(
        SpendOutput {
            previous_output: htlc_location,
            value: htlc_params.asset,
            input_parameters,
            network: htlc_params.ledger.network(),
        },
    )
}

/// How to take the refund of the Bitcoin contract at `htlc_location`, or
/// nothing where the funding transaction has no such output or the seed
/// yields no key that can sign.
pub fn refund_action(
    htlc_params: BitcoinHtlcParams,
    htlc_location: OutPoint,
    secret_source: &SwapSeed,
    fund_transaction: &BitcoinTransaction,
) -> (r: Option<SpendOutput>)
    ensures
        match r {
            Some(action) => Some(action@),
            None => None,
        } == spec_refund_action(htlc_params, htlc_location, *secret_source, *fund_transaction),
{
    let vout = htlc_location.vout as usize;
    if vout >= fund_transaction.output.len() {
        return None;
    }
    let key = secret_source.derive_refund_identity();
    if !secret_key_is_valid(&key) {
        return None;
    }
    let input_parameters = hbit_unlock_after_timeout(
        htlc_params.expiry.0,
        &htlc_params.refund_identity,
        &htlc_params.redeem_identity,
        htlc_params.secret_hash.as_raw(),
        &key,
    );
    Some(
        SpendOutput {
            previous_output: htlc_location,
            value: fund_transaction.output[vout].value,
            input_parameters,
            network: htlc_params.ledger.network(),
        },
    )
}

} // verus!
