//! The contract templates and limits of the `blockchain_contracts` crate.

use crate::actions::{InputParameters, InputParametersView, WitnessItem, WitnessItemView};
use crate::asset::{EthereumAddress, PubkeyHash, U256};
use crate::secret::sha256;
use bitcoin::hashes::hash160;
use blockchain_contracts::bitcoin::hbit;
use blockchain_contracts::ethereum::{herc20, heth};
use vstd::prelude::*;

verus! {

/// The code that `heth::Htlc::new` builds for an ether contract with these
/// parameters.
pub uninterp spec fn heth_contract(
    expiry: u32,
    refund_identity: Seq<u8>,
    redeem_identity: Seq<u8>,
    secret_hash: Seq<u8>,
) -> Seq<u8>;

/// The code that `herc20::Htlc::new` builds for a token contract with these
/// parameters. The quantity is given by its upper and lower 128 bits.
pub uninterp spec fn herc20_contract(
    expiry: u32,
    refund_identity: Seq<u8>,
    redeem_identity: Seq<u8>,
    secret_hash: Seq<u8>,
    token_contract: Seq<u8>,
    quantity_high: u128,
    quantity_low: u128,
) -> Seq<u8>;

/// The call data that `herc20::Htlc::transfer_erc20_tx_payload` builds to
/// move a quantity of tokens, given by its upper and lower 128 bits, to an
/// address.
pub uninterp spec fn erc20_transfer_payload(
    quantity_high: u128,
    quantity_low: u128,
    to: Seq<u8>,
) -> Seq<u8>;

/// `heth::Htlc::deploy_tx_gas_limit` returns the constant 130,000.
pub assume_specification[ heth::Htlc::deploy_tx_gas_limit ]() -> (limit: u64)
    ensures
        limit == 130_000,
;

/// `heth::Htlc::redeem_tx_gas_limit` returns the constant 100,000.
pub assume_specification[ heth::Htlc::redeem_tx_gas_limit ]() -> (limit: u64)
    ensures
        limit == 100_000,
;

/// `heth::Htlc::refund_tx_gas_limit` returns the constant 100,000.
pub assume_specification[ heth::Htlc::refund_tx_gas_limit ]() -> (limit: u64)
    ensures
        limit == 100_000,
;

/// `herc20::Htlc::deploy_tx_gas_limit` returns the constant 160,000.
pub assume_specification[ herc20::Htlc::deploy_tx_gas_limit ]() -> (limit: u64)
    ensures
        limit == 160_000,
;

/// `herc20::Htlc::fund_tx_gas_limit` returns the constant 100,000.
pub assume_specification[ herc20::Htlc::fund_tx_gas_limit ]() -> (limit: u64)
    ensures
        limit == 100_000,
;

/// `herc20::Htlc::redeem_tx_gas_limit` returns the constant 100,000.
pub assume_specification[ herc20::Htlc::redeem_tx_gas_limit ]() -> (limit: u64)
    ensures
        limit == 100_000,
;

/// `herc20::Htlc::refund_tx_gas_limit` returns the constant 100,000.
pub assume_specification[ herc20::Htlc::refund_tx_gas_limit ]() -> (limit: u64)
    ensures
        limit == 100_000,
;

/// Builds the code of an ether contract with `heth::Htlc::new` and takes its
/// bytes. The contract names the code; nothing else is claimed of it.
#[verifier::external_body]
pub(crate) fn heth_contract_code(
    expiry: u32,
    refund_identity: &EthereumAddress,
    redeem_identity: &EthereumAddress,
    secret_hash: &[u8; 32],
) -> (code: Vec<u8>)
    ensures
        code@ == heth_contract(expiry, refund_identity.0@, redeem_identity.0@, secret_hash@),
{
    let refund = blockchain_contracts::ethereum::Address(refund_identity.0);
    let redeem = blockchain_contracts::ethereum::Address(redeem_identity.0);
    heth::Htlc::new(expiry, refund, redeem, *secret_hash).into()
}

/// Builds the code of a token contract with `herc20::Htlc::new` and takes its
/// bytes. The contract names the code; nothing else is claimed of it.
#[verifier::external_body]
pub(crate) fn herc20_contract_code(
    expiry: u32,
    refund_identity: &EthereumAddress,
    redeem_identity: &EthereumAddress,
    secret_hash: &[u8; 32],
    token_contract: &EthereumAddress,
    quantity: U256,
) -> (code: Vec<u8>)
    ensures
        code@ == herc20_contract(
            expiry,
            refund_identity.0@,
            redeem_identity.0@,
            secret_hash@,
            token_contract.0@,
            quantity.high,
            quantity.low,
        ),
{
    let refund = blockchain_contracts::ethereum::Address(refund_identity.0);
    let redeem = blockchain_contracts::ethereum::Address(redeem_identity.0);
    let token = blockchain_contracts::ethereum::Address(token_contract.0);
    let mut amount = [0u8; 32];
    amount[..16].copy_from_slice(&quantity.high.to_be_bytes());
    amount[16..].copy_from_slice(&quantity.low.to_be_bytes());
    let amount = blockchain_contracts::ethereum::TokenQuantity(amount);
    herc20::Htlc::new(expiry, refund, redeem, *secret_hash, token, amount).into()
}

/// Builds the call data of a token transfer with
/// `herc20::Htlc::transfer_erc20_tx_payload`. The contract names the data;
/// nothing else is claimed of it.
#[verifier::external_body]
pub(crate) fn erc20_transfer_call_data(quantity: U256, to: &EthereumAddress) -> (data: Vec<u8>)
    ensures
        data@ == erc20_transfer_payload(quantity.high, quantity.low, to.0@),
{
    let mut amount = [0u8; 32];
    amount[..16].copy_from_slice(&quantity.high.to_be_bytes());
    amount[16..].copy_from_slice(&quantity.low.to_be_bytes());
    let amount = blockchain_contracts::ethereum::TokenQuantity(amount);
    herc20::Htlc::transfer_erc20_tx_payload(amount, blockchain_contracts::ethereum::Address(to.0))
}

#[verifier::external_type_specification]
#[verifier::external_body]
pub struct ExWitness(blockchain_contracts::bitcoin::witness::Witness);

/// The script that `hbit::Htlc::new` builds for a Bitcoin contract with these
/// parameters.
pub uninterp spec fn hbit_script(
    expiry: u32,
    refund_identity: Seq<u8>,
    redeem_identity: Seq<u8>,
    secret_hash: Seq<u8>,
) -> Seq<u8>;

/// Whether `secp256k1::SecretKey::from_slice` takes these bytes as a key.
pub uninterp spec fn secp256k1_secret_key_valid(key: Seq<u8>) -> bool;

/// The witness with which `hbit::Htlc::unlock_with_secret` redeems.
pub open spec fn redeem_witness(secret: Seq<u8>) -> Seq<WitnessItemView> {
    seq![
        WitnessItemView::Signature,
        WitnessItemView::PublicKey,
        WitnessItemView::Data(secret),
        WitnessItemView::Bool(true),
        WitnessItemView::PrevScript,
    ]
}

/// The witness with which `hbit::Htlc::unlock_after_timeout` takes the
/// refund.
pub open spec fn refund_witness() -> Seq<WitnessItemView> {
    seq![
        WitnessItemView::Signature,
        WitnessItemView::PublicKey,
        WitnessItemView::Bool(false),
        WitnessItemView::PrevScript,
    ]
}

/// Asks `secp256k1::SecretKey::from_slice` whether it takes the bytes as a
/// key. The contract names the answer.
#[verifier::external_body]
pub(crate) fn secret_key_is_valid(key: &[u8; 32]) -> (valid: bool)
    ensures
        valid == secp256k1_secret_key_valid(key@),
{
    bitcoin::secp256k1::SecretKey::from_slice(key).is_ok()
}

/// Tells the variants of `blockchain_contracts::bitcoin::witness::Witness`
/// apart, one for one. The keys that a signature and a public key are made
/// from stay with the signer.
#[verifier::external_body]
fn witness_from(item: &blockchain_contracts::bitcoin::witness::Witness) -> WitnessItem {
    match item {
        blockchain_contracts::bitcoin::witness::Witness::Data(data) => WitnessItem::Data(
            data.clone(),
        ),
        blockchain_contracts::bitcoin::witness::Witness::Signature(_) => WitnessItem::Signature,
        blockchain_contracts::bitcoin::witness::Witness::PublicKey(_) => WitnessItem::PublicKey,
        blockchain_contracts::bitcoin::witness::Witness::Bool(flag) => WitnessItem::Bool(*flag),
        blockchain_contracts::bitcoin::witness::Witness::PrevScript => WitnessItem::PrevScript,
    }
}

/// Builds the contract with `hbit::Htlc::new` and takes the script of its
/// address from `hbit::Htlc::compute_address`. That address pays to the
/// script's hash as a version 0 witness program: a zero byte, the length 32,
/// and the SHA-256 digest of the script. The network has no part in it.
#[verifier::external_body]
pub(crate) fn hbit_script_pubkey(
    expiry: u32,
    refund_identity: &PubkeyHash,
    redeem_identity: &PubkeyHash,
    secret_hash: &[u8; 32],
) -> (script_pubkey: Vec<u8>)
    ensures
        script_pubkey@ == seq![0u8, 32u8] + sha256(
            hbit_script(expiry, refund_identity.0@, redeem_identity.0@, secret_hash@),
        ),
{
    let refund: hash160::Hash = bitcoin::hashes::Hash::from_inner(refund_identity.0);
    let redeem: hash160::Hash = bitcoin::hashes::Hash::from_inner(redeem_identity.0);
    let htlc = hbit::Htlc::new(expiry, refund, redeem, *secret_hash);
    htlc.compute_address(bitcoin::Network::Regtest).script_pubkey().into_bytes()
}

/// Builds the contract with `hbit::Htlc::new` and asks
/// `hbit::Htlc::unlock_with_secret` how to redeem it: with a signature, the
/// public key, the secret, a true flag and the script, at the sequence number
/// that allows a lock time, with no lock time set.
#[verifier::external_body]
pub(crate) fn hbit_unlock_with_secret(
    expiry: u32,
    refund_identity: &PubkeyHash,
    redeem_identity: &PubkeyHash,
    secret_hash: &[u8; 32],
    key: &[u8; 32],
    secret: &[u8; 32],
) -> (unlock: InputParameters)
    requires
        secp256k1_secret_key_valid(key@),
    ensures
        unlock@ == (InputParametersView {
            witness: redeem_witness(secret@),
            sequence: 0xFFFF_FFFEu32,
            locktime: 0u32,
            prev_script: hbit_script(expiry, refund_identity.0@, redeem_identity.0@, secret_hash@),
        }),
{
    let refund: hash160::Hash = bitcoin::hashes::Hash::from_inner(refund_identity.0);
    let redeem: hash160::Hash = bitcoin::hashes::Hash::from_inner(redeem_identity.0);
    let htlc = hbit::Htlc::new(expiry, refund, redeem, *secret_hash);
    let key = bitcoin::secp256k1::SecretKey::from_slice(key).expect("a valid key");
    let secp = bitcoin::secp256k1::Secp256k1::signing_only();
    let unlock = htlc.unlock_with_secret(&secp, key, *secret);
    InputParameters {
        witness: unlock.witness.iter().map(witness_from).collect(),
        sequence: unlock.sequence,
        locktime: unlock.locktime,
        prev_script: unlock.prev_script.into_bytes(),
    }
}

/// Builds the contract with `hbit::Htlc::new` and asks
/// `hbit::Htlc::unlock_after_timeout` how to take its refund: with a
/// signature, the public key, a false flag and the script, at the sequence
/// number that allows a lock time, with the lock time set to the expiry.
#[verifier::external_body]
pub(crate) fn hbit_unlock_after_timeout(
    expiry: u32,
    refund_identity: &PubkeyHash,
    redeem_identity: &PubkeyHash,
    secret_hash: &[u8; 32],
    key: &[u8; 32],
) -> (unlock: InputParameters)
    requires
        secp256k1_secret_key_valid(key@),
    ensures
        unlock@ == (InputParametersView {
            witness: refund_witness(),
            sequence: 0xFFFF_FFFEu32,
            locktime: expiry,
            prev_script: hbit_script(expiry, refund_identity.0@, redeem_identity.0@, secret_hash@),
        }),
{
    let refund: hash160::Hash = bitcoin::hashes::Hash::from_inner(refund_identity.0);
    let redeem: hash160::Hash = bitcoin::hashes::Hash::from_inner(redeem_identity.0);
    let htlc = hbit::Htlc::new(expiry, refund, redeem, *secret_hash);
    let key = bitcoin::secp256k1::SecretKey::from_slice(key).expect("a valid key");
    let secp = bitcoin::secp256k1::Secp256k1::signing_only();
    let unlock = htlc.unlock_after_timeout(&secp, key);
    InputParameters {
        witness: unlock.witness.iter().map(witness_from).collect(),
        sequence: unlock.sequence,
        locktime: unlock.locktime,
        prev_script: unlock.prev_script.into_bytes(),
    }
}

} // verus!
