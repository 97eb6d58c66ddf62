//! Turns the transactions that a watcher finds on an Ethereum-family ledger
//! into the events of a contract's life.

use crate::asset::{Erc20, EthereumAddress, U256};
use crate::bytes::{bytes_eq, bytes_to_vec};
use crate::contracts::{
    herc20_contract, herc20_contract_code, heth_contract, heth_contract_code,
};
use crate::htlc_events::{extract_secret_from_call, is_secret_for};
use crate::htlc_params::{Erc20HtlcParams, EtherHtlcParams};
use crate::ledger::Timestamp;
use crate::ledger_state::{Deployed, Funded, Redeemed, Refunded};
use crate::secret::{sha256, SecretHash};
use crate::transaction::EthereumTransaction;
use vstd::prelude::*;

verus! {

/// A movement of tokens that a token contract has logged.
#[derive(Clone, Debug, PartialEq, Eq)]
pub struct Erc20Transfer {
    /// The transaction that moved the tokens.
    pub transaction: EthereumTransaction,
    /// The token contract that logged the movement.
    pub token_contract: EthereumAddress,
    /// Who received the tokens.
    pub to: EthereumAddress,
    pub quantity: U256,
}

/// Whether a transaction creates a contract with exactly this code.
pub open spec fn creates_contract(transaction: EthereumTransaction, code: Seq<u8>) -> bool {
    transaction.to is None && transaction.input@ == code
}

/// Whether a transaction calls the contract at `location`.
pub open spec fn calls(transaction: EthereumTransaction, location: EthereumAddress) -> bool {
    transaction.to == Some(location)
}

/// The code of the ether contract with these parameters.
pub open spec fn ether_code(htlc_params: EtherHtlcParams) -> Seq<u8> {
    heth_contract(
        htlc_params.expiry.0,
        htlc_params.refund_identity.0@,
        htlc_params.redeem_identity.0@,
        htlc_params.secret_hash@,
    )
}

/// The code of the token contract with these parameters.
pub open spec fn erc20_code(htlc_params: Erc20HtlcParams) -> Seq<u8> {
    herc20_contract(
        htlc_params.expiry.0,
        htlc_params.refund_identity.0@,
        htlc_params.redeem_identity.0@,
        htlc_params.secret_hash@,
        htlc_params.asset.token_contract.0@,
        htlc_params.asset.quantity.high,
        htlc_params.asset.quantity.low,
    )
}

impl EthereumTransaction {
    /// A copy of this transaction.
    pub fn duplicate(&self) -> (r: EthereumTransaction)
        ensures
            r.hash == self.hash,
            r.to == self.to,
            r.value == self.value,
            r.input@ == self.input@,
    {
        EthereumTransaction {
            hash: self.hash,
            to: self.to,
            value: self.value,
            input: bytes_to_vec(self.input.as_slice()),
        }
    }

    /// Whether this transaction calls the contract at `location`.
    pub fn is_call_of(&self, location: &EthereumAddress) -> (r: bool)
        ensures
            r == calls(*self, *location),
    {
        match &self.to {
            Some(to) => to.same(location),
            None => false,
        }
    }
}

/// The deployment, if `transaction` creates a contract with code `code`.
fn deployment_of(
    code: Vec<u8>,
    transaction: EthereumTransaction,
    contract_address: EthereumAddress,
) -> (r: Option<Deployed<EthereumTransaction, EthereumAddress>>)
    ensures
        r is Some <==> creates_contract(transaction, code@),
        r matches Some(deployed) ==> deployed.transaction == transaction && deployed.location
            == contract_address,
{
    if transaction.to.is_none() && bytes_eq(transaction.input.as_slice(), code.as_slice()) {
        Some(Deployed { transaction, location: contract_address })
    } else {
        None
    }
}

/// The deployment that `transaction` makes of the ether contract with these
/// parameters, at the address that its receipt gave: the transaction must
/// create a contract with exactly the code of these parameters.
pub fn ether_htlc_deployed(
    htlc_params: &EtherHtlcParams,
    transaction: EthereumTransaction,
    contract_address: EthereumAddress,
) -> (r: Option<Deployed<EthereumTransaction, EthereumAddress>>)
    ensures
        r is Some <==> creates_contract(transaction, ether_code(*htlc_params)),
        r matches Some(deployed) ==> deployed.transaction == transaction && deployed.location
            == contract_address,
{
    let code = heth_contract_code(
        htlc_params.expiry.0,
        &htlc_params.refund_identity,
        &htlc_params.redeem_identity,
        htlc_params.secret_hash.as_raw(),
    );
    deployment_of(code, transaction, contract_address)
}

/// The deployment that `transaction` makes of the token contract with these
/// parameters, at the address that its receipt gave.
pub fn erc20_htlc_deployed(
    htlc_params: &Erc20HtlcParams,
    transaction: EthereumTransaction,
    contract_address: EthereumAddress,
) -> (r: Option<Deployed<EthereumTransaction, EthereumAddress>>)
    ensures
        r is Some <==> creates_contract(transaction, erc20_code(*htlc_params)),
        r matches Some(deployed) ==> deployed.transaction == transaction && deployed.location
            == contract_address,
{
    let code = herc20_contract_code(
        htlc_params.expiry.0,
        &htlc_params.refund_identity,
        &htlc_params.redeem_identity,
        htlc_params.secret_hash.as_raw(),
        &htlc_params.asset.token_contract,
        htlc_params.asset.quantity,
    );
    deployment_of(code, transaction, contract_address)
}

/// The funding of an ether contract: the transaction that created it, with
/// the ether that it sent along.
pub fn ether_htlc_funded(
    _htlc_params: &EtherHtlcParams,
    htlc_deployment: &Deployed<EthereumTransaction, EthereumAddress>,
) -> (r: Funded<EthereumTransaction, U256>)
    ensures
        r.asset == htlc_deployment.transaction.value,
        r.transaction.hash == htlc_deployment.transaction.hash,
        r.transaction.to == htlc_deployment.transaction.to,
        r.transaction.value == htlc_deployment.transaction.value,
        r.transaction.input@ == htlc_deployment.transaction.input@,
{
    Funded {
        transaction: htlc_deployment.transaction.duplicate(),
        asset: htlc_deployment.transaction.value,
    }
}

/// The funding of a token contract by a logged movement of tokens: the
/// tokens must be those of the agreed token contract and go to the swap
/// contract. The quantity is what was moved, be it the agreed one or not.
pub fn erc20_htlc_funded(
    htlc_params: &Erc20HtlcParams,
    htlc_deployment: &Deployed<EthereumTransaction, EthereumAddress>,
    transfer: Erc20Transfer,
) -> (r: Option<Funded<EthereumTransaction, Erc20>>)
    ensures
        r is Some <==> transfer.to == htlc_deployment.location && transfer.token_contract
            == htlc_params.asset.token_contract,
        r matches Some(funded) ==> funded.transaction == transfer.transaction && funded.asset == (
        Erc20 { token_contract: transfer.token_contract, quantity: transfer.quantity }),
{
    if transfer.to.same(&htlc_deployment.location) && transfer.token_contract.same(
        &htlc_params.asset.token_contract,
    ) {
        Some(
            Funded {
                asset: Erc20 {
                    token_contract: transfer.token_contract,
                    quantity: transfer.quantity,
                },
                transaction: transfer.transaction,
            },
        )
    } else {
        None
    }
}

/// The redeem that `transaction` makes of the contract: a call of the
/// contract whose data is a secret that opens `secret_hash`.
pub fn htlc_redeemed(
    secret_hash: &SecretHash,
    htlc_deployment: &Deployed<EthereumTransaction, EthereumAddress>,
    transaction: EthereumTransaction,
) -> (r: Option<Redeemed<EthereumTransaction>>)
    ensures
        r is Some <==> calls(transaction, htlc_deployment.location) && is_secret_for(
            transaction.input@,
            secret_hash@,
        ),
        r matches Some(redeemed) ==> redeemed.transaction == transaction && redeemed.secret@
            == transaction.input@ && sha256(redeemed.secret@) == secret_hash@,
{
    if !transaction.is_call_of(&htlc_deployment.location) {
        return None;
    }
    match extract_secret_from_call(&transaction, secret_hash) {
        Some(secret) => Some(Redeemed { transaction, secret }),
        None => None,
    }
}

/// The refund that `transaction` makes of the contract: a call of the
/// contract without data, in a block mined at `block_time`, which is not
/// before the expiry.
pub fn htlc_refunded(
    expiry: Timestamp,
    htlc_deployment: &Deployed<EthereumTransaction, EthereumAddress>,
    transaction: EthereumTransaction,
    block_time: Timestamp,
) -> (r: Option<Refunded<EthereumTransaction>>)
    ensures
        r is Some <==> calls(transaction, htlc_deployment.location) && transaction.input@.len()
            == 0 && block_time.0 >= expiry.0,
        r matches Some(refunded) ==> refunded.transaction == transaction,
{
    if transaction.is_call_of(&htlc_deployment.location) && transaction.input.len() == 0
        && block_time.0 >= expiry.0 {
        Some(Refunded { transaction })
    } else {
        None
    }
}

} // verus!
