//! Turns the transactions that a watcher finds into the events of a contract's
//! life.

use crate::actions::btc::{compute_address, spec_compute_address};
use crate::actions::Address;
use crate::bytes::bytes_eq;
use crate::htlc_params::BitcoinHtlcParams;
use crate::ledger::OutPoint;
use crate::ledger_state::{Deployed, Funded, Redeemed, Refunded};
use crate::secret::{sha256, Secret, SecretHash};
use crate::transaction::{BitcoinTransaction, EthereumTransaction, TxIn};
use vstd::prelude::*;

verus! {

/// What a watcher looks for in the transactions of a block.
#[derive(Clone, Debug, PartialEq, Eq)]
pub struct TransactionPattern {
    /// An output pays to this address.
    pub to_address: Option<Address>,
    /// That output holds this many satoshi.
    pub amount: Option<u64>,
    /// An input spends this output.
    pub from_outpoint: Option<OutPoint>,
    /// That input's unlock script, which is its witness without the final
    /// script, ends with these items.
    pub unlock_script: Option<Vec<Vec<u8>>>,
}

/// Whether output `index` of the transaction is locked by `script_pubkey`
/// and, where an amount is given, holds that many satoshi.
pub open spec fn output_pays_to(
    transaction: BitcoinTransaction,
    index: int,
    script_pubkey: Seq<u8>,
    amount: Option<u64>,
) -> bool {
    &&& 0 <= index < transaction.output@.len()
    &&& transaction.output@[index].script_pubkey@ == script_pubkey
    &&& amount matches Some(value) ==> transaction.output@[index].value == value
}

/// Whether some output of the transaction is locked by `script_pubkey` and,
/// where an amount is given, holds that many satoshi.
pub open spec fn spends_to(
    transaction: BitcoinTransaction,
    script_pubkey: Seq<u8>,
    amount: Option<u64>,
) -> bool {
    exists|index: int| output_pays_to(transaction, index, script_pubkey, amount)
}

/// Whether the unlock script of a witness ends with `items`: the witness holds
/// them right below its final item, the script.
pub open spec fn unlocks_with(witness: Seq<Vec<u8>>, items: Seq<Vec<u8>>) -> bool {
    &&& witness.len() >= items.len() + 1
    &&& forall|k: int|
        0 <= k < items.len() ==> (#[trigger] witness[witness.len() - 1 - items.len() + k])@
            == items[k]@
}

/// Whether an input is the one a pattern asks for.
pub open spec fn input_matches(
    input: TxIn,
    from_outpoint: Option<OutPoint>,
    unlock_script: Option<Vec<Vec<u8>>>,
) -> bool {
    &&& from_outpoint matches Some(outpoint) ==> input.previous_output == outpoint
    &&& unlock_script matches Some(items) ==> unlocks_with(input.witness@, items@)
}

/// Whether input `index` of the transaction is the one a pattern asks for.
pub open spec fn input_matches_at(
    transaction: BitcoinTransaction,
    index: int,
    from_outpoint: Option<OutPoint>,
    unlock_script: Option<Vec<Vec<u8>>>,
) -> bool {
    0 <= index < transaction.input@.len() && input_matches(
        transaction.input@[index],
        from_outpoint,
        unlock_script,
    )
}

/// Whether a byte string is a secret that opens `hash`.
pub open spec fn is_secret_for(item: Seq<u8>, hash: Seq<u8>) -> bool {
    item.len() == 32 && sha256(item) == hash
}

/// Whether item `item` of the witness of input `input` is a secret that opens
/// `hash`.
pub open spec fn secret_at(transaction: BitcoinTransaction, input: int, item: int, hash: Seq<u8>)
    -> bool {
    &&& 0 <= input < transaction.input@.len()
    &&& 0 <= item < transaction.input@[input].witness@.len()
    &&& is_secret_for(transaction.input@[input].witness@[item]@, hash)
}

/// Whether the place `(input, item)` comes before `(other_input, other_item)`
/// when a transaction's witnesses are read input by input.
pub open spec fn comes_before(input: int, item: int, other_input: int, other_item: int) -> bool {
    input < other_input || (input == other_input && item < other_item)
}

impl TransactionPattern {
    /// Whether the transaction is one this pattern asks for: it pays to the
    /// address, if one is named, the amount that is named with it, and has
    /// an input that spends the outpoint and unlocks as asked, if either is
    /// named.
    pub open spec fn spec_matches(self, transaction: BitcoinTransaction) -> bool {
        &&& self.to_address matches Some(address) ==> spends_to(
            transaction,
            address.script_pubkey@,
            self.amount,
        )
        &&& (self.from_outpoint is Some || self.unlock_script is Some) ==> exists|index: int|
            input_matches_at(transaction, index, self.from_outpoint, self.unlock_script)
    }

    /// Whether the transaction is one this pattern asks for.
    pub fn matches(&self, transaction: &BitcoinTransaction) -> (r: bool)
        ensures
            r == self.spec_matches(*transaction),
    {
        if let Some(address) = &self.to_address {
            if find_output(transaction, address.script_pubkey.as_slice(), self.amount).is_none() {
                return false;
            }
        }
        if self.from_outpoint.is_some() || self.unlock_script.is_some() {
            if find_input(transaction, &self.from_outpoint, &self.unlock_script).is_none() {
                return false;
            }
        }
        true
    }
}

/// The first output of the transaction that is locked by `script_pubkey` and,
/// where an amount is given, holds that many satoshi.
pub fn find_output(
    transaction: &BitcoinTransaction,
    script_pubkey: &[u8],
    amount: Option<u64>,
) -> (r: Option<usize>)
    ensures
        r is Some <==> spends_to(*transaction, script_pubkey@, amount),
        r matches Some(index) ==> output_pays_to(
            *transaction,
            index as int,
            script_pubkey@,
            amount,
        ) && forall|earlier: int|
            0 <= earlier < index ==> !output_pays_to(*transaction, earlier, script_pubkey@, amount),
{
    let mut i: usize = 0;
    while i < transaction.output.len()
        invariant
            i <= transaction.output@.len(),
            forall|earlier: int|
                0 <= earlier < i ==> !output_pays_to(*transaction, earlier, script_pubkey@, amount),
        decreases transaction.output@.len() - i,
    {
        let holds_amount = match amount {
            Some(value) => transaction.output[i].value == value,
            None => true,
        };
        if holds_amount && bytes_eq(transaction.output[i].script_pubkey.as_slice(), script_pubkey) {
            assert(output_pays_to(*transaction, i as int, script_pubkey@, amount));
            return Some(i);
        }
        i += 1;
    }
    None
}

/// Whether the unlock script of `input` ends with `items`.
fn input_unlocks_with(input: &TxIn, items: &Vec<Vec<u8>>) -> (r: bool)
    ensures
        r == unlocks_with(input.witness@, items@),
{
    let n = input.witness.len();
    let m = items.len();
    if n <= m {
        return false;
    }
    let base = n - 1 - m;
    let mut k: usize = 0;
    while k < m
        invariant
            n == input.witness@.len(),
            m == items@.len(),
            n > m,
            base == n - 1 - m,
            k <= m,
            forall|j: int| 0 <= j < k ==> (#[trigger] input.witness@[base + j])@ == items@[j]@,
        decreases m - k,
    {
        if !bytes_eq(input.witness[base + k].as_slice(), items[k].as_slice()) {
            assert(input.witness@[n - 1 - m + k]@ != items@[k as int]@);
            return false;
        }
        k += 1;
    }
    assert forall|j: int| 0 <= j < m implies (#[trigger] input.witness@[n - 1 - m + j])@
        == items@[j]@ by {
        assert(input.witness@[base + j]@ == items@[j]@);
    }
    true
}

/// Whether `input` is the one that the two parts of a pattern ask for.
fn check_input(
    input: &TxIn,
    from_outpoint: &Option<OutPoint>,
    unlock_script: &Option<Vec<Vec<u8>>>,
) -> (r: bool)
    ensures
        r == input_matches(*input, *from_outpoint, *unlock_script),
{
    if let Some(outpoint) = from_outpoint {
        if !input.previous_output.same(outpoint) {
            return false;
        }
    }
    if let Some(items) = unlock_script {
        if !input_unlocks_with(input, items) {
            return false;
        }
    }
    true
}

/// The first input of the transaction that the two parts of a pattern ask
/// for.
pub fn find_input(
    transaction: &BitcoinTransaction,
    from_outpoint: &Option<OutPoint>,
    unlock_script: &Option<Vec<Vec<u8>>>,
) -> (r: Option<usize>)
    ensures
        r is Some <==> exists|index: int|
            input_matches_at(*transaction, index, *from_outpoint, *unlock_script),
        r matches Some(index) ==> input_matches_at(
            *transaction,
            index as int,
            *from_outpoint,
            *unlock_script,
        ) && forall|earlier: int|
            0 <= earlier < index ==> !input_matches_at(
                *transaction,
                earlier,
                *from_outpoint,
                *unlock_script,
            ),
{
    let mut i: usize = 0;
    while i < transaction.input.len()
        invariant
            i <= transaction.input@.len(),
            forall|earlier: int|
                0 <= earlier < i ==> !input_matches_at(
                    *transaction,
                    earlier,
                    *from_outpoint,
                    *unlock_script,
                ),
        decreases transaction.input@.len() - i,
    {
        if check_input(&transaction.input[i], from_outpoint, unlock_script) {
            assert(input_matches_at(*transaction, i as int, *from_outpoint, *unlock_script));
            return Some(i);
        }
        i += 1;
    }
    None
}

/// The first secret that opens `secret_hash` among the witness items of the
/// transaction, read input by input, with its place.
fn find_secret(transaction: &BitcoinTransaction, secret_hash: &SecretHash) -> (r: Option<
    (usize, usize, Secret),
>)
    ensures
        r is None ==> forall|input: int, item: int|
            !secret_at(*transaction, input, item, secret_hash@),
        r matches Some((input, item, secret)) ==> {
            &&& secret_at(*transaction, input as int, item as int, secret_hash@)
            &&& secret@ == transaction.input@[input as int].witness@[item as int]@
            &&& forall|i: int, j: int|
                comes_before(i, j, input as int, item as int) ==> !secret_at(
                    *transaction,
                    i,
                    j,
                    secret_hash@,
                )
        },
{
    let mut i: usize = 0;
    while i < transaction.input.len()
        invariant
            i <= transaction.input@.len(),
            forall|input: int, item: int|
                input < i ==> !secret_at(*transaction, input, item, secret_hash@),
        decreases transaction.input@.len() - i,
    {
        let witness = &transaction.input[i].witness;
        let mut j: usize = 0;
        while j < witness.len()
            invariant
                i < transaction.input@.len(),
                *witness == transaction.input@[i as int].witness,
                j <= witness@.len(),
                forall|input: int, item: int|
                    input < i ==> !secret_at(*transaction, input, item, secret_hash@),
                forall|item: int|
                    item < j ==> !secret_at(*transaction, i as int, item, secret_hash@),
            decreases witness@.len() - j,
        {
            if let Some(secret) = Secret::from_slice(witness[j].as_slice()) {
                if secret.opens(secret_hash) {
                    return Some((i, j, secret));
                }
            }
            j += 1;
        }
        i += 1;
    }
    None
}

/// Reads from a spending transaction the secret that opens `secret_hash`: the
/// first witness item of 32 bytes whose SHA-256 digest is the hash.
pub fn extract_secret(transaction: &BitcoinTransaction, secret_hash: &SecretHash) -> (r: Option<
    Secret,
>)
    ensures
        r is Some <==> exists|input: int, item: int|
            secret_at(*transaction, input, item, secret_hash@),
        r matches Some(secret) ==> sha256(secret@) == secret_hash@ && exists|input: int, item: int|
            {
                &&& #[trigger] secret_at(*transaction, input, item, secret_hash@)
                &&& secret@ == transaction.input@[input].witness@[item]@
                &&& forall|i: int, j: int|
                    comes_before(i, j, input, item) ==> !secret_at(
                        *transaction,
                        i,
                        j,
                        secret_hash@,
                    )
            },
{
    match find_secret(transaction, secret_hash) {
        Some((input, item, secret)) => {
            assert(secret_at(*transaction, input as int, item as int, secret_hash@));
            Some(secret)
        },
        None => None,
    }
}

/// Reads the secret from the call that redeemed a contract on an
/// Ethereum-family ledger: the call data, where it is 32 bytes that open
/// `secret_hash`.
pub fn extract_secret_from_call(transaction: &EthereumTransaction, secret_hash: &SecretHash) -> (r:
    Option<Secret>)
    ensures
        r is Some <==> is_secret_for(transaction.input@, secret_hash@),
        r matches Some(secret) ==> secret@ == transaction.input@ && sha256(secret@)
            == secret_hash@,
{
    match Secret::from_slice(transaction.input.as_slice()) {
        Some(secret) => if secret.opens(secret_hash) {
            Some(secret)
        } else {
            None
        },
        None => None,
    }
}

/// What to look for to see the contract deployed: a payment of the agreed
/// amount to its address.
pub fn htlc_deployed_pattern(htlc_params: &BitcoinHtlcParams) -> (r: TransactionPattern)
    ensures
        r.to_address matches Some(address) && address@ == spec_compute_address(*htlc_params),
        r.amount == Some(htlc_params.asset),
        r.from_outpoint is None,
        r.unlock_script is None,
{
    TransactionPattern {
        to_address: Some(compute_address(htlc_params)),
        amount: Some(htlc_params.asset),
        from_outpoint: None,
        unlock_script: None,
    }
}

/// What to look for to see the contract redeemed: a spend of its output whose
/// unlock script ends with the one-byte item 1.
pub fn htlc_redeemed_pattern(htlc_deployment: &Deployed<BitcoinTransaction, OutPoint>) -> (r:
    TransactionPattern)
    ensures
        r.to_address is None,
        r.amount is None,
        r.from_outpoint == Some(htlc_deployment.location),
        r.unlock_script matches Some(items) && items@.len() == 1 && items@[0]@ == seq![1u8],
{
    let mut flag: Vec<u8> = Vec::new();
    flag.push(1u8);
    let mut items: Vec<Vec<u8>> = Vec::new();
    items.push(flag);
    assert(items@[0]@ =~= seq![1u8]);
    TransactionPattern {
        to_address: None,
        amount: None,
        from_outpoint: Some(htlc_deployment.location),
        unlock_script: Some(items),
    }
}

/// What to look for to see the contract refunded: a spend of its output whose
/// unlock script ends with an empty item.
pub fn htlc_refunded_pattern(htlc_deployment: &Deployed<BitcoinTransaction, OutPoint>) -> (r:
    TransactionPattern)
    ensures
        r.to_address is None,
        r.amount is None,
        r.from_outpoint == Some(htlc_deployment.location),
        r.unlock_script matches Some(items) && items@.len() == 1 && items@[0]@ == Seq::<
            u8,
        >::empty(),
{
    let flag: Vec<u8> = Vec::new();
    let mut items: Vec<Vec<u8>> = Vec::new();
    items.push(flag);
    TransactionPattern {
        to_address: None,
        amount: None,
        from_outpoint: Some(htlc_deployment.location),
        unlock_script: Some(items),
    }
}

/// Whether output `index` of the transaction funds the contract with these
/// parameters: it pays the agreed amount to the contract's address.
pub open spec fn funds_at(
    htlc_params: BitcoinHtlcParams,
    transaction: BitcoinTransaction,
    index: int,
) -> bool {
    output_pays_to(
        transaction,
        index,
        spec_compute_address(htlc_params).script_pubkey,
        Some(htlc_params.asset),
    )
}

/// The deployment that `transaction` makes of the contract with these
/// parameters: the contract lives in the first output that pays the agreed
/// amount to its address. Nothing where no output does: a payment of another
/// amount is not the contract. Nothing either where that output's number
/// does not fit in 32 bits.
pub fn htlc_deployed(htlc_params: &BitcoinHtlcParams, transaction: BitcoinTransaction) -> (r:
    Option<Deployed<BitcoinTransaction, OutPoint>>)
    ensures
        r is Some <==> exists|index: int|
            0 <= index <= u32::MAX && funds_at(*htlc_params, transaction, index),
        r matches Some(deployed) ==> {
            &&& deployed.transaction == transaction
            &&& deployed.location.txid == transaction.txid
            &&& funds_at(*htlc_params, transaction, deployed.location.vout as int)
            &&& forall|earlier: int|
                0 <= earlier < deployed.location.vout ==> !funds_at(
                    *htlc_params,
                    transaction,
                    earlier,
                )
        },
{
    let address = compute_address(htlc_params);
    match find_output(&transaction, address.script_pubkey.as_slice(), Some(htlc_params.asset)) {
        Some(index) => {
            if index > u32::MAX as usize {
                assert forall|other: int| 0 <= other <= u32::MAX implies !funds_at(
                    *htlc_params,
                    transaction,
                    other,
                ) by {}
                return None;
            }
            assert(funds_at(*htlc_params, transaction, index as int));
            let location = OutPoint { txid: transaction.txid, vout: index as u32 };
            Some(Deployed { transaction, location })
        },
        None => {
            assert forall|other: int| !funds_at(*htlc_params, transaction, other) by {
                assert(!output_pays_to(
                    transaction,
                    other,
                    address.script_pubkey@,
                    Some(htlc_params.asset),
                ));
            }
            None
        },
    }
}

/// The funding of a deployed contract. On Bitcoin the transaction that
/// deploys the contract funds it too, with the value of the contract's
/// output. Nothing where the transaction has no such output.
pub fn htlc_funded(
    _htlc_params: &BitcoinHtlcParams,
    htlc_deployment: &Deployed<BitcoinTransaction, OutPoint>,
) -> (r: Option<Funded<BitcoinTransaction, u64>>)
    ensures
        r is Some <==> htlc_deployment.location.vout < htlc_deployment.transaction.output@.len(),
        r matches Some(funded) ==> {
            &&& funded.transaction@ == htlc_deployment.transaction@
            &&& funded.asset == htlc_deployment.transaction.output@[htlc_deployment.location.vout as int]
                .value
        },
{
    let transaction = &htlc_deployment.transaction;
    let vout = htlc_deployment.location.vout as usize;
    if vout >= transaction.output.len() {
        return None;
    }
    let asset = transaction.output[vout].value;
    Some(Funded { transaction: transaction.duplicate(), asset })
}

/// The redeem that `transaction` makes of the contract, with the secret read
/// from its witnesses. Nothing where no witness item opens the contract's
/// hash: such a transaction did not redeem the contract.
pub fn htlc_redeemed(
    htlc_params: &BitcoinHtlcParams,
    _htlc_deployment: &Deployed<BitcoinTransaction, OutPoint>,
    transaction: BitcoinTransaction,
) -> (r: Option<Redeemed<BitcoinTransaction>>)
    ensures
        r is Some <==> exists|input: int, item: int|
            secret_at(transaction, input, item, htlc_params.secret_hash@),
        r matches Some(redeemed) ==> {
            &&& redeemed.transaction == transaction
            &&& sha256(redeemed.secret@) == htlc_params.secret_hash@
            &&& exists|input: int, item: int|
                {
                    &&& #[trigger] secret_at(transaction, input, item, htlc_params.secret_hash@)
                    &&& redeemed.secret@ == transaction.input@[input].witness@[item]@
                    &&& forall|i: int, j: int|
                        comes_before(i, j, input, item) ==> !secret_at(
                            transaction,
                            i,
                            j,
                            htlc_params.secret_hash@,
                        )
                }
        },
{
    match extract_secret(&transaction, &htlc_params.secret_hash) {
        Some(secret) => Some(Redeemed { transaction, secret }),
        None => None,
    }
}

/// How a contract was spent.
#[derive(Clone, Debug, PartialEq)]
pub enum Spend<T> {
    Redeemed(Redeemed<T>),
    Refunded(Refunded<T>),
}

/// Whether the item on top of the unlock script of a witness, which is the
/// item right below the final script, is `flag`.
pub open spec fn top_item_is(witness: Seq<Vec<u8>>, flag: Seq<u8>) -> bool {
    witness.len() >= 2 && witness[witness.len() - 2]@ == flag
}

/// Whether an input of the transaction spends `outpoint` with `flag` on top
/// of its unlock script.
pub open spec fn spends_with_flag(
    transaction: BitcoinTransaction,
    outpoint: OutPoint,
    flag: Seq<u8>,
) -> bool {
    exists|index: int|
        0 <= index < transaction.input@.len() && (
        #[trigger] transaction.input@[index]).previous_output == outpoint && top_item_is(
            transaction.input@[index].witness@,
            flag,
        )
}

/// Whether the transaction redeems the contract at `outpoint` under `hash`:
/// it spends the outpoint with the one-byte flag 1 and reveals a secret that
/// opens the hash.
pub open spec fn redeems(transaction: BitcoinTransaction, outpoint: OutPoint, hash: Seq<u8>)
    -> bool {
    spends_with_flag(transaction, outpoint, seq![1u8]) && exists|input: int, item: int|
        secret_at(transaction, input, item, hash)
}

/// Whether the transaction takes the refund of the contract at `outpoint`:
/// it spends the outpoint with an empty flag.
pub open spec fn refunds(transaction: BitcoinTransaction, outpoint: OutPoint) -> bool {
    spends_with_flag(transaction, outpoint, Seq::<u8>::empty())
}

/// A pattern that asks for a spend of `outpoint` with one flag matches the
/// transactions that spend the outpoint with that flag on top of the unlock
/// script.
proof fn lemma_flag_pattern(
    pattern: TransactionPattern,
    transaction: BitcoinTransaction,
    outpoint: OutPoint,
    flag: Seq<u8>,
)
    requires
        pattern.to_address is None,
        pattern.from_outpoint == Some(outpoint),
        pattern.unlock_script matches Some(items) && items@.len() == 1 && items@[0]@ == flag,
    ensures
        pattern.spec_matches(transaction) == spends_with_flag(transaction, outpoint, flag),
{
    let items = pattern.unlock_script->0;
    if pattern.spec_matches(transaction) {
        let index = choose|index: int|
            input_matches_at(transaction, index, pattern.from_outpoint, pattern.unlock_script);
        let witness = transaction.input@[index].witness@;
        assert(witness[witness.len() - 1 - items@.len() + 0]@ == items@[0]@);
        assert(top_item_is(witness, flag));
    }
    if spends_with_flag(transaction, outpoint, flag) {
        let index = choose|index: int|
            0 <= index < transaction.input@.len() && (
            #[trigger] transaction.input@[index]).previous_output == outpoint && top_item_is(
                transaction.input@[index].witness@,
                flag,
            );
        let witness = transaction.input@[index].witness@;
        assert forall|k: int| 0 <= k < items@.len() implies (#[trigger] witness[witness.len() - 1
            - items@.len() + k])@ == items@[k]@ by {
            assert(k == 0);
        }
        assert(unlocks_with(witness, items@));
        assert(input_matches_at(
            transaction,
            index,
            pattern.from_outpoint,
            pattern.unlock_script,
        ));
    }
}

/// What to look for to see the contract spent, in whichever way: a spend of
/// its output.
pub fn htlc_spent_pattern(htlc_deployment: &Deployed<BitcoinTransaction, OutPoint>) -> (r:
    TransactionPattern)
    ensures
        r.to_address is None,
        r.amount is None,
        r.from_outpoint == Some(htlc_deployment.location),
        r.unlock_script is None,
{
    TransactionPattern {
        to_address: None,
        amount: None,
        from_outpoint: Some(htlc_deployment.location),
        unlock_script: None,
    }
}

/// Tells how `transaction` spent the contract: it redeemed it, if it spends
/// the contract's output with the flag of a redeem and reveals the secret;
/// else it refunded it, if it spends the output with the flag of a refund.
/// Any other transaction is none of the contract's business.
pub fn htlc_spent(
    htlc_params: &BitcoinHtlcParams,
    htlc_deployment: &Deployed<BitcoinTransaction, OutPoint>,
    transaction: BitcoinTransaction,
) -> (r: Option<Spend<BitcoinTransaction>>)
    ensures
        r matches Some(Spend::Redeemed(_)) <==> redeems(
            transaction,
            htlc_deployment.location,
            htlc_params.secret_hash@,
        ),
        r matches Some(Spend::Refunded(_)) <==> !redeems(
            transaction,
            htlc_deployment.location,
            htlc_params.secret_hash@,
        ) && refunds(transaction, htlc_deployment.location),
        r matches Some(Spend::Redeemed(redeemed)) ==> redeemed.transaction == transaction && sha256(
            redeemed.secret@,
        ) == htlc_params.secret_hash@ && exists|input: int, item: int|
            {
                &&& #[trigger] secret_at(transaction, input, item, htlc_params.secret_hash@)
                &&& redeemed.secret@ == transaction.input@[input].witness@[item]@
                &&& forall|i: int, j: int|
                    comes_before(i, j, input, item) ==> !secret_at(
                        transaction,
                        i,
                        j,
                        htlc_params.secret_hash@,
                    )
            },
        r matches Some(Spend::Refunded(refunded)) ==> refunded.transaction == transaction,
{
    let redeem = htlc_redeemed_pattern(htlc_deployment);
    let refund = htlc_refunded_pattern(htlc_deployment);
    proof {
        lemma_flag_pattern(redeem, transaction, htlc_deployment.location, seq![1u8]);
        lemma_flag_pattern(refund, transaction, htlc_deployment.location, Seq::<u8>::empty());
    }
    if redeem.matches(&transaction) {
        if let Some(secret) = extract_secret(&transaction, &htlc_params.secret_hash) {
            return Some(Spend::Redeemed(Redeemed { transaction, secret }));
        }
    }
    if refund.matches(&transaction) {
        Some(Spend::Refunded(htlc_refunded(htlc_params, htlc_deployment, transaction)))
    } else {
        None
    }
}

/// The refund that `transaction` makes of the contract.
pub fn htlc_refunded(
    _htlc_params: &BitcoinHtlcParams,
    _htlc_deployment: &Deployed<BitcoinTransaction, OutPoint>,
    transaction: BitcoinTransaction,
) -> (r: Refunded<BitcoinTransaction>)
    ensures
        r.transaction == transaction,
{
    Refunded { transaction }
}

} // verus!
