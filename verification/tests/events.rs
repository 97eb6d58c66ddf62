use rfc003_swap::actions::btc::compute_address;
use rfc003_swap::actions::Address;
use rfc003_swap::asset::{EthereumAddress, PubkeyHash, U256};
use rfc003_swap::htlc_events::{
    extract_secret, extract_secret_from_call, find_input, find_output, htlc_deployed,
    htlc_deployed_pattern, htlc_funded, htlc_redeemed, htlc_redeemed_pattern, htlc_refunded,
    htlc_refunded_pattern, htlc_spent, htlc_spent_pattern, Spend, TransactionPattern,
};
use rfc003_swap::htlc_params::{BitcoinHtlcParams, HtlcParams};
use rfc003_swap::ledger::{Bitcoin, HtlcId, Network, OutPoint, Timestamp};
use rfc003_swap::ledger_state::{Deployed, Redeemed, Refunded};
use rfc003_swap::query::BitcoinQuery;
use rfc003_swap::secret::{Secret, SecretHash};
use rfc003_swap::transaction::{BitcoinTransaction, EthereumTransaction, TxIn, TxOut};

fn params() -> BitcoinHtlcParams {
    HtlcParams {
        asset: 10_000_000,
        ledger: Bitcoin::regtest(),
        redeem_identity: PubkeyHash([0xaa; 20]),
        refund_identity: PubkeyHash([0xbb; 20]),
        expiry: Timestamp(1_552_263_040),
        secret_hash: Secret([0x11; 32]).hash(),
    }
}

fn funding() -> BitcoinTransaction {
    let address = compute_address(&params());
    BitcoinTransaction {
        txid: [0xf1; 32],
        input: vec![],
        output: vec![
            TxOut { value: 1, script_pubkey: vec![0x51] },
            TxOut { value: 10_000_000, script_pubkey: address.script_pubkey.clone() },
            TxOut { value: 3, script_pubkey: address.script_pubkey },
        ],
    }
}

fn deployment() -> Deployed<BitcoinTransaction, OutPoint> {
    htlc_deployed(&params(), funding()).unwrap()
}

fn spend(witness: Vec<Vec<u8>>) -> BitcoinTransaction {
    BitcoinTransaction {
        txid: [0xf2; 32],
        input: vec![
            TxIn { previous_output: OutPoint { txid: [0xee; 32], vout: 0 }, witness: vec![] },
            TxIn { previous_output: OutPoint { txid: [0xf1; 32], vout: 1 }, witness },
        ],
        output: vec![],
    }
}

fn redeem_witness(secret: u8) -> Vec<Vec<u8>> {
    vec![vec![0x30; 71], vec![0x02; 33], vec![secret; 32], vec![1], vec![0x63; 97]]
}

fn refund_witness() -> Vec<Vec<u8>> {
    vec![vec![0x30; 71], vec![0x02; 33], vec![], vec![0x63; 97]]
}

#[test]
fn deployment_is_found_in_the_first_paying_output() {
    let deployed = deployment();
    assert_eq!(deployed.location, OutPoint { txid: [0xf1; 32], vout: 1 });
    assert_eq!(deployed.transaction, funding());
}

#[test]
fn transaction_that_pays_elsewhere_deploys_nothing() {
    let mut transaction = funding();
    transaction.output.truncate(1);
    assert_eq!(htlc_deployed(&params(), transaction), None);
}

#[test]
fn payment_of_another_amount_is_not_the_contract() {
    let address = compute_address(&params());
    let pays = |value: u64| TxOut { value, script_pubkey: address.script_pubkey.clone() };
    let dust = BitcoinTransaction { txid: [0xd0; 32], input: vec![], output: vec![pays(9_999_999)] };
    assert_eq!(htlc_deployed(&params(), dust.clone()), None);
    assert!(!htlc_deployed_pattern(&params()).matches(&dust));
    let mixed = BitcoinTransaction {
        txid: [0xd1; 32],
        input: vec![],
        output: vec![pays(1), pays(10_000_001), pays(10_000_000), pays(10_000_000)],
    };
    let deployed = htlc_deployed(&params(), mixed).unwrap();
    assert_eq!(deployed.location, OutPoint { txid: [0xd1; 32], vout: 2 });
    assert_eq!(htlc_funded(&params(), &deployed).unwrap().asset, 10_000_000);
}

#[test]
fn funding_is_the_value_of_the_contract_output() {
    let funded = htlc_funded(&params(), &deployment()).unwrap();
    assert_eq!(funded.asset, 10_000_000);
    assert_eq!(funded.transaction, funding());
}

#[test]
fn funding_needs_the_output() {
    let deployed = Deployed { transaction: funding(), location: OutPoint { txid: [0xf1; 32], vout: 3 } };
    assert_eq!(htlc_funded(&params(), &deployed), None);
}

#[test]
fn redeem_reveals_the_secret() {
    let redeemed = htlc_redeemed(&params(), &deployment(), spend(redeem_witness(0x11))).unwrap();
    assert_eq!(redeemed.secret, Secret([0x11; 32]));
    assert_eq!(redeemed.secret.hash(), params().secret_hash);
    assert_eq!(redeemed.transaction, spend(redeem_witness(0x11)));
}

#[test]
fn spend_with_a_wrong_preimage_is_no_redeem() {
    assert_eq!(htlc_redeemed(&params(), &deployment(), spend(redeem_witness(0x22))), None);
}

#[test]
fn refund_keeps_the_transaction() {
    let refunded = htlc_refunded(&params(), &deployment(), spend(refund_witness()));
    assert_eq!(refunded.transaction, spend(refund_witness()));
}

#[test]
fn secret_is_the_first_item_that_opens_the_hash() {
    let hash = SecretHash(Secret([0x11; 32]).hash().0);
    let transaction = BitcoinTransaction {
        txid: [0; 32],
        input: vec![
            TxIn {
                previous_output: OutPoint { txid: [1; 32], vout: 0 },
                witness: vec![vec![0x11; 31], vec![0x22; 32]],
            },
            TxIn {
                previous_output: OutPoint { txid: [2; 32], vout: 0 },
                witness: vec![vec![], vec![0x11; 33], vec![0x11; 32], vec![1]],
            },
        ],
        output: vec![],
    };
    assert_eq!(extract_secret(&transaction, &hash), Some(Secret([0x11; 32])));
    assert_eq!(extract_secret(&transaction, &SecretHash([0; 32])), None);
    assert_eq!(extract_secret(&funding(), &hash), None);
}

#[test]
fn secret_is_read_from_call_data() {
    let hash = Secret([0x11; 32]).hash();
    let call = |input: Vec<u8>| EthereumTransaction {
        hash: [1; 32],
        to: Some(EthereumAddress([0x77; 20])),
        value: U256::from_u128(0),
        input,
    };
    assert_eq!(extract_secret_from_call(&call(vec![0x11; 32]), &hash), Some(Secret([0x11; 32])));
    assert_eq!(extract_secret_from_call(&call(vec![0x22; 32]), &hash), None);
    assert_eq!(extract_secret_from_call(&call(vec![0x11; 31]), &hash), None);
    assert_eq!(extract_secret_from_call(&call(vec![]), &hash), None);
}

#[test]
fn deployed_pattern_asks_for_the_address() {
    let pattern = htlc_deployed_pattern(&params());
    assert_eq!(pattern.to_address, Some(compute_address(&params())));
    assert_eq!(pattern.amount, Some(10_000_000));
    assert_eq!(pattern.from_outpoint, None);
    assert_eq!(pattern.unlock_script, None);
    assert!(pattern.matches(&funding()));
    assert!(!pattern.matches(&spend(redeem_witness(0x11))));
}

#[test]
fn redeemed_pattern_asks_for_a_true_flag() {
    let pattern = htlc_redeemed_pattern(&deployment());
    assert_eq!(pattern.to_address, None);
    assert_eq!(pattern.from_outpoint, Some(OutPoint { txid: [0xf1; 32], vout: 1 }));
    assert_eq!(pattern.unlock_script, Some(vec![vec![1u8]]));
    assert!(pattern.matches(&spend(redeem_witness(0x11))));
    assert!(pattern.matches(&spend(redeem_witness(0x22))));
    assert!(!pattern.matches(&spend(refund_witness())));
    assert!(!pattern.matches(&funding()));
}

#[test]
fn refunded_pattern_asks_for_an_empty_flag() {
    let pattern = htlc_refunded_pattern(&deployment());
    assert_eq!(pattern.to_address, None);
    assert_eq!(pattern.from_outpoint, Some(OutPoint { txid: [0xf1; 32], vout: 1 }));
    assert_eq!(pattern.unlock_script, Some(vec![vec![]]));
    assert!(pattern.matches(&spend(refund_witness())));
    assert!(!pattern.matches(&spend(redeem_witness(0x11))));
}

#[test]
fn pattern_wants_outpoint_and_flag_on_the_same_input() {
    let pattern = htlc_redeemed_pattern(&deployment());
    let transaction = BitcoinTransaction {
        txid: [0xf3; 32],
        input: vec![
            TxIn { previous_output: OutPoint { txid: [0xee; 32], vout: 0 }, witness: redeem_witness(0x11) },
            TxIn { previous_output: OutPoint { txid: [0xf1; 32], vout: 1 }, witness: refund_witness() },
        ],
        output: vec![],
    };
    assert!(!pattern.matches(&transaction));
    let other_output = spend(redeem_witness(0x11));
    let mut elsewhere = other_output.clone();
    elsewhere.input[1].previous_output.vout = 2;
    assert!(pattern.matches(&other_output));
    assert!(!pattern.matches(&elsewhere));
}

#[test]
fn flag_is_read_right_below_the_script() {
    let pattern = TransactionPattern {
        to_address: None,
        amount: None,
        from_outpoint: None,
        unlock_script: Some(vec![vec![1u8]]),
    };
    assert!(pattern.matches(&spend(vec![vec![1], vec![0x63]])));
    assert!(!pattern.matches(&spend(vec![vec![1]])));
    assert!(!pattern.matches(&spend(vec![vec![1], vec![0x63], vec![0x63]])));
    assert!(!pattern.matches(&spend(vec![])));
}

#[test]
fn pattern_with_an_amount_wants_it_on_the_paying_output() {
    let pattern = |amount: Option<u64>| TransactionPattern {
        to_address: Some(compute_address(&params())),
        amount,
        from_outpoint: None,
        unlock_script: None,
    };
    assert!(pattern(None).matches(&funding()));
    assert!(pattern(Some(10_000_000)).matches(&funding()));
    assert!(pattern(Some(3)).matches(&funding()));
    assert!(!pattern(Some(1)).matches(&funding()));
    assert!(!pattern(Some(2)).matches(&funding()));
}

#[test]
fn empty_pattern_matches_everything() {
    let pattern =
        TransactionPattern { to_address: None, amount: None, from_outpoint: None, unlock_script: None };
    assert!(pattern.matches(&funding()));
    assert!(pattern.matches(&spend(vec![])));
}

#[test]
fn find_output_and_input_give_the_first_place() {
    let address = compute_address(&params());
    assert_eq!(find_output(&funding(), &address.script_pubkey, None), Some(1));
    assert_eq!(find_output(&funding(), &address.script_pubkey, Some(3)), Some(2));
    assert_eq!(find_output(&funding(), &address.script_pubkey, Some(4)), None);
    assert_eq!(find_output(&funding(), &[0x51], None), Some(0));
    assert_eq!(find_output(&funding(), &[0x51], Some(10_000_000)), None);
    assert_eq!(find_output(&funding(), &[0x52], None), None);
    let outpoint = Some(OutPoint { txid: [0xf1; 32], vout: 1 });
    assert_eq!(find_input(&spend(refund_witness()), &outpoint, &None), Some(1));
    assert_eq!(find_input(&spend(refund_witness()), &None, &None), Some(0));
    assert_eq!(find_input(&funding(), &None, &None), None);
}

#[test]
fn query_matches_payments_to_its_address() {
    let address = compute_address(&params());
    let query = BitcoinQuery::new(Some(address.clone()));
    assert_eq!(query.to_address(), &Some(address));
    assert!(query.matches(&funding()));
    assert!(!query.matches(&spend(refund_witness())));
}

#[test]
fn query_without_address_matches_nothing() {
    let query = BitcoinQuery::default();
    assert_eq!(query.to_address(), &None);
    assert!(!query.matches(&funding()));
    let other = BitcoinQuery::new(Some(Address { network: Network::Regtest, script_pubkey: vec![] }));
    assert!(!other.matches(&funding()));
}

#[test]
fn htlc_id_names_the_same_output() {
    let id = HtlcId { transaction_id: [4; 32], vout: 2 };
    assert_eq!(id.to_outpoint(), OutPoint { txid: [4; 32], vout: 2 });
    assert!(id.to_outpoint().same(&OutPoint { txid: [4; 32], vout: 2 }));
    assert!(!id.to_outpoint().same(&OutPoint { txid: [4; 32], vout: 3 }));
    assert!(!id.to_outpoint().same(&OutPoint { txid: [5; 32], vout: 2 }));
}

#[test]
fn duplicates_are_equal() {
    let transaction = spend(redeem_witness(0x11));
    assert_eq!(transaction.duplicate(), transaction);
    assert_eq!(funding().duplicate(), funding());
    assert_eq!(transaction.input[1].duplicate(), transaction.input[1]);
    assert_eq!(funding().output[1].duplicate(), funding().output[1]);
}

#[test]
fn spent_pattern_asks_for_any_spend_of_the_contract() {
    let pattern = htlc_spent_pattern(&deployment());
    assert_eq!(pattern.to_address, None);
    assert_eq!(pattern.amount, None);
    assert_eq!(pattern.from_outpoint, Some(OutPoint { txid: [0xf1; 32], vout: 1 }));
    assert_eq!(pattern.unlock_script, None);
    assert!(pattern.matches(&spend(redeem_witness(0x11))));
    assert!(pattern.matches(&spend(refund_witness())));
    assert!(pattern.matches(&spend(vec![])));
    assert!(!pattern.matches(&funding()));
}

#[test]
fn spend_with_the_secret_is_a_redeem() {
    assert_eq!(
        htlc_spent(&params(), &deployment(), spend(redeem_witness(0x11))),
        Some(Spend::Redeemed(Redeemed {
            transaction: spend(redeem_witness(0x11)),
            secret: Secret([0x11; 32]),
        }))
    );
}

#[test]
fn spend_with_the_empty_flag_is_a_refund() {
    assert_eq!(
        htlc_spent(&params(), &deployment(), spend(refund_witness())),
        Some(Spend::Refunded(Refunded { transaction: spend(refund_witness()) }))
    );
}

#[test]
fn other_spends_are_neither() {
    assert_eq!(htlc_spent(&params(), &deployment(), spend(redeem_witness(0x22))), None);
    assert_eq!(htlc_spent(&params(), &deployment(), spend(vec![])), None);
    assert_eq!(htlc_spent(&params(), &deployment(), funding()), None);
    let mut elsewhere = spend(refund_witness());
    elsewhere.input[1].previous_output.vout = 0;
    assert_eq!(htlc_spent(&params(), &deployment(), elsewhere), None);
}

#[test]
fn secret_without_the_flag_of_a_redeem_is_no_redeem() {
    let witness = vec![vec![0x30; 71], vec![0x02; 33], vec![0x11; 32], vec![], vec![0x63; 97]];
    assert_eq!(
        htlc_spent(&params(), &deployment(), spend(witness.clone())),
        Some(Spend::Refunded(Refunded { transaction: spend(witness) }))
    );
}
