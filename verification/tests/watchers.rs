use rfc003_swap::actions::btc::compute_address;
use rfc003_swap::actions::ether;
use rfc003_swap::asset::{Asset, Erc20, EthereumAddress, Identity, PubkeyHash, U256};
use rfc003_swap::btsieve::{
    backoff_delay, has_no_parent, is_linked, is_on_chain, scan_block, scan_chain, walks_back_from,
    Block, Predates, BACKOFF_BASE_SECS, BACKOFF_CAP_SECS, MARGIN, REQUEST_TIMEOUT_SECS,
};
use rfc003_swap::cache::BlockCache;
use rfc003_swap::db::Role;
use rfc003_swap::ethereum_events::{
    erc20_htlc_deployed, erc20_htlc_funded, ether_htlc_deployed, ether_htlc_funded, Erc20Transfer,
};
use rfc003_swap::htlc_events::{
    htlc_deployed, htlc_deployed_pattern, htlc_funded, htlc_redeemed, htlc_redeemed_pattern,
    htlc_refunded, htlc_spent,
};
use rfc003_swap::htlc_params::{Erc20HtlcParams, HtlcParams};
use rfc003_swap::ids::SwapId;
use rfc003_swap::init_swap::{apply_event, is_terminal, HtlcEvent, Side};
use rfc003_swap::ledger::{Bitcoin, Ethereum, Ledger, OutPoint, Timestamp};
use rfc003_swap::ledger_state::{Deployed, StateTag};
use rfc003_swap::messages::{Accept, HashFunction, Request};
use rfc003_swap::secret::Secret;
use rfc003_swap::seed::SwapSeed;
use rfc003_swap::state::State;
use rfc003_swap::transaction::{BitcoinTransaction, EthereumTransaction, TxIn, TxOut};

fn block(hash: u8, parent: u8, timestamp: i64) -> Block {
    Block { hash: [hash; 32], parent_hash: [parent; 32], timestamp, transactions: vec![] }
}

fn request() -> Request {
    Request {
        swap_id: SwapId([5; 16]),
        alpha_ledger: Ledger::Bitcoin(Bitcoin::regtest()),
        beta_ledger: Ledger::Ethereum(Ethereum { chain_id: 17 }),
        alpha_asset: Asset::Bitcoin(10_000_000),
        beta_asset: Asset::Ether(U256::from_u128(1_500_000_000_000_000_000)),
        hash_function: HashFunction::Sha256,
        alpha_ledger_refund_identity: Identity::Bitcoin(PubkeyHash([0xa1; 20])),
        beta_ledger_redeem_identity: Identity::Ethereum(EthereumAddress([0xa2; 20])),
        alpha_expiry: Timestamp(7200),
        beta_expiry: Timestamp(3600),
        secret_hash: Secret([0x11; 32]).hash(),
    }
}

fn accept() -> Accept {
    Accept {
        swap_id: SwapId([5; 16]),
        beta_ledger_refund_identity: Identity::Ethereum(EthereumAddress([0xb2; 20])),
        alpha_ledger_redeem_identity: Identity::Bitcoin(PubkeyHash([0xb1; 20])),
    }
}

fn token_params() -> Erc20HtlcParams {
    HtlcParams {
        asset: Erc20 { token_contract: EthereumAddress([0xcc; 20]), quantity: U256::from_u128(42) },
        ledger: Ethereum { chain_id: 17 },
        redeem_identity: EthereumAddress([0xaa; 20]),
        refund_identity: EthereumAddress([0xbb; 20]),
        expiry: Timestamp(3600),
        secret_hash: Secret([0x11; 32]).hash(),
    }
}

fn call(to: u8, input: Vec<u8>) -> EthereumTransaction {
    EthereumTransaction {
        hash: [0xe2; 32],
        to: Some(EthereumAddress([to; 20])),
        value: U256::from_u128(0),
        input,
    }
}

#[test]
fn backoff_doubles_up_to_a_minute() {
    let delays: Vec<u64> = (0..9).map(backoff_delay).collect();
    assert_eq!(delays, vec![1, 2, 4, 8, 16, 32, 60, 60, 60]);
    assert_eq!(backoff_delay(64), 60);
    assert_eq!(backoff_delay(u32::MAX), 60);
}

#[test]
fn timing_constants() {
    assert_eq!(MARGIN, 15 * 60);
    assert_eq!(REQUEST_TIMEOUT_SECS, 30);
    assert_eq!(BACKOFF_BASE_SECS, 1);
    assert_eq!(BACKOFF_CAP_SECS, 60);
    assert_eq!(rfc003_swap::config::DEFAULT_BITCOIN_POLL_INTERVAL_SECS, 300);
    assert_eq!(rfc003_swap::config::DEFAULT_ETHEREUM_POLL_INTERVAL_SECS, 20);
}

#[test]
fn block_predates_a_later_instant_only() {
    let block = block(1, 0, 1000);
    assert!(block.predates(1001));
    assert!(!block.predates(1000));
    assert!(!block.predates(999));
}

#[test]
fn watcher_walks_back_to_the_margin() {
    assert!(walks_back_from(&block(2, 1, 2000), 2000));
    assert!(walks_back_from(&block(2, 1, 1101), 2000));
    assert!(!walks_back_from(&block(2, 1, 1100), 2000));
    assert!(!walks_back_from(&block(2, 1, 0), 2000));
}

#[test]
fn watcher_stops_at_the_first_block() {
    assert!(has_no_parent(&block(1, 0, 2000)));
    assert!(!has_no_parent(&block(2, 1, 2000)));
    assert!(!walks_back_from(&block(1, 0, 2000), 2000));
    let mut almost = block(1, 0, 2000);
    almost.parent_hash[31] = 1;
    assert!(!has_no_parent(&almost));
    assert!(walks_back_from(&almost, 2000));
}

#[test]
fn chain_is_scanned_from_its_oldest_block() {
    let params = HtlcParams::new_alpha_params(&request(), &accept()).as_bitcoin().unwrap();
    let pattern = htlc_deployed_pattern(&params);
    let pays = |value: u64| BitcoinTransaction {
        txid: [value as u8; 32],
        input: vec![],
        output: vec![TxOut { value, script_pubkey: compute_address(&params).script_pubkey }],
    };
    let other = BitcoinTransaction { txid: [0; 32], input: vec![], output: vec![] };
    let with = |hash: u8, transactions: Vec<BitcoinTransaction>| Block {
        transactions,
        ..block(hash, hash - 1, 1000)
    };
    let chain = vec![
        with(4, vec![pays(10_000_000)]),
        with(3, vec![other.clone(), pays(10_000_000), pays(10_000_000)]),
        with(2, vec![other.clone(), pays(2)]),
        with(1, vec![]),
    ];
    assert_eq!(scan_chain(&chain, &pattern), Some((1, 1)));
    assert_eq!(scan_chain(&chain[..1].to_vec(), &pattern), Some((0, 0)));
    assert_eq!(scan_chain(&chain[2..].to_vec(), &pattern), None);
    assert_eq!(scan_chain(&vec![], &pattern), None);
}

#[test]
fn scan_finds_the_first_matching_transaction() {
    let params = HtlcParams::new_alpha_params(&request(), &accept()).as_bitcoin().unwrap();
    let pattern = htlc_deployed_pattern(&params);
    let pays = |value: u64| BitcoinTransaction {
        txid: [value as u8; 32],
        input: vec![],
        output: vec![TxOut { value, script_pubkey: compute_address(&params).script_pubkey }],
    };
    let other = BitcoinTransaction {
        txid: [0; 32],
        input: vec![],
        output: vec![TxOut { value: 1, script_pubkey: vec![0x51] }],
    };
    let mut block = block(1, 0, 1000);
    assert_eq!(scan_block(&block, &pattern), None);
    block.transactions = vec![other.clone(), other.clone()];
    assert_eq!(scan_block(&block, &pattern), None);
    block.transactions = vec![other, pays(7), pays(10_000_000), pays(10_000_000)];
    assert_eq!(scan_block(&block, &pattern), Some(2));
}

#[test]
fn chain_membership_and_links() {
    let chain = vec![block(3, 2, 30), block(2, 1, 20), block(1, 0, 10)];
    assert!(is_linked(&chain));
    assert!(is_on_chain(&chain, &[2; 32]));
    assert!(is_on_chain(&chain, &[1; 32]));
    assert!(!is_on_chain(&chain, &[0; 32]));
    assert!(!is_on_chain(&chain, &[9; 32]));
    let broken = vec![block(3, 2, 30), block(9, 1, 20), block(1, 0, 10)];
    assert!(!is_linked(&broken));
    let short = vec![block(3, 2, 30)];
    assert!(is_linked(&short));
    assert!(is_linked(&vec![]));
    assert!(!is_on_chain(&vec![], &[1; 32]));
}

#[test]
fn cache_gives_the_block_for_its_hash_only() {
    let mut cache = BlockCache::new(2);
    assert_eq!(cache.capacity(), 2);
    assert_eq!(cache.len(), 0);
    assert_eq!(cache.get(&[1; 32]), None);
    cache.insert(block(1, 0, 10));
    cache.insert(block(2, 1, 20));
    assert_eq!(cache.len(), 2);
    assert_eq!(cache.get(&[1; 32]), Some(&block(1, 0, 10)));
    assert_eq!(cache.get(&[2; 32]), Some(&block(2, 1, 20)));
    assert_eq!(cache.get(&[3; 32]), None);
    assert!(cache.contains(&[1; 32]));
    assert!(!cache.contains(&[3; 32]));
}

#[test]
fn cache_forgets_the_block_used_least_recently() {
    let mut cache = BlockCache::new(2);
    cache.insert(block(1, 0, 10));
    cache.insert(block(2, 1, 20));
    assert!(cache.get(&[1; 32]).is_some());
    cache.insert(block(3, 2, 30));
    assert_eq!(cache.len(), 2);
    assert!(cache.contains(&[1; 32]));
    assert!(!cache.contains(&[2; 32]));
    assert!(cache.contains(&[3; 32]));
    cache.insert(block(4, 3, 40));
    assert!(!cache.contains(&[1; 32]));
    assert!(cache.contains(&[3; 32]));
    assert!(cache.contains(&[4; 32]));
}

#[test]
fn cache_replaces_the_block_of_a_hash() {
    let mut cache = BlockCache::new(2);
    cache.insert(block(1, 0, 10));
    cache.insert(block(2, 1, 20));
    cache.insert(block(1, 9, 99));
    assert_eq!(cache.len(), 2);
    assert_eq!(cache.get(&[1; 32]), Some(&block(1, 9, 99)));
    assert_eq!(cache.get(&[2; 32]), Some(&block(2, 1, 20)));
}

#[test]
fn cache_without_room_stays_empty() {
    let mut cache = BlockCache::new(0);
    cache.insert(block(1, 0, 10));
    assert_eq!(cache.len(), 0);
    assert_eq!(cache.get(&[1; 32]), None);
}

#[test]
fn ether_deployment_must_carry_the_contract_code() {
    let params = HtlcParams::new_beta_params(&request(), &accept()).as_ether().unwrap();
    let code = ether::fund_action(params).data;
    let creation = |input: Vec<u8>| EthereumTransaction {
        hash: [0xe1; 32],
        to: None,
        value: U256::from_u128(1_500_000_000_000_000_000),
        input,
    };
    let deployed =
        ether_htlc_deployed(&params, creation(code.clone()), EthereumAddress([0x77; 20])).unwrap();
    assert_eq!(deployed.location, EthereumAddress([0x77; 20]));
    assert_eq!(deployed.transaction, creation(code.clone()));
    let mut other_code = code.clone();
    other_code[60] ^= 1;
    assert_eq!(ether_htlc_deployed(&params, creation(other_code), EthereumAddress([0x77; 20])), None);
    let mut not_a_creation = creation(code);
    not_a_creation.to = Some(EthereumAddress([1; 20]));
    assert_eq!(ether_htlc_deployed(&params, not_a_creation, EthereumAddress([0x77; 20])), None);
    let funded = ether_htlc_funded(&params, &deployed);
    assert_eq!(funded.asset, U256::from_u128(1_500_000_000_000_000_000));
    assert_eq!(funded.transaction, deployed.transaction);
}

#[test]
fn token_funding_must_reach_the_contract_in_the_agreed_token() {
    let params = token_params();
    let code = rfc003_swap::actions::erc20::deploy_action(params).data;
    let creation =
        EthereumTransaction { hash: [0xe1; 32], to: None, value: U256::from_u128(0), input: code };
    let deployed = erc20_htlc_deployed(&params, creation, EthereumAddress([0x77; 20])).unwrap();
    let transfer = |token: u8, to: u8, quantity: u128| Erc20Transfer {
        transaction: call(token, vec![0xa9]),
        token_contract: EthereumAddress([token; 20]),
        to: EthereumAddress([to; 20]),
        quantity: U256::from_u128(quantity),
    };
    let funded = erc20_htlc_funded(&params, &deployed, transfer(0xcc, 0x77, 42)).unwrap();
    assert_eq!(funded.asset, params.asset);
    assert_eq!(funded.transaction, call(0xcc, vec![0xa9]));
    let short = erc20_htlc_funded(&params, &deployed, transfer(0xcc, 0x77, 41)).unwrap();
    assert_eq!(short.asset.quantity, U256::from_u128(41));
    assert_eq!(erc20_htlc_funded(&params, &deployed, transfer(0xcd, 0x77, 42)), None);
    assert_eq!(erc20_htlc_funded(&params, &deployed, transfer(0xcc, 0x78, 42)), None);
    let wrong_code = EthereumTransaction {
        hash: [0xe1; 32],
        to: None,
        value: U256::from_u128(0),
        input: vec![1, 2, 3],
    };
    assert_eq!(erc20_htlc_deployed(&params, wrong_code, EthereumAddress([0x77; 20])), None);
}

#[test]
fn ethereum_redeem_is_a_call_with_the_secret() {
    let hash = Secret([0x11; 32]).hash();
    let deployed = Deployed { transaction: call(0, vec![]), location: EthereumAddress([0x77; 20]) };
    let redeemed =
        rfc003_swap::ethereum_events::htlc_redeemed(&hash, &deployed, call(0x77, vec![0x11; 32]))
            .unwrap();
    assert_eq!(redeemed.secret, Secret([0x11; 32]));
    assert_eq!(redeemed.transaction, call(0x77, vec![0x11; 32]));
    assert_eq!(
        rfc003_swap::ethereum_events::htlc_redeemed(&hash, &deployed, call(0x77, vec![0x22; 32])),
        None
    );
    assert_eq!(
        rfc003_swap::ethereum_events::htlc_redeemed(&hash, &deployed, call(0x78, vec![0x11; 32])),
        None
    );
    assert_eq!(rfc003_swap::ethereum_events::htlc_redeemed(&hash, &deployed, call(0x77, vec![])), None);
}

#[test]
fn ethereum_refund_is_an_empty_call_after_the_expiry() {
    let deployed = Deployed { transaction: call(0, vec![]), location: EthereumAddress([0x77; 20]) };
    let refunded = |transaction: EthereumTransaction, block_time: u32| {
        rfc003_swap::ethereum_events::htlc_refunded(
            Timestamp(3600),
            &deployed,
            transaction,
            Timestamp(block_time),
        )
    };
    assert_eq!(refunded(call(0x77, vec![]), 3600).unwrap().transaction, call(0x77, vec![]));
    assert!(refunded(call(0x77, vec![]), 3601).is_some());
    assert_eq!(refunded(call(0x77, vec![]), 3599), None);
    assert_eq!(refunded(call(0x77, vec![1]), 3600), None);
    assert_eq!(refunded(call(0x78, vec![]), 3600), None);
    let creation =
        EthereumTransaction { hash: [1; 32], to: None, value: U256::from_u128(0), input: vec![] };
    assert_eq!(refunded(creation, 3600), None);
}

#[test]
fn transactions_found_on_both_ledgers_drive_the_swap_to_its_end() {
    let alpha = HtlcParams::new_alpha_params(&request(), &accept()).as_bitcoin().unwrap();
    let beta = HtlcParams::new_beta_params(&request(), &accept()).as_ether().unwrap();
    let mut bob = State::accepted(Role::Bob, request(), accept(), SwapSeed([8; 32]));

    let funding = BitcoinTransaction {
        txid: [0xf1; 32],
        input: vec![],
        output: vec![TxOut {
            value: 10_000_000,
            script_pubkey: compute_address(&alpha).script_pubkey,
        }],
    };
    let alpha_deployed = htlc_deployed(&alpha, funding).unwrap();
    let alpha_funded = htlc_funded(&alpha, &alpha_deployed).unwrap();
    apply_event(&mut bob, Side::Alpha, HtlcEvent::bitcoin_deployed(alpha_deployed.clone()));
    apply_event(&mut bob, Side::Alpha, HtlcEvent::bitcoin_funded(alpha_funded));
    assert_eq!(bob.alpha_ledger_state.tag(), StateTag::Funded);

    let creation = EthereumTransaction {
        hash: [0xe1; 32],
        to: None,
        value: U256::from_u128(1_500_000_000_000_000_000),
        input: ether::fund_action(beta).data,
    };
    let beta_deployed = ether_htlc_deployed(&beta, creation, EthereumAddress([0x77; 20])).unwrap();
    let beta_funded = ether_htlc_funded(&beta, &beta_deployed);
    apply_event(&mut bob, Side::Beta, HtlcEvent::ethereum_deployed(beta_deployed.clone()));
    apply_event(&mut bob, Side::Beta, HtlcEvent::ether_funded(beta_funded));
    assert_eq!(bob.beta_ledger_state.tag(), StateTag::Funded);

    let beta_redeemed = rfc003_swap::ethereum_events::htlc_redeemed(
        &beta.secret_hash,
        &beta_deployed,
        call(0x77, vec![0x11; 32]),
    )
    .unwrap();
    apply_event(&mut bob, Side::Beta, HtlcEvent::ethereum_redeemed(beta_redeemed));
    assert_eq!(bob.beta_ledger_state.tag(), StateTag::Redeemed);

    let spend = BitcoinTransaction {
        txid: [0xf2; 32],
        input: vec![TxIn {
            previous_output: OutPoint { txid: [0xf1; 32], vout: 0 },
            witness: vec![vec![0x30; 71], vec![0x02; 33], vec![0x11; 32], vec![1], vec![0x63; 97]],
        }],
        output: vec![],
    };
    assert!(htlc_redeemed_pattern(&alpha_deployed).matches(&spend));
    assert!(htlc_redeemed(&alpha, &alpha_deployed, spend.clone()).is_some());
    let alpha_spent = htlc_spent(&alpha, &alpha_deployed, spend).unwrap();
    apply_event(&mut bob, Side::Alpha, HtlcEvent::bitcoin_spent(alpha_spent));
    assert_eq!(bob.alpha_ledger_state.tag(), StateTag::Redeemed);
    assert!(is_terminal(&bob));
    assert_eq!(bob.actions(), vec![]);
}

#[test]
fn refunds_found_on_both_ledgers_end_the_swap_too() {
    let alpha = HtlcParams::new_alpha_params(&request(), &accept()).as_bitcoin().unwrap();
    let mut alice = State::accepted(Role::Alice, request(), accept(), SwapSeed([7; 32]));
    let funding = BitcoinTransaction {
        txid: [0xf1; 32],
        input: vec![],
        output: vec![TxOut {
            value: 10_000_000,
            script_pubkey: compute_address(&alpha).script_pubkey,
        }],
    };
    let deployed = htlc_deployed(&alpha, funding).unwrap();
    let funded = htlc_funded(&alpha, &deployed).unwrap();
    apply_event(&mut alice, Side::Alpha, HtlcEvent::bitcoin_deployed(deployed.clone()));
    apply_event(&mut alice, Side::Alpha, HtlcEvent::bitcoin_funded(funded));
    assert_eq!(alice.alpha_ledger_state.tag(), StateTag::Funded);
    let spend = BitcoinTransaction { txid: [0xf3; 32], input: vec![], output: vec![] };
    let refunded = htlc_refunded(&alpha, &deployed, spend);
    apply_event(&mut alice, Side::Alpha, HtlcEvent::bitcoin_refunded(refunded));
    assert_eq!(alice.alpha_ledger_state.tag(), StateTag::Refunded);
    let beta_deployed = Deployed { transaction: call(0, vec![]), location: EthereumAddress([0x77; 20]) };
    apply_event(&mut alice, Side::Beta, HtlcEvent::ethereum_deployed(beta_deployed.clone()));
    let token_funding = rfc003_swap::ledger_state::Funded {
        transaction: call(0xcc, vec![]),
        asset: Erc20 { token_contract: EthereumAddress([0xcc; 20]), quantity: U256::from_u128(1) },
    };
    apply_event(&mut alice, Side::Beta, HtlcEvent::erc20_funded(token_funding));
    assert_eq!(alice.beta_ledger_state.tag(), StateTag::IncorrectlyFunded);
    let refund = rfc003_swap::ethereum_events::htlc_refunded(
        Timestamp(3600),
        &beta_deployed,
        call(0x77, vec![]),
        Timestamp(4000),
    )
    .unwrap();
    apply_event(&mut alice, Side::Beta, HtlcEvent::ethereum_refunded(refund));
    assert!(is_terminal(&alice));
}
