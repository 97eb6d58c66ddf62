use rfc003_swap::ledger_state::{Deployed, Funded, LedgerState, Redeemed, Refunded, StateTag};
use rfc003_swap::secret::Secret;

type Ledger = LedgerState<u32, &'static str, u64>;

fn deployed() -> Deployed<&'static str, u32> {
    Deployed { transaction: "deploy", location: 7 }
}

fn funded() -> Funded<&'static str, u64> {
    Funded { transaction: "fund", asset: 100 }
}

fn redeemed() -> Redeemed<&'static str> {
    Redeemed { transaction: "redeem", secret: Secret([0x11; 32]) }
}

fn refunded() -> Refunded<&'static str> {
    Refunded { transaction: "refund" }
}

fn rank(state: &Ledger) -> u8 {
    match state.tag() {
        StateTag::NotDeployed => 0,
        StateTag::Deployed => 1,
        StateTag::Funded | StateTag::IncorrectlyFunded => 2,
        StateTag::Redeemed | StateTag::Refunded => 3,
    }
}

fn funded_state() -> Ledger {
    let mut state = Ledger::NotDeployed;
    state.transition_to_deployed(deployed());
    state.transition_to_funded(funded());
    state
}

#[test]
fn the_path_to_redeemed() {
    let mut state = Ledger::NotDeployed;
    assert_eq!(state.tag(), StateTag::NotDeployed);
    state.transition_to_deployed(deployed());
    assert_eq!(state.tag(), StateTag::Deployed);
    state.transition_to_funded(funded());
    assert_eq!(state.tag(), StateTag::Funded);
    assert!(!state.is_terminal());
    state.transition_to_redeemed(redeemed());
    assert!(state.is_terminal());
    match state {
        LedgerState::Redeemed {
            htlc_location,
            deploy_transaction,
            fund_transaction,
            redeem_transaction,
            asset,
            secret,
        } => {
            assert_eq!(htlc_location, 7);
            assert_eq!(deploy_transaction, "deploy");
            assert_eq!(fund_transaction, "fund");
            assert_eq!(redeem_transaction, "redeem");
            assert_eq!(asset, 100);
            assert_eq!(secret, Secret([0x11; 32]));
        }
        other => panic!("expected a redeemed contract, got {:?}", other),
    }
}

#[test]
fn the_path_to_refunded() {
    let mut state = funded_state();
    state.transition_to_refunded(refunded());
    assert!(state.is_terminal());
    match state {
        LedgerState::Refunded { refund_transaction, asset, htlc_location, .. } => {
            assert_eq!(refund_transaction, "refund");
            assert_eq!(asset, 100);
            assert_eq!(htlc_location, 7);
        }
        other => panic!("expected a refunded contract, got {:?}", other),
    }
}

#[test]
fn incorrectly_funded_can_be_refunded_and_redeemed() {
    let mut state = Ledger::NotDeployed;
    state.transition_to_deployed(deployed());
    state.transition_to_incorrectly_funded(Funded { transaction: "fund", asset: 90 });
    assert_eq!(state.tag(), StateTag::IncorrectlyFunded);
    let mut other = state.clone();
    state.transition_to_refunded(refunded());
    assert_eq!(state.tag(), StateTag::Refunded);
    other.transition_to_redeemed(redeemed());
    assert_eq!(other.tag(), StateTag::Redeemed);
}

#[test]
fn events_out_of_turn_change_nothing() {
    let mut state = Ledger::NotDeployed;
    state.transition_to_funded(funded());
    assert_eq!(state.tag(), StateTag::NotDeployed);
    state.transition_to_incorrectly_funded(funded());
    assert_eq!(state.tag(), StateTag::NotDeployed);
    state.transition_to_redeemed(redeemed());
    assert_eq!(state.tag(), StateTag::NotDeployed);
    state.transition_to_refunded(refunded());
    assert_eq!(state.tag(), StateTag::NotDeployed);
    state.transition_to_deployed(deployed());
    state.transition_to_redeemed(redeemed());
    assert_eq!(state.tag(), StateTag::Deployed);
}

#[test]
fn the_same_event_twice_is_as_once() {
    let mut state = Ledger::NotDeployed;
    state.transition_to_deployed(deployed());
    state.transition_to_deployed(Deployed { transaction: "again", location: 8 });
    match &state {
        LedgerState::Deployed { htlc_location, deploy_transaction } => {
            assert_eq!(*htlc_location, 7);
            assert_eq!(*deploy_transaction, "deploy");
        }
        other => panic!("expected a deployed contract, got {:?}", other),
    }
    state.transition_to_funded(funded());
    state.transition_to_funded(Funded { transaction: "again", asset: 1 });
    match &state {
        LedgerState::Funded { fund_transaction, asset, .. } => {
            assert_eq!(*fund_transaction, "fund");
            assert_eq!(*asset, 100);
        }
        other => panic!("expected a funded contract, got {:?}", other),
    }
    state.transition_to_redeemed(redeemed());
    state.transition_to_refunded(refunded());
    assert_eq!(state.tag(), StateTag::Redeemed);
}

#[test]
fn rank_never_falls_without_a_revocation() {
    let mut state = Ledger::NotDeployed;
    let mut last = rank(&state);
    state.transition_to_refunded(refunded());
    assert!(rank(&state) >= last);
    state.transition_to_deployed(deployed());
    assert!(rank(&state) >= last);
    last = rank(&state);
    state.transition_to_deployed(deployed());
    assert!(rank(&state) >= last);
    state.transition_to_funded(funded());
    assert!(rank(&state) >= last);
    last = rank(&state);
    state.transition_to_refunded(refunded());
    assert!(rank(&state) >= last);
    last = rank(&state);
    state.transition_to_funded(funded());
    assert_eq!(rank(&state), last);
    assert_eq!(last, 3);
}

#[test]
fn revocation_takes_one_step_back() {
    let mut state = funded_state();
    state.transition_to_redeemed(redeemed());
    state.revoke(StateTag::Redeemed, true);
    match &state {
        LedgerState::Funded { htlc_location, deploy_transaction, fund_transaction, asset } => {
            assert_eq!(*htlc_location, 7);
            assert_eq!(*deploy_transaction, "deploy");
            assert_eq!(*fund_transaction, "fund");
            assert_eq!(*asset, 100);
        }
        other => panic!("expected a funded contract, got {:?}", other),
    }
    state.revoke(StateTag::Funded, true);
    match &state {
        LedgerState::Deployed { htlc_location, deploy_transaction } => {
            assert_eq!(*htlc_location, 7);
            assert_eq!(*deploy_transaction, "deploy");
        }
        other => panic!("expected a deployed contract, got {:?}", other),
    }
    state.revoke(StateTag::Deployed, true);
    assert_eq!(state.tag(), StateTag::NotDeployed);
    state.revoke(StateTag::NotDeployed, true);
    assert_eq!(state.tag(), StateTag::NotDeployed);
}

#[test]
fn revocation_of_another_state_changes_nothing() {
    let mut state = funded_state();
    state.revoke(StateTag::Deployed, true);
    assert_eq!(state.tag(), StateTag::Funded);
    state.revoke(StateTag::Redeemed, true);
    assert_eq!(state.tag(), StateTag::Funded);
    state.revoke(StateTag::IncorrectlyFunded, true);
    assert_eq!(state.tag(), StateTag::Funded);
}

#[test]
fn revocation_twice_is_as_once() {
    let mut state = funded_state();
    state.revoke(StateTag::Funded, true);
    state.revoke(StateTag::Funded, true);
    assert_eq!(state.tag(), StateTag::Deployed);
}

#[test]
fn revoked_spend_goes_back_to_incorrectly_funded() {
    let mut state = Ledger::NotDeployed;
    state.transition_to_deployed(deployed());
    state.transition_to_incorrectly_funded(Funded { transaction: "fund", asset: 90 });
    state.transition_to_refunded(refunded());
    state.revoke(StateTag::Refunded, false);
    match &state {
        LedgerState::IncorrectlyFunded { asset, fund_transaction, .. } => {
            assert_eq!(*asset, 90);
            assert_eq!(*fund_transaction, "fund");
        }
        other => panic!("expected an incorrectly funded contract, got {:?}", other),
    }
}

#[test]
fn redeploy_after_revocation_advances_again() {
    let mut state = Ledger::NotDeployed;
    state.transition_to_deployed(deployed());
    state.revoke(StateTag::Deployed, true);
    assert_eq!(state.tag(), StateTag::NotDeployed);
    state.transition_to_deployed(Deployed { transaction: "second", location: 9 });
    match &state {
        LedgerState::Deployed { htlc_location, deploy_transaction } => {
            assert_eq!(*htlc_location, 9);
            assert_eq!(*deploy_transaction, "second");
        }
        other => panic!("expected a deployed contract, got {:?}", other),
    }
}
