//! Starts the watch on an accepted swap and folds what the watchers see into
//! its state.

use crate::asset::{Asset, Erc20, EthereumAddress, U256};
use crate::db::Role;
use crate::htlc_events::Spend;
use crate::ledger::OutPoint;
use crate::ledger_state::{Deployed, Funded, LedgerState, Redeemed, Refunded, StateTag};
use crate::messages::{Accept, Request, SwapCommunication};
use crate::secret::{sha256, SecretHash};
use crate::seed::{seeded_digest, swap_tag, Seed, SwapSeed};
use crate::state::{State, SwapLedgerState};
use crate::transaction::{BitcoinTransaction, EthereumTransaction, HtlcLocation, Transaction};
use vstd::prelude::*;

verus! {

/// A swap that both parties agreed on, with the time at which that was, in
/// seconds since the epoch.
pub type AcceptedSwap = (Request, Accept, i64);

/// One of the two ledgers of a swap.
#[derive(Clone, Copy, Debug, PartialEq, Eq, Structural)]
pub enum Side {
    Alpha,
    Beta,
}

/// What a watcher reports of the contract on its ledger.
#[derive(Clone, Debug, PartialEq)]
pub enum HtlcEvent {
    Deployed(Deployed<Transaction, HtlcLocation>),
    Funded(Funded<Transaction, Asset>),
    Redeemed(Redeemed<Transaction>),
    Refunded(Refunded<Transaction>),
    /// The block that held the step to the state with this tag has left the
    /// chain.
    Revoked(StateTag),
}

impl HtlcEvent {
    /// A deployment seen on Bitcoin, as an event of the swap.
    pub fn bitcoin_deployed(deployed: Deployed<BitcoinTransaction, OutPoint>) -> (r: HtlcEvent)
        ensures
            r == HtlcEvent::Deployed(
                Deployed {
                    transaction: Transaction::Bitcoin(deployed.transaction),
                    location: HtlcLocation::Bitcoin(deployed.location),
                },
            ),
    {
        HtlcEvent::Deployed(
            Deployed {
                transaction: Transaction::Bitcoin(deployed.transaction),
                location: HtlcLocation::Bitcoin(deployed.location),
            },
        )
    }

    /// A funding seen on Bitcoin, as an event of the swap.
    pub fn bitcoin_funded(funded: Funded<BitcoinTransaction, u64>) -> (r: HtlcEvent)
        ensures
            r == HtlcEvent::Funded(
                Funded {
                    transaction: Transaction::Bitcoin(funded.transaction),
                    asset: Asset::Bitcoin(funded.asset),
                },
            ),
    {
        HtlcEvent::Funded(
            Funded {
                transaction: Transaction::Bitcoin(funded.transaction),
                asset: Asset::Bitcoin(funded.asset),
            },
        )
    }

    /// A redeem seen on Bitcoin, as an event of the swap.
    pub fn bitcoin_redeemed(redeemed: Redeemed<BitcoinTransaction>) -> (r: HtlcEvent)
        ensures
            r == HtlcEvent::Redeemed(
                Redeemed {
                    transaction: Transaction::Bitcoin(redeemed.transaction),
                    secret: redeemed.secret,
                },
            ),
    {
        HtlcEvent::Redeemed(
            Redeemed {
                transaction: Transaction::Bitcoin(redeemed.transaction),
                secret: redeemed.secret,
            },
        )
    }

    /// A refund seen on Bitcoin, as an event of the swap.
    pub fn bitcoin_refunded(refunded: Refunded<BitcoinTransaction>) -> (r: HtlcEvent)
        ensures
            r == HtlcEvent::Refunded(
                Refunded { transaction: Transaction::Bitcoin(refunded.transaction) },
            ),
    {
        HtlcEvent::Refunded(Refunded { transaction: Transaction::Bitcoin(refunded.transaction) })
    }

    /// A spend seen on Bitcoin, as an event of the swap.
    pub fn bitcoin_spent(spend: Spend<BitcoinTransaction>) -> (r: HtlcEvent)
        ensures
            r == match spend {
                Spend::Redeemed(redeemed) => HtlcEvent::Redeemed(
                    Redeemed {
                        transaction: Transaction::Bitcoin(redeemed.transaction),
                        secret: redeemed.secret,
                    },
                ),
                Spend::Refunded(refunded) => HtlcEvent::Refunded(
                    Refunded { transaction: Transaction::Bitcoin(refunded.transaction) },
                ),
            },
    {
        match spend {
            Spend::Redeemed(redeemed) => HtlcEvent::bitcoin_redeemed(redeemed),
            Spend::Refunded(refunded) => HtlcEvent::bitcoin_refunded(refunded),
        }
    }

    /// A deployment seen on an Ethereum-family ledger, as an event of the
    /// swap.
    pub fn ethereum_deployed(deployed: Deployed<EthereumTransaction, EthereumAddress>) -> (r:
        HtlcEvent)
        ensures
            r == HtlcEvent::Deployed(
                Deployed {
                    transaction: Transaction::Ethereum(deployed.transaction),
                    location: HtlcLocation::Ethereum(deployed.location),
                },
            ),
    {
        HtlcEvent::Deployed(
            Deployed {
                transaction: Transaction::Ethereum(deployed.transaction),
                location: HtlcLocation::Ethereum(deployed.location),
            },
        )
    }

    /// A funding with ether, as an event of the swap.
    pub fn ether_funded(funded: Funded<EthereumTransaction, U256>) -> (r: HtlcEvent)
        ensures
            r == HtlcEvent::Funded(
                Funded {
                    transaction: Transaction::Ethereum(funded.transaction),
                    asset: Asset::Ether(funded.asset),
                },
            ),
    {
        HtlcEvent::Funded(
            Funded {
                transaction: Transaction::Ethereum(funded.transaction),
                asset: Asset::Ether(funded.asset),
            },
        )
    }

    /// A funding with tokens, as an event of the swap.
    pub fn erc20_funded(funded: Funded<EthereumTransaction, Erc20>) -> (r: HtlcEvent)
        ensures
            r == HtlcEvent::Funded(
                Funded {
                    transaction: Transaction::Ethereum(funded.transaction),
                    asset: Asset::Erc20(funded.asset),
                },
            ),
    {
        HtlcEvent::Funded(
            Funded {
                transaction: Transaction::Ethereum(funded.transaction),
                asset: Asset::Erc20(funded.asset),
            },
        )
    }

    /// A redeem seen on an Ethereum-family ledger, as an event of the swap.
    pub fn ethereum_redeemed(redeemed: Redeemed<EthereumTransaction>) -> (r: HtlcEvent)
        ensures
            r == HtlcEvent::Redeemed(
                Redeemed {
                    transaction: Transaction::Ethereum(redeemed.transaction),
                    secret: redeemed.secret,
                },
            ),
    {
        HtlcEvent::Redeemed(
            Redeemed {
                transaction: Transaction::Ethereum(redeemed.transaction),
                secret: redeemed.secret,
            },
        )
    }

    /// A refund seen on an Ethereum-family ledger, as an event of the swap.
    pub fn ethereum_refunded(refunded: Refunded<EthereumTransaction>) -> (r: HtlcEvent)
        ensures
            r == HtlcEvent::Refunded(
                Refunded { transaction: Transaction::Ethereum(refunded.transaction) },
            ),
    {
        HtlcEvent::Refunded(Refunded { transaction: Transaction::Ethereum(refunded.transaction) })
    }
}

/// Whether what funded the contract was the expected asset, as far as a
/// spent contract still tells.
pub open spec fn funded_as_expected(ledger: SwapLedgerState, expected: Asset) -> bool {
    match ledger {
        LedgerState::Redeemed { asset, .. } => asset == expected,
        LedgerState::Refunded { asset, .. } => asset == expected,
        _ => true,
    }
}

/// The state of one ledger after an event, for a contract that is to hold
/// `expected` under `hash`. A funding with another asset than the expected
/// one counts as incorrect on an account ledger; where bitcoin is expected it
/// is dropped, for anyone can pay anything to the contract's address. A
/// redeem whose secret does not open the hash is dropped.
pub open spec fn ledger_after(
    ledger: SwapLedgerState,
    expected: Asset,
    hash: SecretHash,
    event: HtlcEvent,
) -> SwapLedgerState {
    match event {
        HtlcEvent::Deployed(deployed) => ledger.after_deployed(deployed),
        HtlcEvent::Funded(funded) => if funded.asset == expected {
            ledger.after_funded(funded)
        } else if expected is Bitcoin {
            ledger
        } else {
            ledger.after_incorrectly_funded(funded)
        },
        HtlcEvent::Redeemed(redeemed) => if sha256(redeemed.secret@) == hash@ {
            ledger.after_redeemed(redeemed)
        } else {
            ledger
        },
        HtlcEvent::Refunded(refunded) => ledger.after_refunded(refunded),
        HtlcEvent::Revoked(tag) => ledger.after_revoked(tag, funded_as_expected(ledger, expected)),
    }
}

/// The state of a swap after an event on one of its ledgers. Only an
/// accepted swap is watched: any other stays as it is.
pub open spec fn state_after(state: State, side: Side, event: HtlcEvent) -> State {
    match state.swap_communication {
        SwapCommunication::Accepted { request, .. } => match side {
            Side::Alpha => State {
                alpha_ledger_state: ledger_after(
                    state.alpha_ledger_state,
                    request.alpha_asset,
                    request.secret_hash,
                    event,
                ),
                ..state
            },
            Side::Beta => State {
                beta_ledger_state: ledger_after(
                    state.beta_ledger_state,
                    request.beta_asset,
                    request.secret_hash,
                    event,
                ),
                ..state
            },
        },
        _ => state,
    }
}

/// Whether both contracts have been spent, which ends the watch.
pub open spec fn spec_is_terminal(state: State) -> bool {
    state.alpha_ledger_state.spec_is_terminal() && state.beta_ledger_state.spec_is_terminal()
}

/// The state after a history of events, taken in order until both contracts
/// have been spent.
pub open spec fn state_after_all(state: State, events: Seq<(Side, HtlcEvent)>) -> State
    decreases events.len(),
{
    if events.len() == 0 || spec_is_terminal(state) {
        state
    } else {
        state_after_all(state_after(state, events[0].0, events[0].1), events.drop_first())
    }
}

/// The state in which the watch on an accepted swap starts.
pub open spec fn initial_state(
    role: Role,
    request: Request,
    accept: Accept,
    secret_source: SwapSeed,
) -> State {
    State {
        role,
        swap_communication: SwapCommunication::Accepted { request, response: accept },
        alpha_ledger_state: LedgerState::NotDeployed,
        beta_ledger_state: LedgerState::NotDeployed,
        secret_source,
        failed: false,
    }
}

/// Whether what funded the contract was the expected asset.
fn check_funded_as_expected(ledger: &SwapLedgerState, expected: &Asset) -> (r: bool)
    ensures
        r == funded_as_expected(*ledger, *expected),
{
    match ledger {
        LedgerState::Redeemed { asset, .. } => asset.same(expected),
        LedgerState::Refunded { asset, .. } => asset.same(expected),
        _ => true,
    }
}

/// Takes an event into the state of one ledger.
fn apply_to_ledger(
    ledger: &mut SwapLedgerState,
    expected: &Asset,
    hash: &SecretHash,
    event: HtlcEvent,
)
    ensures
        *final(ledger) == ledger_after(*old(ledger), *expected, *hash, event),
{
    match event {
        HtlcEvent::Deployed(deployed) => ledger.transition_to_deployed(deployed),
        HtlcEvent::Funded(funded) => {
            if funded.asset.same(expected) {
                ledger.transition_to_funded(funded)
            } else {
                match expected {
                    Asset::Bitcoin(_) => {},
                    _ => ledger.transition_to_incorrectly_funded(funded),
                }
            }
        },
        HtlcEvent::Redeemed(redeemed) => {
            if redeemed.secret.opens(hash) {
                ledger.transition_to_redeemed(redeemed)
            }
        },
        HtlcEvent::Refunded(refunded) => ledger.transition_to_refunded(refunded),
        HtlcEvent::Revoked(tag) => {
            let as_expected = check_funded_as_expected(ledger, expected);
            ledger.revoke(tag, as_expected)
        },
    }
}

/// No event but a revocation lowers the rank of a ledger's state, and a
/// revocation lowers it by one at most. A recorded secret always opens the
/// hash.
pub proof fn lemma_ledger_progress(
    ledger: SwapLedgerState,
    expected: Asset,
    hash: SecretHash,
    event: HtlcEvent,
)
    ensures
        !(event is Revoked) ==> ledger_after(ledger, expected, hash, event).rank() >= ledger.rank(),
        ledger_after(ledger, expected, hash, event).rank() + 1 >= ledger.rank(),
        (ledger matches LedgerState::Redeemed { secret, .. } ==> sha256(secret@) == hash@) ==> (
        ledger_after(ledger, expected, hash, event) matches LedgerState::Redeemed { secret, .. }
            ==> sha256(secret@) == hash@),
{
}

/// Taking the same event in twice leaves a ledger's state as taking it in
/// once.
pub proof fn lemma_ledger_event_idempotent(
    ledger: SwapLedgerState,
    expected: Asset,
    hash: SecretHash,
    event: HtlcEvent,
)
    ensures
        ledger_after(ledger_after(ledger, expected, hash, event), expected, hash, event)
            == ledger_after(ledger, expected, hash, event),
{
}

/// Whether a funded ledger state tells the truth about its funding: `Funded`
/// holds the expected asset, `IncorrectlyFunded` another one. Every state
/// that events lead to from `NotDeployed` does.
pub open spec fn funding_is_told(ledger: SwapLedgerState, expected: Asset) -> bool {
    match ledger {
        LedgerState::Funded { asset, .. } => asset == expected,
        LedgerState::IncorrectlyFunded { asset, .. } => asset != expected,
        _ => true,
    }
}

/// Events keep a ledger state truthful about its funding.
pub proof fn lemma_funding_stays_told(
    ledger: SwapLedgerState,
    expected: Asset,
    hash: SecretHash,
    event: HtlcEvent,
)
    requires
        funding_is_told(ledger, expected),
    ensures
        funding_is_told(ledger_after(ledger, expected, hash, event), expected),
{
}

/// A revocation undoes the step it names: where an event changed a ledger
/// state, the revocation of the state it led to gives the earlier state
/// back.
pub proof fn lemma_revocation_undoes_the_step(
    ledger: SwapLedgerState,
    expected: Asset,
    hash: SecretHash,
    event: HtlcEvent,
)
    requires
        funding_is_told(ledger, expected),
        !(event is Revoked),
        ledger_after(ledger, expected, hash, event) != ledger,
    ensures
        ledger_after(
            ledger_after(ledger, expected, hash, event),
            expected,
            hash,
            HtlcEvent::Revoked(ledger_after(ledger, expected, hash, event).spec_tag()),
        ) == ledger,
{
}

/// Taking the same event in twice leaves the state of a swap as taking it in
/// once.
pub proof fn lemma_event_idempotent(state: State, side: Side, event: HtlcEvent)
    ensures
        state_after(state_after(state, side, event), side, event) == state_after(
            state,
            side,
            event,
        ),
{
    if let SwapCommunication::Accepted { request, .. } = state.swap_communication {
        lemma_ledger_event_idempotent(
            state.alpha_ledger_state,
            request.alpha_asset,
            request.secret_hash,
            event,
        );
        lemma_ledger_event_idempotent(
            state.beta_ledger_state,
            request.beta_asset,
            request.secret_hash,
            event,
        );
    }
}

/// The state of each ledger moves forward only: no event but a revocation
/// lowers a rank, and a revocation lowers the rank of its own ledger by one
/// at most.
pub proof fn lemma_progress_is_monotone(state: State, side: Side, event: HtlcEvent)
    ensures
        !(event is Revoked) ==> {
            &&& state_after(state, side, event).alpha_ledger_state.rank()
                >= state.alpha_ledger_state.rank()
            &&& state_after(state, side, event).beta_ledger_state.rank()
                >= state.beta_ledger_state.rank()
        },
        state_after(state, side, event).alpha_ledger_state.rank() + 1
            >= state.alpha_ledger_state.rank(),
        state_after(state, side, event).beta_ledger_state.rank() + 1
            >= state.beta_ledger_state.rank(),
        side == Side::Alpha ==> state_after(state, side, event).beta_ledger_state
            == state.beta_ledger_state,
        side == Side::Beta ==> state_after(state, side, event).alpha_ledger_state
            == state.alpha_ledger_state,
{
    if let SwapCommunication::Accepted { request, .. } = state.swap_communication {
        lemma_ledger_progress(
            state.alpha_ledger_state,
            request.alpha_asset,
            request.secret_hash,
            event,
        );
        lemma_ledger_progress(
            state.beta_ledger_state,
            request.beta_asset,
            request.secret_hash,
            event,
        );
    }
}

/// Every secret that a state records opens the hash of the swap, whatever
/// events it has taken in.
pub proof fn lemma_recorded_secrets_open_the_hash(state: State, side: Side, event: HtlcEvent)
    requires
        state.secrets_verified(),
    ensures
        state_after(state, side, event).secrets_verified(),
{
    if let SwapCommunication::Accepted { request, .. } = state.swap_communication {
        lemma_ledger_progress(
            state.alpha_ledger_state,
            request.alpha_asset,
            request.secret_hash,
            event,
        );
        lemma_ledger_progress(
            state.beta_ledger_state,
            request.beta_asset,
            request.secret_hash,
            event,
        );
    }
}

/// A history of events changes neither who the party is, nor what was agreed,
/// nor the seed, nor whether the watch has failed.
pub proof fn lemma_history_keeps_the_agreement(state: State, events: Seq<(Side, HtlcEvent)>)
    ensures
        state_after_all(state, events).role == state.role,
        state_after_all(state, events).swap_communication == state.swap_communication,
        state_after_all(state, events).secret_source == state.secret_source,
        state_after_all(state, events).failed == state.failed,
        state.secrets_verified() ==> state_after_all(state, events).secrets_verified(),
    decreases events.len(),
{
    if events.len() == 0 || spec_is_terminal(state) {
    } else {
        let next = state_after(state, events[0].0, events[0].1);
        if state.secrets_verified() {
            lemma_recorded_secrets_open_the_hash(state, events[0].0, events[0].1);
        }
        lemma_history_keeps_the_agreement(next, events.drop_first());
    }
}

/// An event that a watcher reports twice in a row counts once: the history
/// with the event at `index` repeated ends in the same state as the history
/// itself.
pub proof fn lemma_repeated_event_counts_once(
    state: State,
    events: Seq<(Side, HtlcEvent)>,
    index: int,
)
    requires
        0 <= index < events.len(),
    ensures
        state_after_all(state, events.insert(index, events[index])) == state_after_all(
            state,
            events,
        ),
    decreases index,
{
    let repeated = events.insert(index, events[index]);
    if spec_is_terminal(state) {
    } else if index == 0 {
        let once = state_after(state, events[0].0, events[0].1);
        assert(repeated[0] == events[0]);
        assert(repeated.drop_first() =~= events);
        lemma_event_idempotent(state, events[0].0, events[0].1);
        if spec_is_terminal(once) {
            assert(state_after_all(once, events) == once);
            assert(state_after_all(once, events.drop_first()) == once);
        } else {
            assert(state_after_all(once, events) == state_after_all(
                state_after(once, events[0].0, events[0].1),
                events.drop_first(),
            ));
        }
    } else {
        let next = state_after(state, events[0].0, events[0].1);
        assert(repeated[0] == events[0]);
        assert(repeated.drop_first() =~= events.drop_first().insert(
            index - 1,
            events.drop_first()[index - 1],
        ));
        lemma_repeated_event_counts_once(next, events.drop_first(), index - 1);
    }
}

/// Whether both contracts have been redeemed or refunded.
pub fn is_terminal(state: &State) -> (r: bool)
    ensures
        r == spec_is_terminal(*state),
{
    state.alpha_ledger_state.is_terminal() && state.beta_ledger_state.is_terminal()
}

/// Takes one event of one ledger into the state of a swap. A state that is
/// not of an accepted swap stays as it is.
pub fn apply_event(state: &mut State, side: Side, event: HtlcEvent)
    ensures
        *final(state) == state_after(*old(state), side, event),
        !(event is Revoked) ==> final(state).alpha_ledger_state.rank() >= old(
            state,
        ).alpha_ledger_state.rank() && final(state).beta_ledger_state.rank() >= old(
            state,
        ).beta_ledger_state.rank(),
        old(state).secrets_verified() ==> final(state).secrets_verified(),
{
    proof {
        lemma_progress_is_monotone(*state, side, event);
        if state.secrets_verified() {
            lemma_recorded_secrets_open_the_hash(*state, side, event);
        }
    }
    let request = match &state.swap_communication {
        SwapCommunication::Accepted { request, .. } => *request,
        _ => {
            return ;
        },
    };
    match side {
        Side::Alpha => apply_to_ledger(
            &mut state.alpha_ledger_state,
            &request.alpha_asset,
            &request.secret_hash,
            event,
        ),
        Side::Beta => apply_to_ledger(
            &mut state.beta_ledger_state,
            &request.beta_asset,
            &request.secret_hash,
            event,
        ),
    }
}

/// Takes a history of events into the state of a swap, in order, and stops
/// once both contracts have been spent.
pub fn apply_events(state: &mut State, events: Vec<(Side, HtlcEvent)>)
    ensures
        *final(state) == state_after_all(*old(state), events@),
        old(state).secrets_verified() ==> final(state).secrets_verified(),
{
    let ghost start = *state;
    let ghost history = events@;
    proof {
        lemma_history_keeps_the_agreement(start, history);
    }
    let mut rest = events;
    while rest.len() > 0 && !is_terminal(state)
        invariant
            state_after_all(*state, rest@) == state_after_all(start, history),
        decreases rest@.len(),
    {
        let ghost before = rest@;
        let (side, event) = rest.remove(0);
        assert(rest@ =~= before.drop_first());
        apply_event(state, side, event);
    }
}

/// The state in which the watch on an accepted swap starts: nothing seen on
/// either ledger, and the seed of the swap derived from the node's seed and
/// the swap's id.
pub fn init_accepted_swap(seed: &Seed, accepted: &AcceptedSwap, role: Role) -> (r: State)
    ensures
        r == initial_state(role, accepted.0, accepted.1, r.secret_source),
        r.secret_source@ == seeded_digest(seed@, swap_tag() + accepted.0.swap_id@),
        r.secrets_verified(),
{
    let request = accepted.0;
    let accept = accepted.1;
    let secret_source = seed.derive_swap_seed(request.swap_id);
    State::accepted(role, request, accept, secret_source)
}

/// The state that the watch on an accepted swap reaches after the given
/// history of its two ledgers. It is a function of the seed, the agreement,
/// the role and the history alone: watching the same history again ends in
/// the same state.
pub fn replay(seed: &Seed, accepted: &AcceptedSwap, role: Role, events: Vec<(Side, HtlcEvent)>)
    -> (r: State)
    ensures
        r == state_after_all(
            initial_state(role, accepted.0, accepted.1, r.secret_source),
            events@,
        ),
        r.secret_source@ == seeded_digest(seed@, swap_tag() + accepted.0.swap_id@),
        r.secrets_verified(),
{
    let mut state = init_accepted_swap(seed, accepted, role);
    proof {
        lemma_history_keeps_the_agreement(state, events@);
    }
    apply_events(&mut state, events);
    state
}

} // verus!
