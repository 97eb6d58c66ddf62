//! The state of one swap as one party sees it, and what that party can do
//! next.

use crate::actions::dispatch::{
    fund_deployed_action, optional_view, redeem_action, refund_action, spec_fund_deployed_action,
    spec_redeem_action, spec_refund_action, spec_start_action, start_action,
};
use crate::actions::{action_views, Action, ActionView, LedgerActionView};
use crate::contracts::secp256k1_secret_key_valid;
use crate::seed::{redeem_tag, seeded_digest};
use crate::asset::Asset;
use crate::db::Role;
use crate::htlc_params::{alpha_params, beta_params, HtlcParams};
use crate::ledger_state::LedgerState;
use crate::messages::{Accept, Decline, Request, SwapCommunication};
use crate::secret::sha256;
use crate::seed::SwapSeed;
use crate::transaction::{HtlcLocation, Transaction};
use vstd::prelude::*;

verus! {

/// The state of the contract on one ledger of a swap.
pub type SwapLedgerState = LedgerState<HtlcLocation, Transaction, Asset>;

/// Everything one party knows of one swap.
#[derive(Clone, Debug, PartialEq)]
pub struct State {
    pub role: Role,
    pub swap_communication: SwapCommunication,
    pub alpha_ledger_state: SwapLedgerState,
    pub beta_ledger_state: SwapLedgerState,
    /// Used to derive identities and, by Alice, the secret.
    pub secret_source: SwapSeed,
    pub failed: bool,
}

/// A list of no action or one.
pub open spec fn listed(action: Option<ActionView>) -> Seq<ActionView> {
    match action {
        Some(action) => seq![action],
        None => seq![],
    }
}

/// Alice's redeem on the beta ledger, offered while the beta contract is
/// funded as agreed. Her secret comes from her seed.
pub open spec fn alice_redeem(
    request: Request,
    response: Accept,
    beta: SwapLedgerState,
    secret_source: SwapSeed,
) -> Seq<ActionView> {
    match beta {
        LedgerState::Funded { htlc_location, .. } => listed(
            spec_redeem_action(
                beta_params(request, response),
                htlc_location,
                secret_source,
                secret_source.spec_secret(),
            ),
        ),
        _ => seq![],
    }
}

/// What Alice can do in an accepted swap: fund the alpha contract, then wait
/// with the refund at hand, and redeem the beta contract once it is funded.
pub open spec fn alice_actions(
    request: Request,
    response: Accept,
    alpha: SwapLedgerState,
    beta: SwapLedgerState,
    secret_source: SwapSeed,
) -> Seq<ActionView> {
    let params = alpha_params(request, response);
    match alpha {
        LedgerState::NotDeployed => listed(spec_start_action(params)),
        LedgerState::IncorrectlyFunded { htlc_location, fund_transaction, .. } => listed(
            spec_refund_action(params, htlc_location, secret_source, fund_transaction),
        ),
        LedgerState::Deployed { htlc_location, .. } => listed(
            spec_fund_deployed_action(params, htlc_location),
        ) + alice_redeem(request, response, beta, secret_source),
        LedgerState::Funded { htlc_location, fund_transaction, .. } => listed(
            spec_refund_action(params, htlc_location, secret_source, fund_transaction),
        ) + alice_redeem(request, response, beta, secret_source),
        _ => alice_redeem(request, response, beta, secret_source),
    }
}

/// What Bob can do in an accepted swap. He acts only while the alpha contract
/// is funded as agreed: he funds the beta contract, then holds its refund,
/// and redeems the alpha contract with the secret that Alice's redeem showed.
pub open spec fn bob_actions(
    request: Request,
    response: Accept,
    alpha: SwapLedgerState,
    beta: SwapLedgerState,
    secret_source: SwapSeed,
) -> Seq<ActionView> {
    match alpha {
        LedgerState::Funded { htlc_location: alpha_location, .. } => match beta {
            LedgerState::Redeemed { secret, .. } => listed(
                spec_redeem_action(
                    alpha_params(request, response),
                    alpha_location,
                    secret_source,
                    secret@,
                ),
            ),
            LedgerState::NotDeployed => listed(spec_start_action(beta_params(request, response))),
            LedgerState::Deployed { htlc_location, .. } => listed(
                spec_fund_deployed_action(beta_params(request, response), htlc_location),
            ),
            LedgerState::Funded { htlc_location, fund_transaction, .. } => listed(
                spec_refund_action(
                    beta_params(request, response),
                    htlc_location,
                    secret_source,
                    fund_transaction,
                ),
            ),
            _ => seq![],
        },
        _ => seq![],
    }
}

/// What a party can do next. Before the answer only Bob can act, by giving
/// it; after a decline nobody can.
pub open spec fn spec_actions(
    role: Role,
    swap_communication: SwapCommunication,
    alpha: SwapLedgerState,
    beta: SwapLedgerState,
    secret_source: SwapSeed,
) -> Seq<ActionView> {
    match swap_communication {
        SwapCommunication::Proposed { .. } => match role {
            Role::Alice => seq![],
            Role::Bob => seq![ActionView::Accept, ActionView::Decline],
        },
        SwapCommunication::Accepted { request, response } => match role {
            Role::Alice => alice_actions(request, response, alpha, beta, secret_source),
            Role::Bob => bob_actions(request, response, alpha, beta, secret_source),
        },
        SwapCommunication::Declined { .. } => seq![],
    }
}

/// The earliest block time at which an instruction can take effect, or zero
/// where it is not held back.
pub open spec fn not_before(action: LedgerActionView) -> u32 {
    match action {
        LedgerActionView::EthereumCallContract(call) => match call.min_block_timestamp {
            Some(time) => time.0,
            None => 0,
        },
        LedgerActionView::BitcoinSpendOutput(spend) => spend.input_parameters.locktime,
        _ => 0,
    }
}

/// Whether a refund is among the actions.
pub open spec fn offers_refund(actions: Seq<ActionView>) -> bool {
    exists|i: int| 0 <= i < actions.len() && actions[i] is Refund
}

/// Whether a redeem is among the actions.
pub open spec fn offers_redeem(actions: Seq<ActionView>) -> bool {
    exists|i: int| 0 <= i < actions.len() && actions[i] is Redeem
}

/// Bob is offered the refund of the beta contract only in states in which
/// Alice is offered its redeem, and his refund is held back until the beta
/// contract expires: where the alpha contract expires later, that is before
/// Alice can have her own refund. Alice's redeem on Bitcoin needs a key that
/// can sign; the law speaks of the seeds that yield one.
pub proof fn lemma_refund_waits_for_redeem(
    request: Request,
    response: Accept,
    alpha: SwapLedgerState,
    beta: SwapLedgerState,
    alice_source: SwapSeed,
    bob_source: SwapSeed,
)
    ensures
        offers_refund(bob_actions(request, response, alpha, beta, bob_source)) ==> alpha is Funded
            && beta is Funded,
        offers_refund(bob_actions(request, response, alpha, beta, bob_source)) && (beta_params(
            request,
            response,
        ).spec_as_bitcoin() is Some ==> secp256k1_secret_key_valid(
            seeded_digest(alice_source@, redeem_tag()),
        )) ==> offers_redeem(alice_actions(request, response, alpha, beta, alice_source)),
        forall|i: int|
            0 <= i < bob_actions(request, response, alpha, beta, bob_source).len() ==> (
            #[trigger] bob_actions(request, response, alpha, beta, bob_source)[i]
                matches ActionView::Refund(refund) ==> not_before(refund) == request.beta_expiry.0
                && (request.expiries_ordered() ==> not_before(refund) < request.alpha_expiry.0)),
{
    let bob = bob_actions(request, response, alpha, beta, bob_source);
    let alice = alice_actions(request, response, alpha, beta, alice_source);
    if offers_refund(bob) && (beta_params(request, response).spec_as_bitcoin() is Some
        ==> secp256k1_secret_key_valid(seeded_digest(alice_source@, redeem_tag()))) {
        let redeem = alice_redeem(request, response, beta, alice_source);
        assert(redeem.len() == 1 && redeem[0] is Redeem);
        assert(alice[alice.len() - 1] == redeem[0]);
    }
}

/// The actions offered are a function of the role, the communication, the two
/// ledger states and the seed: two states that agree on these are offered the
/// same, whether or not the watch on either has failed.
pub proof fn lemma_actions_depend_on_the_swap_alone(first: State, second: State)
    requires
        first.role == second.role,
        first.swap_communication == second.swap_communication,
        first.alpha_ledger_state == second.alpha_ledger_state,
        first.beta_ledger_state == second.beta_ledger_state,
        first.secret_source == second.secret_source,
    ensures
        first.spec_actions() == second.spec_actions(),
{
}

/// Adds the action to the list, if there is one.
fn push_listed(actions: &mut Vec<Action>, action: Option<Action>)
    ensures
        action_views(final(actions)@) == action_views(old(actions)@) + listed(
            optional_view(action),
        ),
{
    match action {
        Some(action) => {
            actions.push(action);
            assert(action_views(actions@) =~= action_views(old(actions)@) + seq![action@]);
        },
        None => {
            assert(action_views(actions@) =~= action_views(old(actions)@) + seq![]);
        },
    }
}

impl State {
    /// Whether a secret recorded on either ledger opens the swap's hash.
    pub open spec fn secrets_verified(self) -> bool {
        let hash = self.swap_communication.spec_request().secret_hash;
        &&& self.alpha_ledger_state matches LedgerState::Redeemed { secret, .. } ==> sha256(
            secret@,
        ) == hash@
        &&& self.beta_ledger_state matches LedgerState::Redeemed { secret, .. } ==> sha256(
            secret@,
        ) == hash@
    }

    /// What this party can do next, in specifications.
    pub open spec fn spec_actions(self) -> Seq<ActionView> {
        spec_actions(
            self.role,
            self.swap_communication,
            self.alpha_ledger_state,
            self.beta_ledger_state,
            self.secret_source,
        )
    }

    /// The state of a swap that was proposed and not yet answered.
    pub fn proposed(role: Role, request: Request, secret_source: SwapSeed) -> (r: Self)
        ensures
            r == (State {
                role,
                swap_communication: SwapCommunication::Proposed { request },
                alpha_ledger_state: LedgerState::NotDeployed,
                beta_ledger_state: LedgerState::NotDeployed,
                secret_source,
                failed: false,
            }),
            r.secrets_verified(),
    {
        State {
            role,
            swap_communication: SwapCommunication::Proposed { request },
            alpha_ledger_state: LedgerState::NotDeployed,
            beta_ledger_state: LedgerState::NotDeployed,
            secret_source,
            failed: false,
        }
    }

    /// The state of a swap that was accepted, before anything was seen on
    /// either ledger.
    pub fn accepted(role: Role, request: Request, response: Accept, secret_source: SwapSeed) -> (r:
        Self)
        ensures
            r == (State {
                role,
                swap_communication: SwapCommunication::Accepted { request, response },
                alpha_ledger_state: LedgerState::NotDeployed,
                beta_ledger_state: LedgerState::NotDeployed,
                secret_source,
                failed: false,
            }),
            r.secrets_verified(),
    {
        State {
            role,
            swap_communication: SwapCommunication::Accepted { request, response },
            alpha_ledger_state: LedgerState::NotDeployed,
            beta_ledger_state: LedgerState::NotDeployed,
            secret_source,
            failed: false,
        }
    }

    /// The state of a swap that was declined.
    pub fn declined(role: Role, request: Request, response: Decline, secret_source: SwapSeed) -> (r:
        Self)
        ensures
            r == (State {
                role,
                swap_communication: SwapCommunication::Declined { request, response },
                alpha_ledger_state: LedgerState::NotDeployed,
                beta_ledger_state: LedgerState::NotDeployed,
                secret_source,
                failed: false,
            }),
            r.secrets_verified(),
    {
        State {
            role,
            swap_communication: SwapCommunication::Declined { request, response },
            alpha_ledger_state: LedgerState::NotDeployed,
            beta_ledger_state: LedgerState::NotDeployed,
            secret_source,
            failed: false,
        }
    }

    /// The proposal that the swap started with.
    pub fn request(&self) -> (r: &Request)
        ensures
            *r == self.swap_communication.spec_request(),
    {
        self.swap_communication.request()
    }

    /// The asset that the alpha contract is to hold.
    pub fn expected_alpha_asset(&self) -> (r: &Asset)
        ensures
            *r == self.swap_communication.spec_request().alpha_asset,
    {
        &self.swap_communication.request().alpha_asset
    }

    /// The asset that the beta contract is to hold.
    pub fn expected_beta_asset(&self) -> (r: &Asset)
        ensures
            *r == self.swap_communication.spec_request().beta_asset,
    {
        &self.swap_communication.request().beta_asset
    }

    /// The state of the alpha ledger, to be changed in place.
    pub fn alpha_ledger_mut(&mut self) -> (r: &mut SwapLedgerState)
        ensures
            *r == old(self).alpha_ledger_state,
            *final(self) == (State { alpha_ledger_state: *final(r), ..*old(self) }),
    {
        &mut self.alpha_ledger_state
    }

    /// The state of the beta ledger, to be changed in place.
    pub fn beta_ledger_mut(&mut self) -> (r: &mut SwapLedgerState)
        ensures
            *r == old(self).beta_ledger_state,
            *final(self) == (State { beta_ledger_state: *final(r), ..*old(self) }),
    {
        &mut self.beta_ledger_state
    }

    /// Whether the watch on this swap has failed.
    pub fn swap_failed(&self) -> (r: bool)
        ensures
            r == self.failed,
    {
        self.failed
    }

    /// Records that the watch on this swap has failed. Nothing else changes.
    pub fn set_swap_failed(&mut self)
        ensures
            *final(self) == (State { failed: true, ..*old(self) }),
    {
        self.failed = true;
    }

    /// What this party can do next, in order.
    pub fn actions(&self) -> (r: Vec<Action>)
        ensures
            action_views(r@) == self.spec_actions(),
    {
        let mut actions: Vec<Action> = Vec::new();
        assert(action_views(actions@) =~= seq![]);
        let (request, response) = match &self.swap_communication {
            SwapCommunication::Proposed { .. } => {
                match self.role {
                    Role::Alice => {},
                    Role::Bob => {
                        actions.push(Action::Accept);
                        actions.push(Action::Decline);
                        assert(action_views(actions@) =~= seq![
                            ActionView::Accept,
                            ActionView::Decline,
                        ]);
                    },
                }
                return actions;
            },
            SwapCommunication::Accepted { request, response } => (request, response),
            SwapCommunication::Declined { .. } => {
                return actions;
            },
        };
        let alpha = HtlcParams::new_alpha_params(request, response);
        let beta = HtlcParams::new_beta_params(request, response);
        match self.role {
            Role::Alice => {
                let mut may_redeem = true;
                match &self.alpha_ledger_state {
                    LedgerState::NotDeployed => {
                        push_listed(&mut actions, start_action(&alpha));
                        may_redeem = false;
                    },
                    LedgerState::IncorrectlyFunded { htlc_location, fund_transaction, .. } => {
                        push_listed(
                            &mut actions,
                            refund_action(
                                &alpha,
                                htlc_location,
                                &self.secret_source,
                                fund_transaction,
                            ),
                        );
                        may_redeem = false;
                    },
                    LedgerState::Deployed { htlc_location, .. } => {
                        push_listed(&mut actions, fund_deployed_action(&alpha, htlc_location));
                    },
                    LedgerState::Funded { htlc_location, fund_transaction, .. } => {
                        push_listed(
                            &mut actions,
                            refund_action(
                                &alpha,
                                htlc_location,
                                &self.secret_source,
                                fund_transaction,
                            ),
                        );
                    },
                    _ => {},
                }
                if may_redeem {
                    match &self.beta_ledger_state {
                        LedgerState::Funded { htlc_location, .. } => {
                            let secret = self.secret_source.derive_secret();
                            push_listed(
                                &mut actions,
                                redeem_action(&beta, htlc_location, &self.secret_source, secret),
                            );
                        },
                        _ => {
                            assert(action_views(actions@) + seq![] =~= action_views(actions@));
                        },
                    }
                } else {
                    assert(action_views(actions@) + seq![] =~= action_views(actions@));
                }
                assert(seq![] + alice_redeem(
                    *request,
                    *response,
                    self.beta_ledger_state,
                    self.secret_source,
                ) =~= alice_redeem(
                    *request,
                    *response,
                    self.beta_ledger_state,
                    self.secret_source,
                ));
            },
            Role::Bob => {
                match (&self.alpha_ledger_state, &self.beta_ledger_state) {
                    (
                        LedgerState::Funded { htlc_location, .. },
                        LedgerState::Redeemed { secret, .. },
                    ) => {
                        push_listed(
                            &mut actions,
                            redeem_action(&alpha, htlc_location, &self.secret_source, *secret),
                        );
                    },
                    (LedgerState::Funded { .. }, LedgerState::NotDeployed) => {
                        push_listed(&mut actions, start_action(&beta));
                    },
                    (LedgerState::Funded { .. }, LedgerState::Deployed { htlc_location, .. }) => {
                        push_listed(&mut actions, fund_deployed_action(&beta, htlc_location));
                    },
                    (
                        LedgerState::Funded { .. },
                        LedgerState::Funded { htlc_location, fund_transaction, .. },
                    ) => {
                        push_listed(
                            &mut actions,
                            refund_action(
                                &beta,
                                htlc_location,
                                &self.secret_source,
                                fund_transaction,
                            ),
                        );
                    },
                    _ => {},
                }
                assert(forall|s: Seq<ActionView>| seq![] + s =~= s);
            },
        }
        actions
    }
}

} // verus!
