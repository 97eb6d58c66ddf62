//! A swap as it is shown to its owner: what was agreed, how far it has got,
//! and what can be done next.

use crate::actions::{action_views, Action, ActionView};
use crate::asset::Asset;
use crate::db::Swap;
use crate::ids::SwapId;
use crate::ledger::Ledger;
use crate::ledger_state::{LedgerState, StateTag};
use crate::messages::{Request, SwapCommunication};
use crate::state::{State, SwapLedgerState};
use crate::transaction::HtlcLocation;
use vstd::prelude::*;

verus! {

/// The two ledgers and the two assets of a swap.
#[derive(Clone, Copy, Debug, PartialEq)]
pub struct SwapParameters {
    pub alpha_ledger: Ledger,
    pub beta_ledger: Ledger,
    pub alpha_asset: Asset,
    pub beta_asset: Asset,
}

/// How a swap stands as a whole.
#[derive(Clone, Copy, Debug, PartialEq, Eq, Structural)]
pub enum SwapStatus {
    InProgress,
    Swapped,
    NotSwapped,
    InternalFailure,
}

/// How far the two parties have got in agreeing, without what was said.
#[derive(Clone, Copy, Debug, PartialEq, Eq, Structural)]
pub enum SwapCommunicationState {
    Sent,
    Accepted,
    Declined,
}

/// Whether to show the state of the two ledgers.
#[derive(Clone, Copy, Debug, PartialEq, Eq, Structural)]
pub enum IncludeState {
    Yes,
    No,
}

/// What to do with a swap whose watch has failed: refuse to show it, or show
/// it without actions.
#[derive(Clone, Copy, Debug, PartialEq, Eq, Structural)]
pub enum OnFail {
    Error,
    NoAction,
}

/// What is shown of one ledger: how far its contract has got, and where the
/// contract lives once that is known.
#[derive(Clone, Copy, Debug, PartialEq)]
pub struct LedgerSummary {
    pub status: StateTag,
    pub htlc_location: Option<HtlcLocation>,
}

/// What is shown of the state of a swap.
#[derive(Clone, Copy, Debug, PartialEq)]
pub struct SwapState {
    pub communication: SwapCommunication,
    pub alpha_ledger: LedgerSummary,
    pub beta_ledger: LedgerSummary,
}

/// What is shown of a swap.
#[derive(Clone, Debug, PartialEq)]
pub struct SwapResource {
    pub id: SwapId,
    pub role: String,
    pub status: SwapStatus,
    pub parameters: SwapParameters,
    pub state: Option<SwapState>,
}

/// A swap with the actions that are open to its owner.
#[derive(Clone, Debug, PartialEq)]
pub struct SwapEntity {
    pub resource: SwapResource,
    pub actions: Vec<Action>,
}

/// Why a swap cannot be shown.
#[derive(Clone, Copy, Debug, PartialEq, Eq, Structural)]
pub enum BuildError {
    /// Nothing is known of the swap's state.
    StateNotFound,
    /// The watch on the swap has failed, and such swaps were not to be shown.
    SwapFailed,
}

/// The parameters of the swap that `request` proposes.
pub open spec fn parameters_of(request: Request) -> SwapParameters {
    SwapParameters {
        alpha_ledger: request.alpha_ledger,
        beta_ledger: request.beta_ledger,
        alpha_asset: request.alpha_asset,
        beta_asset: request.beta_asset,
    }
}

/// How far the communication has got.
pub open spec fn communication_state(communication: SwapCommunication) -> SwapCommunicationState {
    match communication {
        SwapCommunication::Proposed { .. } => SwapCommunicationState::Sent,
        SwapCommunication::Accepted { .. } => SwapCommunicationState::Accepted,
        SwapCommunication::Declined { .. } => SwapCommunicationState::Declined,
    }
}

/// What is shown of a ledger's state.
pub open spec fn summary_of(ledger: SwapLedgerState) -> LedgerSummary {
    LedgerSummary {
        status: ledger.spec_tag(),
        htlc_location: match ledger {
            LedgerState::NotDeployed => None,
            LedgerState::Deployed { htlc_location, .. } => Some(htlc_location),
            LedgerState::Funded { htlc_location, .. } => Some(htlc_location),
            LedgerState::IncorrectlyFunded { htlc_location, .. } => Some(htlc_location),
            LedgerState::Redeemed { htlc_location, .. } => Some(htlc_location),
            LedgerState::Refunded { htlc_location, .. } => Some(htlc_location),
        },
    }
}

/// How a swap stands as a whole. A declined swap is not swapped. A proposed
/// one is in progress, and so is an accepted one until both contracts are
/// spent: then it is swapped if both were redeemed, and not swapped
/// otherwise. Contracts that moved though the proposal was never accepted
/// are a failure of this node.
pub open spec fn status_of(
    communication: SwapCommunicationState,
    alpha: StateTag,
    beta: StateTag,
) -> SwapStatus {
    match communication {
        SwapCommunicationState::Declined => SwapStatus::NotSwapped,
        SwapCommunicationState::Sent => if alpha == StateTag::NotDeployed && beta
            == StateTag::NotDeployed {
            SwapStatus::InProgress
        } else {
            SwapStatus::InternalFailure
        },
        SwapCommunicationState::Accepted => if alpha == StateTag::Redeemed && beta
            == StateTag::Redeemed {
            SwapStatus::Swapped
        } else if alpha.rank() == 3 && beta.rank() == 3 {
            SwapStatus::NotSwapped
        } else {
            SwapStatus::InProgress
        },
    }
}

/// The actions shown with a swap: those open to its owner, or none where the
/// watch on the swap has failed.
pub open spec fn shown_actions(state: State) -> Seq<ActionView> {
    if state.failed {
        seq![]
    } else {
        state.spec_actions()
    }
}

impl SwapStatus {
    /// How a swap stands as a whole, from how far its parts have got.
    pub fn new(
        swap_communication_state: SwapCommunicationState,
        alpha_ledger: StateTag,
        beta_ledger: StateTag,
    ) -> (r: SwapStatus)
        ensures
            r == status_of(swap_communication_state, alpha_ledger, beta_ledger),
    {
        match swap_communication_state {
            SwapCommunicationState::Declined => SwapStatus::NotSwapped,
            SwapCommunicationState::Sent => {
                if alpha_ledger == StateTag::NotDeployed && beta_ledger == StateTag::NotDeployed {
                    SwapStatus::InProgress
                } else {
                    SwapStatus::InternalFailure
                }
            },
            SwapCommunicationState::Accepted => {
                let alpha_spent = alpha_ledger == StateTag::Redeemed || alpha_ledger
                    == StateTag::Refunded;
                let beta_spent = beta_ledger == StateTag::Redeemed || beta_ledger
                    == StateTag::Refunded;
                if alpha_ledger == StateTag::Redeemed && beta_ledger == StateTag::Redeemed {
                    SwapStatus::Swapped
                } else if alpha_spent && beta_spent {
                    SwapStatus::NotSwapped
                } else {
                    SwapStatus::InProgress
                }
            },
        }
    }
}

impl From<Request> for SwapParameters {
    fn from(request: Request) -> (r: SwapParameters) {
        SwapParameters {
            alpha_ledger: request.alpha_ledger,
            beta_ledger: request.beta_ledger,
            alpha_asset: request.alpha_asset,
            beta_asset: request.beta_asset,
        }
    }
}

impl vstd::std_specs::convert::FromSpecImpl<Request> for SwapParameters {
    open spec fn obeys_from_spec() -> bool {
        true
    }

    open spec fn from_spec(request: Request) -> SwapParameters {
        parameters_of(request)
    }
}

impl SwapCommunicationState {
    /// How far `communication` has got.
    pub fn of(communication: &SwapCommunication) -> (r: SwapCommunicationState)
        ensures
            r == communication_state(*communication),
    {
        match communication {
            SwapCommunication::Proposed { .. } => SwapCommunicationState::Sent,
            SwapCommunication::Accepted { .. } => SwapCommunicationState::Accepted,
            SwapCommunication::Declined { .. } => SwapCommunicationState::Declined,
        }
    }
}

impl LedgerSummary {
    /// What is shown of `ledger`.
    pub fn of(ledger: &SwapLedgerState) -> (r: LedgerSummary)
        ensures
            r == summary_of(*ledger),
    {
        let htlc_location = match ledger {
            LedgerState::NotDeployed => None,
            LedgerState::Deployed { htlc_location, .. } => Some(*htlc_location),
            LedgerState::Funded { htlc_location, .. } => Some(*htlc_location),
            LedgerState::IncorrectlyFunded { htlc_location, .. } => Some(*htlc_location),
            LedgerState::Redeemed { htlc_location, .. } => Some(*htlc_location),
            LedgerState::Refunded { htlc_location, .. } => Some(*htlc_location),
        };
        LedgerSummary { status: ledger.tag(), htlc_location }
    }
}

/// Builds what is shown of a swap from its remembered row and its state, if
/// one is known.
///
/// Fails where no state is known, and where the watch has failed and
/// `on_fail` asks for an error. Otherwise the swap is shown with its status
/// and parameters, with the state of its ledgers where `include_state` asks
/// for it, and with the actions open to its owner, which are none where the
/// watch has failed.
pub fn build_rfc003_siren_entity(
    state: Option<&State>,
    swap: Swap,
    include_state: IncludeState,
    on_fail: OnFail,
) -> (r: Result<SwapEntity, BuildError>)
    ensures
        state is None ==> r == Err::<SwapEntity, BuildError>(BuildError::StateNotFound),
        state matches Some(state) ==> {
            &&& state.failed && on_fail == OnFail::Error ==> r == Err::<SwapEntity, BuildError>(
                BuildError::SwapFailed,
            )
            &&& !(state.failed && on_fail == OnFail::Error) ==> r is Ok
            &&& r matches Ok(entity) ==> {
                &&& entity.resource.id == swap.swap_id
                &&& entity.resource.role@ == swap.role.spec_name()
                &&& entity.resource.status == status_of(
                    communication_state(state.swap_communication),
                    state.alpha_ledger_state.spec_tag(),
                    state.beta_ledger_state.spec_tag(),
                )
                &&& entity.resource.parameters == parameters_of(
                    state.swap_communication.spec_request(),
                )
                &&& entity.resource.state == match include_state {
                    IncludeState::Yes => Some(
                        SwapState {
                            communication: state.swap_communication,
                            alpha_ledger: summary_of(state.alpha_ledger_state),
                            beta_ledger: summary_of(state.beta_ledger_state),
                        },
                    ),
                    IncludeState::No => None,
                }
                &&& action_views(entity.actions@) == shown_actions(*state)
            }
        },
{
    let state = match state {
        Some(state) => state,
        None => {
            return Err(BuildError::StateNotFound);
        },
    };
    if state.swap_failed() && on_fail == OnFail::Error {
        return Err(BuildError::SwapFailed);
    }
    let communication = state.swap_communication;
    let alpha_ledger = LedgerSummary::of(&state.alpha_ledger_state);
    let beta_ledger = LedgerSummary::of(&state.beta_ledger_state);
    let parameters = SwapParameters::from(*state.request());
    let status = SwapStatus::new(
        SwapCommunicationState::of(&communication),
        alpha_ledger.status,
        beta_ledger.status,
    );
    let resource = SwapResource {
        id: swap.swap_id,
        role: swap.role.to_string(),
        status,
        parameters,
        state: match include_state {
            IncludeState::Yes => Some(SwapState { communication, alpha_ledger, beta_ledger }),
            IncludeState::No => None,
        },
    };
    let actions = if state.swap_failed() {
        let none: Vec<Action> = Vec::new();
        assert(action_views(none@) =~= seq![]);
        none
    } else {
        state.actions()
    };
    Ok(SwapEntity { resource, actions })
}

} // verus!
