//! The progression of one ledger's contract through its life.

use crate::secret::Secret;
use vstd::prelude::*;

verus! {

/// The contract was seen at `location`, created by `transaction`.
#[derive(Clone, Debug, PartialEq)]
pub struct Deployed<T, H> {
    pub transaction: T,
    pub location: H,
}

/// The contract received `asset` through `transaction`.
#[derive(Clone, Debug, PartialEq)]
pub struct Funded<T, A> {
    pub transaction: T,
    pub asset: A,
}

/// The contract paid out to the redeemer, who revealed `secret` in `transaction`.
#[derive(Clone, Debug, PartialEq)]
pub struct Redeemed<T> {
    pub transaction: T,
    pub secret: Secret,
}

/// The contract paid back to the funder in `transaction`.
#[derive(Clone, Debug, PartialEq)]
pub struct Refunded<T> {
    pub transaction: T,
}

/// The name of a ledger state, without what it holds.
#[derive(Clone, Copy, Debug, PartialEq, Eq, Structural)]
pub enum StateTag {
    NotDeployed,
    Deployed,
    Funded,
    IncorrectlyFunded,
    Redeemed,
    Refunded,
}

/// Where the contract on one ledger stands. Each state keeps what the earlier
/// ones held, so that a step can be taken back.
#[derive(Clone, Debug, PartialEq)]
pub enum LedgerState<H, T, A> {
    NotDeployed,
    Deployed { htlc_location: H, deploy_transaction: T },
    Funded { htlc_location: H, deploy_transaction: T, fund_transaction: T, asset: A },
    IncorrectlyFunded { htlc_location: H, deploy_transaction: T, fund_transaction: T, asset: A },
    Redeemed {
        htlc_location: H,
        deploy_transaction: T,
        fund_transaction: T,
        redeem_transaction: T,
        asset: A,
        secret: Secret,
    },
    Refunded {
        htlc_location: H,
        deploy_transaction: T,
        fund_transaction: T,
        refund_transaction: T,
        asset: A,
    },
}

impl StateTag {
    /// How far along a state with this tag is: 0 before deployment, 1 once
    /// deployed, 2 once funded (rightly or wrongly), 3 once spent.
    pub open spec fn rank(self) -> nat {
        match self {
            StateTag::NotDeployed => 0,
            StateTag::Deployed => 1,
            StateTag::Funded => 2,
            StateTag::IncorrectlyFunded => 2,
            StateTag::Redeemed => 3,
            StateTag::Refunded => 3,
        }
    }
}

impl<H, T, A> LedgerState<H, T, A> {
    /// The tag of this state.
    pub open spec fn spec_tag(self) -> StateTag {
        match self {
            LedgerState::NotDeployed => StateTag::NotDeployed,
            LedgerState::Deployed { .. } => StateTag::Deployed,
            LedgerState::Funded { .. } => StateTag::Funded,
            LedgerState::IncorrectlyFunded { .. } => StateTag::IncorrectlyFunded,
            LedgerState::Redeemed { .. } => StateTag::Redeemed,
            LedgerState::Refunded { .. } => StateTag::Refunded,
        }
    }

    /// How far along this state is.
    pub open spec fn rank(self) -> nat {
        self.spec_tag().rank()
    }

    /// Whether the contract has been spent, which ends the watch on this ledger.
    pub open spec fn spec_is_terminal(self) -> bool {
        self is Redeemed || self is Refunded
    }

    /// The state after a deployment is seen: it takes effect only before any
    /// deployment.
    pub open spec fn after_deployed(self, deployed: Deployed<T, H>) -> Self {
        match self {
            LedgerState::NotDeployed => LedgerState::Deployed {
                htlc_location: deployed.location,
                deploy_transaction: deployed.transaction,
            },
            _ => self,
        }
    }

    /// The state after a funding of the expected asset is seen: it takes effect
    /// only on a deployed, unfunded contract.
    pub open spec fn after_funded(self, funded: Funded<T, A>) -> Self {
        match self {
            LedgerState::Deployed { htlc_location, deploy_transaction } => LedgerState::Funded {
                htlc_location,
                deploy_transaction,
                fund_transaction: funded.transaction,
                asset: funded.asset,
            },
            _ => self,
        }
    }

    /// The state after a funding of another asset than the expected one is
    /// seen: it takes effect only on a deployed, unfunded contract.
    pub open spec fn after_incorrectly_funded(self, funded: Funded<T, A>) -> Self {
        match self {
            LedgerState::Deployed {
                htlc_location,
                deploy_transaction,
            } => LedgerState::IncorrectlyFunded {
                htlc_location,
                deploy_transaction,
                fund_transaction: funded.transaction,
                asset: funded.asset,
            },
            _ => self,
        }
    }

    /// The state after a redeem is seen: it takes effect only on a funded
    /// contract.
    pub open spec fn after_redeemed(self, redeemed: Redeemed<T>) -> Self {
        match self {
            LedgerState::Funded { htlc_location, deploy_transaction, fund_transaction, asset }
            | LedgerState::IncorrectlyFunded {
                htlc_location,
                deploy_transaction,
                fund_transaction,
                asset,
            } => LedgerState::Redeemed {
                htlc_location,
                deploy_transaction,
                fund_transaction,
                redeem_transaction: redeemed.transaction,
                asset,
                secret: redeemed.secret,
            },
            _ => self,
        }
    }

    /// The state after a refund is seen: it takes effect only on a funded
    /// contract.
    pub open spec fn after_refunded(self, refunded: Refunded<T>) -> Self {
        match self {
            LedgerState::Funded { htlc_location, deploy_transaction, fund_transaction, asset }
            | LedgerState::IncorrectlyFunded {
                htlc_location,
                deploy_transaction,
                fund_transaction,
                asset,
            } => LedgerState::Refunded {
                htlc_location,
                deploy_transaction,
                fund_transaction,
                refund_transaction: refunded.transaction,
                asset,
            },
            _ => self,
        }
    }

    /// The state after the step that led to a state tagged `tag` is taken
    /// back: unchanged unless the state has that tag, else the state before
    /// that step. A spent contract goes back to `Funded` or
    /// `IncorrectlyFunded` as `funded_as_expected` says.
    pub open spec fn after_revoked(self, tag: StateTag, funded_as_expected: bool) -> Self {
        if self.spec_tag() != tag {
            self
        } else {
            match self {
                LedgerState::NotDeployed => self,
                LedgerState::Deployed { .. } => LedgerState::NotDeployed,
                LedgerState::Funded { htlc_location, deploy_transaction, .. }
                | LedgerState::IncorrectlyFunded {
                    htlc_location,
                    deploy_transaction,
                    ..
                } => LedgerState::Deployed { htlc_location, deploy_transaction },
                LedgerState::Redeemed {
                    htlc_location,
                    deploy_transaction,
                    fund_transaction,
                    asset,
                    ..
                }
                | LedgerState::Refunded {
                    htlc_location,
                    deploy_transaction,
                    fund_transaction,
                    asset,
                    ..
                } => if funded_as_expected {
                    LedgerState::Funded {
                        htlc_location,
                        deploy_transaction,
                        fund_transaction,
                        asset,
                    }
                } else {
                    LedgerState::IncorrectlyFunded {
                        htlc_location,
                        deploy_transaction,
                        fund_transaction,
                        asset,
                    }
                },
            }
        }
    }

    /// The tag of this state.
    pub fn tag(&self) -> (r: StateTag)
        ensures
            r == self.spec_tag(),
    {
        match self {
            LedgerState::NotDeployed => StateTag::NotDeployed,
            LedgerState::Deployed { .. } => StateTag::Deployed,
            LedgerState::Funded { .. } => StateTag::Funded,
            LedgerState::IncorrectlyFunded { .. } => StateTag::IncorrectlyFunded,
            LedgerState::Redeemed { .. } => StateTag::Redeemed,
            LedgerState::Refunded { .. } => StateTag::Refunded,
        }
    }

    /// Whether the contract has been redeemed or refunded.
    pub fn is_terminal(&self) -> (r: bool)
        ensures
            r == self.spec_is_terminal(),
    {
        match self {
            LedgerState::Redeemed { .. } => true,
            LedgerState::Refunded { .. } => true,
            _ => false,
        }
    }

    /// Records a deployment. A state that is already past deployment stays as
    /// it is.
    pub fn transition_to_deployed(&mut self, deployed: Deployed<T, H>)
        ensures
            *final(self) == old(self).after_deployed(deployed),
            final(self).rank() >= old(self).rank(),
    {
        let mut current = LedgerState::NotDeployed;
        core::mem::swap(self, &mut current);
        *self = match current {
            LedgerState::NotDeployed => LedgerState::Deployed {
                htlc_location: deployed.location,
                deploy_transaction: deployed.transaction,
            },
            other => other,
        };
    }

    /// Records a funding of the expected asset. Any state but `Deployed` stays
    /// as it is.
    pub fn transition_to_funded(&mut self, funded: Funded<T, A>)
        ensures
            *final(self) == old(self).after_funded(funded),
            final(self).rank() >= old(self).rank(),
    {
        let mut current = LedgerState::NotDeployed;
        core::mem::swap(self, &mut current);
        *self = match current {
            LedgerState::Deployed { htlc_location, deploy_transaction } => LedgerState::Funded {
                htlc_location,
                deploy_transaction,
                fund_transaction: funded.transaction,
                asset: funded.asset,
            },
            other => other,
        };
    }

    /// Records a funding of another asset than the expected one. Any state but
    /// `Deployed` stays as it is.
    pub fn transition_to_incorrectly_funded(&mut self, funded: Funded<T, A>)
        ensures
            *final(self) == old(self).after_incorrectly_funded(funded),
            final(self).rank() >= old(self).rank(),
    {
        let mut current = LedgerState::NotDeployed;
        core::mem::swap(self, &mut current);
        *self = match current {
            LedgerState::Deployed {
                htlc_location,
                deploy_transaction,
            } => LedgerState::IncorrectlyFunded {
                htlc_location,
                deploy_transaction,
                fund_transaction: funded.transaction,
                asset: funded.asset,
            },
            other => other,
        };
    }

    /// Records a redeem. Any state but the two funded ones stays as it is.
    pub fn transition_to_redeemed(&mut self, redeemed: Redeemed<T>)
        ensures
            *final(self) == old(self).after_redeemed(redeemed),
            final(self).rank() >= old(self).rank(),
    {
        let mut current = LedgerState::NotDeployed;
        core::mem::swap(self, &mut current);
        *self = match current {
            LedgerState::Funded { htlc_location, deploy_transaction, fund_transaction, asset }
            | LedgerState::IncorrectlyFunded {
                htlc_location,
                deploy_transaction,
                fund_transaction,
                asset,
            } => LedgerState::Redeemed {
                htlc_location,
                deploy_transaction,
                fund_transaction,
                redeem_transaction: redeemed.transaction,
                asset,
                secret: redeemed.secret,
            },
            other => other,
        };
    }

    /// Records a refund. Any state but the two funded ones stays as it is.
    pub fn transition_to_refunded(&mut self, refunded: Refunded<T>)
        ensures
            *final(self) == old(self).after_refunded(refunded),
            final(self).rank() >= old(self).rank(),
    {
        let mut current = LedgerState::NotDeployed;
        core::mem::swap(self, &mut current);
        *self = match current {
            LedgerState::Funded { htlc_location, deploy_transaction, fund_transaction, asset }
            | LedgerState::IncorrectlyFunded {
                htlc_location,
                deploy_transaction,
                fund_transaction,
                asset,
            } => LedgerState::Refunded {
                htlc_location,
                deploy_transaction,
                fund_transaction,
                refund_transaction: refunded.transaction,
                asset,
            },
            other => other,
        };
    }

    /// Takes back the step that led to the state tagged `tag`, after the block
    /// that held it left the chain. This is the one step that lowers the rank,
    /// and it lowers it by one.
    pub fn revoke(&mut self, tag: StateTag, funded_as_expected: bool)
        ensures
            *final(self) == old(self).after_revoked(tag, funded_as_expected),
            old(self).spec_tag() != tag ==> *final(self) == *old(self),
            old(self).spec_tag() == tag && tag != StateTag::NotDeployed ==> final(self).rank() + 1
                == old(self).rank(),
    {
        if self.tag() != tag {
            return ;
        }
        let mut current = LedgerState::NotDeployed;
        core::mem::swap(self, &mut current);
        *self = match current {
            LedgerState::NotDeployed => LedgerState::NotDeployed,
            LedgerState::Deployed { .. } => LedgerState::NotDeployed,
            LedgerState::Funded { htlc_location, deploy_transaction, .. }
            | LedgerState::IncorrectlyFunded {
                htlc_location,
                deploy_transaction,
                ..
            } => LedgerState::Deployed { htlc_location, deploy_transaction },
            LedgerState::Redeemed { htlc_location, deploy_transaction, fund_transaction, asset, .. }
            | LedgerState::Refunded {
                htlc_location,
                deploy_transaction,
                fund_transaction,
                asset,
                ..
            } => if funded_as_expected {
                LedgerState::Funded { htlc_location, deploy_transaction, fund_transaction, asset }
            } else {
                LedgerState::IncorrectlyFunded {
                    htlc_location,
                    deploy_transaction,
                    fund_transaction,
                    asset,
                }
            },
        };
    }
}

} // verus!
