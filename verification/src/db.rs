//! What is remembered of a swap between runs.

pub use crate::asset::AssetKind;
use crate::ids::SwapId;
pub use crate::ledger::LedgerKind;
use vstd::prelude::*;

verus! {

/// Which of the two parties this node is: Alice proposes and knows the
/// secret, Bob answers.
#[derive(Clone, Copy, Debug, PartialEq, Eq, Hash, Structural)]
pub enum Role {
    Alice,
    Bob,
}

/// A swap as it is read back.
#[derive(Clone, Copy, Debug, PartialEq)]
pub struct Swap {
    pub id: i32,
    pub swap_id: SwapId,
    pub alpha_ledger: LedgerKind,
    pub beta_ledger: LedgerKind,
    pub alpha_asset: AssetKind,
    pub beta_asset: AssetKind,
    pub role: Role,
}

/// A swap as it is written down.
#[derive(Clone, Copy, Debug)]
pub struct InsertableSwap {
    pub swap_id: SwapId,
    pub alpha_ledger: LedgerKind,
    pub beta_ledger: LedgerKind,
    pub alpha_asset: AssetKind,
    pub beta_asset: AssetKind,
    pub role: Role,
}

/// A text named none of the variants.
#[derive(Clone, Copy, Debug, PartialEq, Eq, Structural)]
pub struct VariantNotFound;

impl Swap {
    /// The swap that row `id` holds, with the fields of `insertable`.
    pub fn new(id: i32, insertable: InsertableSwap) -> (r: Swap)
        ensures
            r.id == id,
            r.swap_id == insertable.swap_id,
            r.alpha_ledger == insertable.alpha_ledger,
            r.beta_ledger == insertable.beta_ledger,
            r.alpha_asset == insertable.alpha_asset,
            r.beta_asset == insertable.beta_asset,
            r.role == insertable.role,
    {
        Swap {
            id,
            swap_id: insertable.swap_id,
            alpha_ledger: insertable.alpha_ledger,
            beta_ledger: insertable.beta_ledger,
            alpha_asset: insertable.alpha_asset,
            beta_asset: insertable.beta_asset,
            role: insertable.role,
        }
    }
}

impl Role {
    /// The name of the role, in specifications.
    pub open spec fn spec_name(self) -> Seq<char> {
        match self {
            Role::Alice => "Alice"@,
            Role::Bob => "Bob"@,
        }
    }

    /// The name of the role.
    pub fn to_string(&self) -> (r: String)
        ensures
            r@ == self.spec_name(),
    {
        match self {
            Role::Alice => "Alice".to_string(),
            Role::Bob => "Bob".to_string(),
        }
    }

    /// The role with the given name; the name must match exactly.
    pub fn from_str(s: &str) -> (r: Result<Role, VariantNotFound>)
        ensures
            r matches Ok(role) ==> s@ == role.spec_name(),
            r is Err <==> s@ != "Alice"@ && s@ != "Bob"@,
    {
        let text = s.to_string();
        if text == "Alice".to_string() {
            Ok(Role::Alice)
        } else if text == "Bob".to_string() {
            Ok(Role::Bob)
        } else {
            Err(VariantNotFound)
        }
    }
}

impl LedgerKind {
    /// The name of the ledger family, in specifications.
    pub open spec fn spec_name(self) -> Seq<char> {
        match self {
            LedgerKind::Bitcoin => "Bitcoin"@,
            LedgerKind::Ethereum => "Ethereum"@,
        }
    }

    /// The name of the ledger family.
    pub fn to_string(&self) -> (r: String)
        ensures
            r@ == self.spec_name(),
    {
        match self {
            LedgerKind::Bitcoin => "Bitcoin".to_string(),
            LedgerKind::Ethereum => "Ethereum".to_string(),
        }
    }

    /// The ledger family with the given name; the name must match exactly.
    pub fn from_str(s: &str) -> (r: Result<LedgerKind, VariantNotFound>)
        ensures
            r matches Ok(kind) ==> s@ == kind.spec_name(),
            r is Err <==> s@ != "Bitcoin"@ && s@ != "Ethereum"@,
    {
        let text = s.to_string();
        if text == "Bitcoin".to_string() {
            Ok(LedgerKind::Bitcoin)
        } else if text == "Ethereum".to_string() {
            Ok(LedgerKind::Ethereum)
        } else {
            Err(VariantNotFound)
        }
    }
}

impl AssetKind {
    /// The name of the sort of asset, in specifications.
    pub open spec fn spec_name(self) -> Seq<char> {
        match self {
            AssetKind::Bitcoin => "Bitcoin"@,
            AssetKind::Ether => "Ether"@,
            AssetKind::Erc20 => "Erc20"@,
        }
    }

    /// The name of the sort of asset.
    pub fn to_string(&self) -> (r: String)
        ensures
            r@ == self.spec_name(),
    {
        match self {
            AssetKind::Bitcoin => "Bitcoin".to_string(),
            AssetKind::Ether => "Ether".to_string(),
            AssetKind::Erc20 => "Erc20".to_string(),
        }
    }

    /// The sort of asset with the given name; the name must match exactly.
    pub fn from_str(s: &str) -> (r: Result<AssetKind, VariantNotFound>)
        ensures
            r matches Ok(kind) ==> s@ == kind.spec_name(),
            r is Err <==> s@ != "Bitcoin"@ && s@ != "Ether"@ && s@ != "Erc20"@,
    {
        let text = s.to_string();
        if text == "Bitcoin".to_string() {
            Ok(AssetKind::Bitcoin)
        } else if text == "Ether".to_string() {
            Ok(AssetKind::Ether)
        } else if text == "Erc20".to_string() {
            Ok(AssetKind::Erc20)
        } else {
            Err(VariantNotFound)
        }
    }
}

} // verus!
