//! What a party can be asked to do next, and the instructions that go with it.

pub mod btc;
pub mod dispatch;
pub mod erc20;
pub mod ether;

use crate::asset::{EthereumAddress, U256};
use crate::ledger::{Network, OutPoint, Timestamp};
use vstd::prelude::*;

verus! {

/// Create a contract on an Ethereum-family ledger.
#[derive(Clone, Debug, PartialEq, Eq)]
pub struct DeployContract {
    pub data: Vec<u8>,
    pub amount: U256,
    pub gas_limit: u64,
    pub chain_id: u32,
}

/// Call a contract on an Ethereum-family ledger.
#[derive(Clone, Debug, PartialEq, Eq)]
pub struct CallContract {
    pub to: EthereumAddress,
    pub data: Option<Vec<u8>>,
    pub gas_limit: u64,
    pub chain_id: u32,
    /// The earliest block time at which the call can succeed.
    pub min_block_timestamp: Option<Timestamp>,
}

/// A Bitcoin address, as the script that pays to it.
#[derive(Clone, Debug, PartialEq, Eq)]
pub struct Address {
    pub network: Network,
    pub script_pubkey: Vec<u8>,
}

/// Pay an amount of satoshi to an address.
#[derive(Clone, Debug, PartialEq, Eq)]
pub struct SendToAddress {
    pub to: Address,
    pub amount: u64,
    pub network: Network,
}

/// One item of the witness that unlocks a contract. The signature, the public
/// key and the script stand for what the signer puts in their place.
#[derive(Clone, Debug, PartialEq, Eq)]
pub enum WitnessItem {
    Data(Vec<u8>),
    Signature,
    PublicKey,
    Bool(bool),
    PrevScript,
}

/// How to unlock an output: the witness, bottom first, the sequence number and
/// lock time of the spending transaction, and the script that locks the
/// output.
#[derive(Clone, Debug, PartialEq, Eq)]
pub struct InputParameters {
    pub witness: Vec<WitnessItem>,
    pub sequence: u32,
    pub locktime: u32,
    pub prev_script: Vec<u8>,
}

/// Spend an output of `value` satoshi.
#[derive(Clone, Debug, PartialEq, Eq)]
pub struct SpendOutput {
    pub previous_output: OutPoint,
    pub value: u64,
    pub input_parameters: InputParameters,
    pub network: Network,
}

/// An instruction for one of the ledgers.
#[derive(Clone, Debug, PartialEq, Eq)]
pub enum LedgerAction {
    BitcoinSendToAddress(SendToAddress),
    BitcoinSpendOutput(SpendOutput),
    EthereumDeployContract(DeployContract),
    EthereumCallContract(CallContract),
}

/// What a party can do next.
#[derive(Clone, Debug, PartialEq, Eq)]
pub enum Action {
    Accept,
    Decline,
    Deploy(LedgerAction),
    Fund(LedgerAction),
    Redeem(LedgerAction),
    Refund(LedgerAction),
}

/// [`DeployContract`] as a mathematical value.
pub struct DeployContractView {
    pub data: Seq<u8>,
    pub amount: U256,
    pub gas_limit: u64,
    pub chain_id: u32,
}

/// [`CallContract`] as a mathematical value.
pub struct CallContractView {
    pub to: EthereumAddress,
    pub data: Option<Seq<u8>>,
    pub gas_limit: u64,
    pub chain_id: u32,
    pub min_block_timestamp: Option<Timestamp>,
}

/// [`Address`] as a mathematical value.
pub struct AddressView {
    pub network: Network,
    pub script_pubkey: Seq<u8>,
}

/// [`SendToAddress`] as a mathematical value.
pub struct SendToAddressView {
    pub to: AddressView,
    pub amount: u64,
    pub network: Network,
}

/// [`WitnessItem`] as a mathematical value.
pub enum WitnessItemView {
    Data(Seq<u8>),
    Signature,
    PublicKey,
    Bool(bool),
    PrevScript,
}

/// [`InputParameters`] as a mathematical value.
pub struct InputParametersView {
    pub witness: Seq<WitnessItemView>,
    pub sequence: u32,
    pub locktime: u32,
    pub prev_script: Seq<u8>,
}

/// [`SpendOutput`] as a mathematical value.
pub struct SpendOutputView {
    pub previous_output: OutPoint,
    pub value: u64,
    pub input_parameters: InputParametersView,
    pub network: Network,
}

/// [`LedgerAction`] as a mathematical value.
pub enum LedgerActionView {
    BitcoinSendToAddress(SendToAddressView),
    BitcoinSpendOutput(SpendOutputView),
    EthereumDeployContract(DeployContractView),
    EthereumCallContract(CallContractView),
}

/// [`Action`] as a mathematical value.
pub enum ActionView {
    Accept,
    Decline,
    Deploy(LedgerActionView),
    Fund(LedgerActionView),
    Redeem(LedgerActionView),
    Refund(LedgerActionView),
}

impl View for DeployContract {
    type V = DeployContractView;

    open spec fn view(&self) -> DeployContractView {
        DeployContractView {
            data: self.data@,
            amount: self.amount,
            gas_limit: self.gas_limit,
            chain_id: self.chain_id,
        }
    }
}

impl View for CallContract {
    type V = CallContractView;

    open spec fn view(&self) -> CallContractView {
        CallContractView {
            to: self.to,
            data: match self.data {
                Some(data) => Some(data@),
                None => None,
            },
            gas_limit: self.gas_limit,
            chain_id: self.chain_id,
            min_block_timestamp: self.min_block_timestamp,
        }
    }
}

impl View for Address {
    type V = AddressView;

    open spec fn view(&self) -> AddressView {
        AddressView { network: self.network, script_pubkey: self.script_pubkey@ }
    }
}

impl View for SendToAddress {
    type V = SendToAddressView;

    open spec fn view(&self) -> SendToAddressView {
        SendToAddressView { to: self.to@, amount: self.amount, network: self.network }
    }
}

impl View for WitnessItem {
    type V = WitnessItemView;

    open spec fn view(&self) -> WitnessItemView {
        match self {
            WitnessItem::Data(data) => WitnessItemView::Data(data@),
            WitnessItem::Signature => WitnessItemView::Signature,
            WitnessItem::PublicKey => WitnessItemView::PublicKey,
            WitnessItem::Bool(b) => WitnessItemView::Bool(*b),
            WitnessItem::PrevScript => WitnessItemView::PrevScript,
        }
    }
}

impl View for InputParameters {
    type V = InputParametersView;

    open spec fn view(&self) -> InputParametersView {
        InputParametersView {
            witness: self.witness@.map_values(|w: WitnessItem| w@),
            sequence: self.sequence,
            locktime: self.locktime,
            prev_script: self.prev_script@,
        }
    }
}

impl View for SpendOutput {
    type V = SpendOutputView;

    open spec fn view(&self) -> SpendOutputView {
        SpendOutputView {
            previous_output: self.previous_output,
            value: self.value,
            input_parameters: self.input_parameters@,
            network: self.network,
        }
    }
}

impl View for LedgerAction {
    type V = LedgerActionView;

    open spec fn view(&self) -> LedgerActionView {
        match self {
            LedgerAction::BitcoinSendToAddress(a) => LedgerActionView::BitcoinSendToAddress(a@),
            LedgerAction::BitcoinSpendOutput(a) => LedgerActionView::BitcoinSpendOutput(a@),
            LedgerAction::EthereumDeployContract(a) => LedgerActionView::EthereumDeployContract(a@),
            LedgerAction::EthereumCallContract(a) => LedgerActionView::EthereumCallContract(a@),
        }
    }
}

impl View for Action {
    type V = ActionView;

    open spec fn view(&self) -> ActionView {
        match self {
            Action::Accept => ActionView::Accept,
            Action::Decline => ActionView::Decline,
            Action::Deploy(a) => ActionView::Deploy(a@),
            Action::Fund(a) => ActionView::Fund(a@),
            Action::Redeem(a) => ActionView::Redeem(a@),
            Action::Refund(a) => ActionView::Refund(a@),
        }
    }
}

/// The mathematical values of a list of actions, in order.
pub open spec fn action_views(actions: Seq<Action>) -> Seq<ActionView> {
    actions.map_values(|a: Action| a@)
}

} // verus!
