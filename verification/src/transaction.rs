//! Transactions as the watchers hand them over: the parts that the swap logic
//! reads.

use crate::asset::{EthereumAddress, U256};
use crate::bytes::bytes_to_vec;
use crate::ledger::OutPoint;
use vstd::prelude::*;

verus! {

/// One output of a Bitcoin transaction.
#[derive(Clone, Debug, PartialEq, Eq)]
pub struct TxOut {
    /// The amount, in satoshi.
    pub value: u64,
    /// The script that locks the amount.
    pub script_pubkey: Vec<u8>,
}

/// One input of a Bitcoin transaction.
#[derive(Clone, Debug, PartialEq, Eq)]
pub struct TxIn {
    /// The output that is spent.
    pub previous_output: OutPoint,
    /// The witness stack that unlocks it, bottom first.
    pub witness: Vec<Vec<u8>>,
}

/// A Bitcoin transaction.
#[derive(Clone, Debug, PartialEq, Eq)]
pub struct BitcoinTransaction {
    pub txid: [u8; 32],
    pub input: Vec<TxIn>,
    pub output: Vec<TxOut>,
}

/// A transaction on an Ethereum-family ledger.
#[derive(Clone, Debug, PartialEq, Eq)]
pub struct EthereumTransaction {
    pub hash: [u8; 32],
    /// The account called, or nothing for a contract creation.
    pub to: Option<EthereumAddress>,
    /// The amount of wei sent along.
    pub value: U256,
    /// The call data, or the code of the contract to create.
    pub input: Vec<u8>,
}

/// A transaction on either kind of ledger.
#[derive(Clone, Debug, PartialEq, Eq)]
pub enum Transaction {
    Bitcoin(BitcoinTransaction),
    Ethereum(EthereumTransaction),
}

/// Where a contract lives on its ledger.
#[derive(Clone, Copy, Debug, PartialEq, Eq)]
pub enum HtlcLocation {
    Bitcoin(OutPoint),
    Ethereum(EthereumAddress),
}

/// [`TxOut`] as a mathematical value.
pub struct TxOutView {
    pub value: u64,
    pub script_pubkey: Seq<u8>,
}

/// [`TxIn`] as a mathematical value.
pub struct TxInView {
    pub previous_output: OutPoint,
    pub witness: Seq<Seq<u8>>,
}

/// [`BitcoinTransaction`] as a mathematical value.
pub struct BitcoinTransactionView {
    pub txid: [u8; 32],
    pub input: Seq<TxInView>,
    pub output: Seq<TxOutView>,
}

impl View for TxOut {
    type V = TxOutView;

    open spec fn view(&self) -> TxOutView {
        TxOutView { value: self.value, script_pubkey: self.script_pubkey@ }
    }
}

impl View for TxIn {
    type V = TxInView;

    open spec fn view(&self) -> TxInView {
        TxInView {
            previous_output: self.previous_output,
            witness: self.witness@.map_values(|item: Vec<u8>| item@),
        }
    }
}

impl View for BitcoinTransaction {
    type V = BitcoinTransactionView;

    open spec fn view(&self) -> BitcoinTransactionView {
        BitcoinTransactionView {
            txid: self.txid,
            input: self.input@.map_values(|input: TxIn| input@),
            output: self.output@.map_values(|output: TxOut| output@),
        }
    }
}

impl TxOut {
    /// A copy of this output.
    pub fn duplicate(&self) -> (r: TxOut)
        ensures
            r@ == self@,
    {
        TxOut { value: self.value, script_pubkey: bytes_to_vec(self.script_pubkey.as_slice()) }
    }
}

impl TxIn {
    /// A copy of this input.
    pub fn duplicate(&self) -> (r: TxIn)
        ensures
            r@ == self@,
    {
        let mut witness: Vec<Vec<u8>> = Vec::new();
        let mut i: usize = 0;
        while i < self.witness.len()
            invariant
                i <= self.witness@.len(),
                witness@.len() == i,
                forall|j: int| 0 <= j < i ==> witness@[j]@ == self.witness@[j]@,
            decreases self.witness@.len() - i,
        {
            witness.push(bytes_to_vec(self.witness[i].as_slice()));
            i += 1;
        }
        let r = TxIn { previous_output: self.previous_output, witness };
        assert(r@.witness =~= self@.witness);
        r
    }
}

impl BitcoinTransaction {
    /// A copy of this transaction.
    pub fn duplicate(&self) -> (r: BitcoinTransaction)
        ensures
            r@ == self@,
    {
        let mut input: Vec<TxIn> = Vec::new();
        let mut i: usize = 0;
        while i < self.input.len()
            invariant
                i <= self.input@.len(),
                input@.len() == i,
                forall|j: int| 0 <= j < i ==> input@[j]@ == self.input@[j]@,
            decreases self.input@.len() - i,
        {
            input.push(self.input[i].duplicate());
            i += 1;
        }
        let mut output: Vec<TxOut> = Vec::new();
        let mut k: usize = 0;
        while k < self.output.len()
            invariant
                k <= self.output@.len(),
                output@.len() == k,
                forall|j: int| 0 <= j < k ==> output@[j]@ == self.output@[j]@,
            decreases self.output@.len() - k,
        {
            output.push(self.output[k].duplicate());
            k += 1;
        }
        let r = BitcoinTransaction { txid: self.txid, input, output };
        assert(r@.input =~= self@.input);
        assert(r@.output =~= self@.output);
        r
    }
}

} // verus!
