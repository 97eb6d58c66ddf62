//! Standing queries for Bitcoin transactions.

use crate::actions::Address;
use crate::htlc_events::{find_output, spends_to};
use crate::transaction::BitcoinTransaction;
use vstd::prelude::*;

verus! {

/// Asks for the transactions that pay to an address.
#[derive(Clone, Debug, Default)]
pub struct BitcoinQuery {
    to_address: Option<Address>,
}

impl BitcoinQuery {
    /// The address asked for, in specifications.
    pub closed spec fn spec_to_address(self) -> Option<Address> {
        self.to_address
    }

    /// Whether the transaction answers the query, in specifications: the
    /// query names an address, and an output pays to it.
    pub open spec fn spec_matches(self, transaction: BitcoinTransaction) -> bool {
        self.spec_to_address() matches Some(address) && spends_to(
            transaction,
            address.script_pubkey@,
            None,
        )
    }

    /// The query for payments to `to_address`. A query without an address
    /// is answered by nothing.
    pub fn new(to_address: Option<Address>) -> (r: BitcoinQuery)
        ensures
            r.spec_to_address() == to_address,
    {
        BitcoinQuery { to_address }
    }

    /// The address asked for.
    pub fn to_address(&self) -> (r: &Option<Address>)
        ensures
            *r == self.spec_to_address(),
    {
        &self.to_address
    }

    /// Whether the transaction answers the query.
    pub fn matches(&self, transaction: &BitcoinTransaction) -> (r: bool)
        ensures
            r == self.spec_matches(*transaction),
    {
        match &self.to_address {
            Some(address) => find_output(
                transaction,
                address.script_pubkey.as_slice(),
                None,
            ).is_some(),
            None => false,
        }
    }
}

} // verus!
