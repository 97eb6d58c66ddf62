//! Block-scanning rules shared by the ledger watchers.

use crate::bytes::bytes_eq;
use crate::htlc_events::TransactionPattern;
use crate::transaction::BitcoinTransaction;
use vstd::prelude::*;

verus! {

/// How far before the requested instant a watcher still looks, in seconds.
pub const MARGIN: i64 = 900;

/// The seconds after which a request to a ledger client counts as failed.
pub const REQUEST_TIMEOUT_SECS: u64 = 30;

/// The seconds to wait before the first retry of a failed request.
pub const BACKOFF_BASE_SECS: u64 = 1;

/// The longest wait between two retries, in seconds.
pub const BACKOFF_CAP_SECS: u64 = 60;

/// A block as a ledger client hands it over.
#[derive(Clone, Debug, PartialEq, Eq)]
pub struct Block {
    pub hash: [u8; 32],
    pub parent_hash: [u8; 32],
    /// When the block was mined, in seconds since the epoch.
    pub timestamp: i64,
    pub transactions: Vec<BitcoinTransaction>,
}

/// Checks if a given block predates a certain timestamp.
pub trait Predates {
    /// Whether this was before `timestamp`, in specifications.
    spec fn spec_predates(&self, timestamp: i64) -> bool;

    /// Whether this was before `timestamp`, in seconds since the epoch.
    fn predates(&self, timestamp: i64) -> (r: bool)
        ensures
            r == self.spec_predates(timestamp),
    ;
}

impl Predates for Block {
    open spec fn spec_predates(&self, timestamp: i64) -> bool {
        self.timestamp < timestamp
    }

    fn predates(&self, timestamp: i64) -> (r: bool) {
        self.timestamp < timestamp
    }
}

/// Whether a block mined at `block_time` is recent enough to be scanned when
/// looking for transactions after `after`, read as mathematical integers.
pub open spec fn spec_block_is_after(block_time: int, after: int) -> bool {
    block_time > after - MARGIN
}

/// Two to the power of `exponent`.
pub open spec fn pow2(exponent: nat) -> nat
    decreases exponent,
{
    if exponent == 0 {
        1
    } else {
        2 * pow2((exponent - 1) as nat)
    }
}

/// The seconds to wait before retry number `attempt`, counted from zero: one
/// second doubled with every attempt, and no more than sixty.
pub open spec fn spec_backoff_delay(attempt: nat) -> nat {
    if pow2(attempt) < BACKOFF_CAP_SECS as nat {
        pow2(attempt)
    } else {
        BACKOFF_CAP_SECS as nat
    }
}

/// Whether transaction `index` of the block is one the pattern asks for.
pub open spec fn matches_at(block: Block, pattern: TransactionPattern, index: int) -> bool {
    0 <= index < block.transactions@.len() && pattern.spec_matches(block.transactions@[index])
}

/// Whether the block with hash `hash` is among `chain`.
pub open spec fn on_chain(chain: Seq<Block>, hash: [u8; 32]) -> bool {
    exists|index: int| 0 <= index < chain.len() && (#[trigger] chain[index]).hash == hash
}

/// Whether `chain`, given tip first, is unbroken: each block names the next
/// one as its parent.
pub open spec fn linked(chain: Seq<Block>) -> bool {
    forall|index: int|
        0 <= index < chain.len() - 1 ==> (#[trigger] chain[index]).parent_hash == chain[index
            + 1].hash
}

/// Checks if a block was mined after a timestamp, allowing for the safety
/// margin. Both arguments are seconds since the epoch.
pub fn block_is_after(block_time: i64, after: i64) -> (r: bool)
    ensures
        r == spec_block_is_after(block_time as int, after as int),
{
    match after.checked_sub(MARGIN) {
        Some(bound) => block_time > bound,
        None => true,
    }
}

/// Whether a block is the first of its chain: such a block names the hash of
/// 32 zero bytes as its parent.
pub open spec fn is_first_block(block: Block) -> bool {
    forall|i: int| 0 <= i < 32 ==> block.parent_hash@[i] == 0
}

/// Whether a block is the first of its chain.
pub fn has_no_parent(block: &Block) -> (r: bool)
    ensures
        r == is_first_block(*block),
{
    let mut i: usize = 0;
    while i < 32
        invariant
            i <= 32,
            forall|j: int| 0 <= j < i ==> block.parent_hash@[j] == 0,
        decreases 32 - i,
    {
        if block.parent_hash[i] != 0 {
            return false;
        }
        i += 1;
    }
    true
}

/// Whether a watcher that looks for transactions after `since` and has come
/// to `block` on its way back from the tip goes on to the block's parent: it
/// does so until it meets a block from before the margin, or the first block
/// of the chain.
pub fn walks_back_from(block: &Block, since: i64) -> (r: bool)
    ensures
        r == (spec_block_is_after(block.timestamp as int, since as int) && !is_first_block(
            *block,
        )),
{
    block_is_after(block.timestamp, since) && !has_no_parent(block)
}

pub proof fn lemma_pow2_grows(exponent: nat)
    ensures
        pow2(exponent) >= 1,
        exponent >= 6 ==> pow2(exponent) >= 64,
    decreases exponent,
{
    if exponent > 0 {
        lemma_pow2_grows((exponent - 1) as nat);
    }
    if exponent == 6 {
        assert(pow2(6) == 64) by {
            reveal_with_fuel(pow2, 7);
        }
    }
}

/// The seconds to wait before retry number `attempt` of a failed request,
/// counted from zero.
pub fn backoff_delay(attempt: u32) -> (r: u64)
    ensures
        r == spec_backoff_delay(attempt as nat),
        BACKOFF_BASE_SECS <= r <= BACKOFF_CAP_SECS,
{
    proof {
        lemma_pow2_grows(attempt as nat);
    }
    let mut delay: u64 = BACKOFF_BASE_SECS;
    let mut done: u32 = 0;
    while done < attempt && delay < BACKOFF_CAP_SECS
        invariant
            done <= attempt,
            delay == pow2(done as nat),
            1 <= delay < 2 * BACKOFF_CAP_SECS,
        decreases attempt - done,
    {
        delay = delay * 2;
        done += 1;
    }
    if delay >= BACKOFF_CAP_SECS {
        proof {
            lemma_pow2_monotone(done as nat, attempt as nat);
        }
        BACKOFF_CAP_SECS
    } else {
        delay
    }
}

pub proof fn lemma_pow2_monotone(smaller: nat, larger: nat)
    requires
        smaller <= larger,
    ensures
        pow2(smaller) <= pow2(larger),
    decreases larger,
{
    if smaller < larger {
        lemma_pow2_monotone(smaller, (larger - 1) as nat);
    }
}

/// The first transaction of the block that the pattern asks for.
pub fn scan_block(block: &Block, pattern: &TransactionPattern) -> (r: Option<usize>)
    ensures
        r is Some <==> exists|index: int| matches_at(*block, *pattern, index),
        r matches Some(index) ==> matches_at(*block, *pattern, index as int) && forall|
            earlier: int,
        |
            0 <= earlier < index ==> !matches_at(*block, *pattern, earlier),
{
    let mut i: usize = 0;
    while i < block.transactions.len()
        invariant
            i <= block.transactions@.len(),
            forall|earlier: int| 0 <= earlier < i ==> !matches_at(*block, *pattern, earlier),
        decreases block.transactions@.len() - i,
    {
        if pattern.matches(&block.transactions[i]) {
            assert(matches_at(*block, *pattern, i as int));
            return Some(i);
        }
        i += 1;
    }
    None
}

/// The first transaction on `chain` that the pattern asks for, where the
/// chain is given tip first and read from its oldest block on: the place of
/// the block on the chain, and of the transaction in the block.
pub fn scan_chain(chain: &Vec<Block>, pattern: &TransactionPattern) -> (r: Option<(usize, usize)>)
    ensures
        r is Some <==> exists|block: int, index: int|
            0 <= block < chain@.len() && matches_at(chain@[block], *pattern, index),
        r matches Some((block, index)) ==> {
            &&& block < chain@.len()
            &&& matches_at(chain@[block as int], *pattern, index as int)
            &&& forall|earlier: int|
                0 <= earlier < index ==> !matches_at(chain@[block as int], *pattern, earlier)
            &&& forall|older: int, any: int|
                block < older < chain@.len() ==> !matches_at(chain@[older], *pattern, any)
        },
{
    let mut i: usize = chain.len();
    while i > 0
        invariant
            i <= chain@.len(),
            forall|older: int, any: int|
                i <= older < chain@.len() ==> !matches_at(chain@[older], *pattern, any),
        decreases i,
    {
        i -= 1;
        if let Some(index) = scan_block(&chain[i], pattern) {
            return Some((i, index));
        }
    }
    None
}

/// Whether the block with hash `hash` is among `chain`. A watcher asks this
/// of the chain that leads back from the tip: a block that held an event and
/// is no longer there has left the chain, and its event is revoked.
pub fn is_on_chain(chain: &Vec<Block>, hash: &[u8; 32]) -> (r: bool)
    ensures
        r == on_chain(chain@, *hash),
{
    let mut i: usize = 0;
    while i < chain.len()
        invariant
            i <= chain@.len(),
            forall|index: int| 0 <= index < i ==> (#[trigger] chain@[index]).hash != *hash,
        decreases chain@.len() - i,
    {
        if bytes_eq(&chain[i].hash, hash) {
            assert(chain@[i as int].hash =~= *hash);
            return true;
        }
        i += 1;
    }
    false
}

/// Whether `chain`, given tip first, is unbroken.
pub fn is_linked(chain: &Vec<Block>) -> (r: bool)
    ensures
        r == linked(chain@),
{
    if chain.len() < 2 {
        return true;
    }
    let mut i: usize = 0;
    while i < chain.len() - 1
        invariant
            chain@.len() >= 2,
            i <= chain@.len() - 1,
            forall|index: int|
                0 <= index < i ==> (#[trigger] chain@[index]).parent_hash == chain@[index + 1].hash,
        decreases chain@.len() - i,
    {
        if !bytes_eq(&chain[i].parent_hash, &chain[i + 1].hash) {
            return false;
        }
        assert(chain@[i as int].parent_hash =~= chain@[i + 1].hash);
        i += 1;
    }
    true
}

} // verus!
