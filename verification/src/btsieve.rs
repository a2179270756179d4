//! The blockchain watcher: finds the first transaction matching a pattern,
//! across reorganizations and missed polls.
//!
//! A connector hands the watcher chain data; the watcher decides which
//! blocks to look at, walking backwards over parent hashes to cover blocks
//! that existed before the watch began and forks it has not seen, and
//! matches every delivered transaction against one `TransactionPattern`.
//! Waiting budgets bound every loop; exhausting one surfaces as an error,
//! never as a silent miss.

use crate::bytes::bytes_eq;
use crate::chain::{Block, Log, Transaction, TransactionAndReceipt, TransactionReceipt};
use crate::rfc003::Error;
use std::collections::HashSet;
use vstd::prelude::*;
use vstd::string::*;

verus! {

broadcast use vstd::std_specs::hash::group_hash_axioms;

/// One expected log topic; `None` in a topic list is a wildcard.
#[derive(Debug, Clone, PartialEq, Eq)]
pub struct Topic(pub Vec<u8>);

/// An expected log entry: emitting contract, payload and topics, each
/// optional.
#[derive(Debug, Clone, PartialEq, Eq)]
pub struct Event {
    /// The contract the log must come from, if fixed.
    pub address: Option<Vec<u8>>,
    /// The payload the log must carry, if fixed.
    pub data: Option<Vec<u8>>,
    /// The topics the log must carry, position by position.
    pub topics: Vec<Option<Topic>>,
}

/// A predicate over transactions, derived from contract parameters and the
/// lifecycle phase being watched for.
#[derive(Debug, Clone, PartialEq, Eq)]
pub struct TransactionPattern {
    /// The sending account, if fixed.
    pub from_address: Option<Vec<u8>>,
    /// The receiving account or contract, if fixed.
    pub to_address: Option<Vec<u8>>,
    /// Whether the transaction must (or must not) create a contract.
    pub is_contract_creation: Option<bool>,
    /// The exact call data, if fixed.
    pub transaction_data: Option<Vec<u8>>,
    /// The length of the call data, if fixed.
    pub transaction_data_length: Option<usize>,
    /// The least amount the transaction must transfer, if any.
    pub min_value: Option<u128>,
    /// Log entries the transaction's receipt must contain.
    pub events: Vec<Event>,
}

/// Whether one expected topic accepts one log topic.
pub open spec fn spec_topic_matches(expected: Option<Topic>, topic: Seq<u8>) -> bool {
    match expected {
        None => true,
        Some(t) => t.0@ == topic,
    }
}

/// Whether one log entry satisfies one expected event.
pub open spec fn spec_event_matches_log(e: Event, log: Log) -> bool {
    &&& (e.address matches Some(a) ==> a@ == log.address@)
    &&& (e.data matches Some(d) ==> d@ == log.data@)
    &&& e.topics@.len() <= log.topics@.len()
    &&& (forall|i: int|
        0 <= i < e.topics@.len() ==> spec_topic_matches(#[trigger] e.topics@[i], log.topics@[i]@))
}

/// Whether some log of the receipt satisfies the expected event.
pub open spec fn spec_event_matches(e: Event, rcpt: TransactionReceipt) -> bool {
    exists|j: int| 0 <= j < rcpt.logs@.len() && spec_event_matches_log(e, #[trigger] rcpt.logs@[j])
}

/// Whether a transaction, with its receipt where one was fetched,
/// satisfies the pattern.
pub open spec fn spec_matches(
    p: TransactionPattern,
    t: Transaction,
    rcpt: Option<TransactionReceipt>,
) -> bool {
    &&& (p.from_address matches Some(a) ==> a@ == t.from@)
    &&& (p.to_address matches Some(a) ==> (t.to matches Some(to) && to@ == a@))
    &&& (p.is_contract_creation matches Some(c) ==> c == (t.to is None))
    &&& (p.transaction_data matches Some(d) ==> d@ == t.input@)
    &&& (p.transaction_data_length matches Some(n) ==> t.input@.len() == n)
    &&& (p.min_value matches Some(v) ==> t.value >= v)
    &&& (p.events@.len() > 0 ==> (rcpt matches Some(r) && (forall|i: int|
        0 <= i < p.events@.len() ==> spec_event_matches(#[trigger] p.events@[i], r))))
}

fn event_matches_log(e: &Event, log: &Log) -> (r: bool)
    ensures
        r == spec_event_matches_log(*e, *log),
{
    if let Some(a) = &e.address {
        if !bytes_eq(a, &log.address) {
            return false;
        }
    }
    if let Some(d) = &e.data {
        if !bytes_eq(d, &log.data) {
            return false;
        }
    }
    let n = e.topics.len();
    if n > log.topics.len() {
        return false;
    }
    let mut i: usize = 0;
    while i < n
        invariant
            n == e.topics@.len(),
            n <= log.topics@.len(),
            i <= n,
            e.address matches Some(a) ==> a@ == log.address@,
            e.data matches Some(d) ==> d@ == log.data@,
            forall|j: int| 0 <= j < i ==> spec_topic_matches(#[trigger] e.topics@[j], log.topics@[j]@),
        decreases n - i,
    {
        if let Some(t) = &e.topics[i] {
            if !bytes_eq(&t.0, &log.topics[i]) {
                assert(!spec_topic_matches(e.topics@[i as int], log.topics@[i as int]@));
                return false;
            }
        }
        i += 1;
    }
    true
}

fn event_matches(e: &Event, rcpt: &TransactionReceipt) -> (r: bool)
    ensures
        r == spec_event_matches(*e, *rcpt),
{
    let n = rcpt.logs.len();
    let mut j: usize = 0;
    while j < n
        invariant
            n == rcpt.logs@.len(),
            j <= n,
            forall|k: int| 0 <= k < j ==> !spec_event_matches_log(*e, #[trigger] rcpt.logs@[k]),
        decreases n - j,
    {
        if event_matches_log(e, &rcpt.logs[j]) {
            return true;
        }
        j += 1;
    }
    false
}

impl TransactionPattern {
    /// Whether matching this pattern requires transaction receipts.
    ///
    /// This is the cheap pre-filter before the expensive receipt fetch: a
    /// pattern without expected events never needs one, so a false
    /// negative cannot occur.
    pub fn needs_receipts(&self) -> (r: bool)
        ensures
            r == (self.events@.len() > 0),
    {
        self.events.len() > 0
    }

    /// Returns whether the transaction, with its receipt where one was
    /// fetched, satisfies this pattern.
    #[verifier::loop_isolation(false)]
    pub fn matches(&self, t: &Transaction, rcpt: &Option<TransactionReceipt>) -> (r: bool)
        ensures
            r == spec_matches(*self, *t, *rcpt),
    {
        if let Some(a) = &self.from_address {
            if !bytes_eq(a, &t.from) {
                return false;
            }
        }
        if let Some(a) = &self.to_address {
            match &t.to {
                None => {
                    return false;
                },
                Some(to) => {
                    if !bytes_eq(to, a) {
                        return false;
                    }
                },
            }
        }
        if let Some(c) = self.is_contract_creation {
            let creation = t.to.is_none();
            if c != creation {
                return false;
            }
        }
        if let Some(d) = &self.transaction_data {
            if !bytes_eq(d, &t.input) {
                return false;
            }
        }
        if let Some(n) = self.transaction_data_length {
            if t.input.len() != n {
                return false;
            }
        }
        if let Some(v) = self.min_value {
            if t.value < v {
                return false;
            }
        }
        let n = self.events.len();
        if n > 0 {
            match rcpt {
                None => {
                    return false;
                },
                Some(receipt) => {
                    let mut i: usize = 0;
                    while i < n
                        invariant
                            n == self.events@.len(),
                            i <= n,
                            forall|j: int|
                                0 <= j < i ==> spec_event_matches(
                                    #[trigger] self.events@[j],
                                    *receipt,
                                ),
                        decreases n - i,
                    {
                        if !event_matches(&self.events[i], receipt) {
                            return false;
                        }
                        i += 1;
                    }
                },
            }
        }
        true
    }
}

/// The index of the first transaction in `txs` that satisfies `p` without
/// a receipt, if any does.
pub open spec fn spec_first_match(p: TransactionPattern, txs: Seq<Transaction>) -> Option<int>
    decreases txs.len(),
{
    if txs.len() == 0 {
        None
    } else if spec_matches(p, txs[0], None) {
        Some(0)
    } else {
        match spec_first_match(p, txs.drop_first()) {
            None => None,
            Some(i) => Some(i + 1),
        }
    }
}

/// The first match is what characterizes it: the earliest index whose
/// transaction satisfies the pattern.
pub proof fn lemma_first_match_characterization(
    p: TransactionPattern,
    txs: Seq<Transaction>,
    i: int,
)
    requires
        0 <= i < txs.len(),
        spec_matches(p, txs[i], None),
        forall|j: int| 0 <= j < i ==> !spec_matches(p, #[trigger] txs[j], None),
    ensures
        spec_first_match(p, txs) == Some(i),
    decreases i,
{
    if i == 0 {
    } else {
        assert(!spec_matches(p, txs[0], None));
        let rest = txs.drop_first();
        assert(rest[i - 1] == txs[i]);
        assert(forall|j: int| 0 <= j < i - 1 ==> rest[j] == txs[j + 1] && !spec_matches(
            p,
            #[trigger] rest[j],
            None,
        ));
        lemma_first_match_characterization(p, rest, i - 1);
    }
}

/// When nothing in `txs` satisfies the pattern, there is no first match.
pub proof fn lemma_no_match(p: TransactionPattern, txs: Seq<Transaction>)
    requires
        forall|j: int| 0 <= j < txs.len() ==> !spec_matches(p, #[trigger] txs[j], None),
    ensures
        spec_first_match(p, txs) is None,
    decreases txs.len(),
{
    if txs.len() > 0 {
        let rest = txs.drop_first();
        assert(forall|j: int| 0 <= j < rest.len() ==> rest[j] == txs[j + 1] && !spec_matches(
            p,
            #[trigger] rest[j],
            None,
        ));
        lemma_no_match(p, rest);
    }
}

/// A match, once found, is stable: transactions arriving after it cannot
/// change which transaction matched first.
pub proof fn lemma_first_match_stable(
    p: TransactionPattern,
    txs: Seq<Transaction>,
    extra: Seq<Transaction>,
)
    requires
        spec_first_match(p, txs) is Some,
    ensures
        spec_first_match(p, txs + extra) == spec_first_match(p, txs),
    decreases txs.len(),
{
    if txs.len() == 0 {
    } else {
        assert((txs + extra)[0] == txs[0]);
        if spec_matches(p, txs[0], None) {
        } else {
            let rest = txs.drop_first();
            assert((txs + extra).drop_first() =~= rest + extra);
            lemma_first_match_stable(p, rest, extra);
        }
    }
}

/// The read-only capability the watcher consumes: the chain head, blocks
/// by hash, receipts by transaction hash, and the pacing between polls.
///
/// `Ok(None)` means "not found", distinct from a transport error. A
/// connector for a concrete chain maps its own data into the watcher's
/// block shape.
pub trait Connector {
    /// Fetches the current head of the chain.
    fn latest_block(&mut self) -> Result<Option<Block>, Error>;

    /// Fetches the block with the given hash.
    fn block_by_hash(&mut self, hash: u64) -> Result<Option<Block>, Error>;

    /// Fetches the receipt of the transaction with the given hash.
    fn receipt_by_hash(&mut self, transaction_hash: u64) -> Result<
        Option<TransactionReceipt>,
        Error,
    >;

    /// Waits the fixed poll interval before the next look at the head.
    fn wait_before_next_poll(&mut self);
}

/// Returns whether the block predates the start of the swap.
pub fn past_timestamp(start_of_swap: u32, block: &Block) -> (r: bool)
    ensures
        r == (block.timestamp < start_of_swap),
{
    block.predates(start_of_swap)
}

/// What the walk-back stop test decides for one block: stop, keep walking,
/// or fail because the block carries no hash to compare against. The seen
/// set, when one applies, is carried as its spec-level set of hashes.
pub open spec fn spec_stop_walk(
    seen_blocks: Option<Set<u64>>,
    start_of_swap: u32,
    block: Block,
) -> Option<bool> {
    match seen_blocks {
        None => Some(block.timestamp < start_of_swap),
        Some(seen) => match block.hash {
            None => None,
            Some(h) => Some(seen.contains(h) || block.timestamp < start_of_swap),
        },
    }
}

/// The spec-level contents of an optional seen set.
pub open spec fn spec_seen_set(seen_blocks: Option<&HashSet<u64>>) -> Option<Set<u64>> {
    match seen_blocks {
        None => None,
        Some(m) => Some(m@),
    }
}

/// Returns whether we have already emitted the block, or the block is
/// older than the swap itself.
///
/// Fails exactly when the block carries no hash.
pub fn seen_block_or_past_seen_block(
    seen_blocks: &HashSet<u64>,
    start_of_swap: u32,
    block: &Block,
) -> (r: Result<bool, Error>)
    ensures
        r matches Ok(b) ==> Some(b) == spec_stop_walk(Some(seen_blocks@), start_of_swap, *block),
        r is Err <==> block.hash is None,
{
    match block.hash {
        None => Err(Error::Internal(String::from_str("block without hash"))),
        Some(h) => {
            let have_seen_block = seen_blocks.contains(&h);
            let past_start_of_swap = past_timestamp(start_of_swap, block);
            Ok(have_seen_block || past_start_of_swap)
        },
    }
}

/// Walks the chain backwards from `starting_blockhash` until the stop test
/// holds: until a block predates the swap, or, when `seen_blocks` is
/// given, until an already emitted block is reached.
///
/// Returns the walked blocks oldest first, the stop block included; every
/// earlier returned block failed the stop test. Fails on a connector
/// error, on a block the connector vouched for but cannot deliver, and
/// when `max_depth` blocks were walked without reaching a stop block.
pub fn walk_back_until<C: Connector>(
    connector: &mut C,
    seen_blocks: Option<&HashSet<u64>>,
    start_of_swap: u32,
    starting_blockhash: u64,
    max_depth: usize,
) -> (r: Result<Vec<Block>, Error>)
    ensures
        r matches Ok(v) ==> ({
            &&& v@.len() >= 1
            &&& spec_stop_walk(spec_seen_set(seen_blocks), start_of_swap, v@[0]) == Some(true)
            &&& (forall|i: int|
                1 <= i < v@.len() ==> spec_stop_walk(
                    spec_seen_set(seen_blocks),
                    start_of_swap,
                    #[trigger] v@[i],
                ) == Some(false))
        }),
        max_depth == 0 ==> r is Err,
{
    let mut out: Vec<Block> = Vec::new();
    let mut blockhash = starting_blockhash;
    let mut depth: usize = 0;
    while depth < max_depth
        invariant
            forall|i: int|
                0 <= i < out@.len() ==> spec_stop_walk(
                    spec_seen_set(seen_blocks),
                    start_of_swap,
                    #[trigger] out@[i],
                ) == Some(false),
        decreases max_depth - depth,
    {
        let block = match connector.block_by_hash(blockhash) {
            Err(e) => {
                return Err(e);
            },
            Ok(None) => {
                return Err(
                    Error::Internal(
                        String::from_str("could not fetch a block the connector vouched for"),
                    ),
                );
            },
            Ok(Some(b)) => b,
        };
        let stop = match seen_blocks {
            None => past_timestamp(start_of_swap, &block),
            Some(seen) => match seen_block_or_past_seen_block(seen, start_of_swap, &block) {
                Ok(b) => b,
                Err(e) => {
                    return Err(e);
                },
            },
        };
        let parent = block.parent_hash;
        proof {
            assert(Some(stop) == spec_stop_walk(spec_seen_set(seen_blocks), start_of_swap, block));
        }
        let ghost old_out = out@;
        out.insert(0, block);
        proof {
            assert(out@[0] == block);
            assert(forall|i: int| 1 <= i < out@.len() ==> out@[i] == old_out[i - 1]);
        }
        if stop {
            return Ok(out);
        }
        blockhash = parent;
        depth += 1;
    }
    Err(Error::Internal(String::from_str("walked too many blocks without reaching a stop block")))
}

/// The backfill and reorg state of one watch: the hashes of the heads
/// already emitted, the start of the swap, and the walking budget.
pub struct BlockWalk {
    seen_blocks: HashSet<u64>,
    start_of_swap: Option<u32>,
    max_walk_depth: usize,
}

impl BlockWalk {
    /// The hashes of the chain heads this watch has already emitted.
    pub closed spec fn seen(&self) -> Set<u64> {
        self.seen_blocks@
    }

    /// The start of the watched swap, where one was given.
    pub closed spec fn start(&self) -> Option<u32> {
        self.start_of_swap
    }

    /// Starts a fresh watch.
    pub fn new(start_of_swap: Option<u32>, max_walk_depth: usize) -> (r: BlockWalk)
        ensures
            r.seen() == Set::<u64>::empty(),
            r.start() == start_of_swap,
    {
        BlockWalk { seen_blocks: HashSet::new(), start_of_swap, max_walk_depth }
    }

    /// One poll cycle: fetches the head and decides which blocks to emit.
    ///
    /// On the first cycle, when the head postdates the start of the swap,
    /// the walk backfills every ancestor up to that timestamp. On a later
    /// cycle whose head has an unknown parent - a reorg or a missed poll -
    /// it backfills up to a block already emitted or older than the swap.
    /// Ancestors come before descendants, the head last.
    pub fn poll_next_blocks<C: Connector>(&mut self, connector: &mut C) -> (r: Result<
        Vec<Block>,
        Error,
    >)
        ensures
            final(self).start() == old(self).start(),
            r matches Ok(v) ==> ({
                &&& v@.len() >= 1
                &&& v@.last().hash matches Some(h) && final(self).seen() == old(self).seen().insert(
                    h,
                )
                &&& (v@.len() > 1 && final(self).seen().len() == 1 ==> (old(
                    self,
                ).start() matches Some(st) && spec_stop_walk(None, st, v@[0]) == Some(true) && (
                forall|i: int|
                    1 <= i < v@.len() - 1 ==> spec_stop_walk(None, st, #[trigger] v@[i]) == Some(
                        false,
                    ))))
                &&& (v@.len() > 1 && final(self).seen().len() != 1 ==> ({
                    let st = match old(self).start() {
                        Some(s) => s,
                        None => 0u32,
                    };
                    &&& spec_stop_walk(Some(final(self).seen()), st, v@[0]) == Some(true)
                    &&& (forall|i: int|
                        1 <= i < v@.len() - 1 ==> spec_stop_walk(
                            Some(final(self).seen()),
                            st,
                            #[trigger] v@[i],
                        ) == Some(false))
                }))
            }),
    {
        let block = match connector.latest_block() {
            Err(e) => {
                return Err(e);
            },
            Ok(None) => {
                return Err(
                    Error::Internal(String::from_str("connector returned nullable latest block")),
                );
            },
            Ok(Some(b)) => b,
        };
        let blockhash = match block.hash {
            None => {
                return Err(
                    Error::Internal(
                        String::from_str("connector returned latest block with nullable hash"),
                    ),
                );
            },
            Some(h) => h,
        };
        self.seen_blocks.insert(blockhash);
        let mut out: Vec<Block> = Vec::new();
        if self.seen_blocks.len() == 1 {
            if let Some(start) = self.start_of_swap {
                if block.timestamp > start as u64 {
                    out = match walk_back_until(
                        connector,
                        None,
                        start,
                        block.parent_hash,
                        self.max_walk_depth,
                    ) {
                        Ok(v) => v,
                        Err(e) => {
                            return Err(e);
                        },
                    };
                }
            }
        } else if !self.seen_blocks.contains(&block.parent_hash) {
            let start = match self.start_of_swap {
                Some(s) => s,
                None => 0,
            };
            out = match walk_back_until(
                connector,
                Some(&self.seen_blocks),
                start,
                block.parent_hash,
                self.max_walk_depth,
            ) {
                Ok(v) => v,
                Err(e) => {
                    return Err(e);
                },
            };
        }
        let ghost walked = out@;
        out.push(block);
        proof {
            assert(out@.len() == walked.len() + 1);
            assert(forall|i: int| 0 <= i < walked.len() ==> out@[i] == #[trigger] walked[i]);
            assert(forall|i: int| 0 <= i < out@.len() - 1 ==> #[trigger] out@[i] == walked[i]);
        }
        Ok(out)
    }
}

/// Looks at one block: fetches receipts where the pattern needs them, and
/// returns the first transaction satisfying the pattern, with its receipt.
///
/// A block without a hash is a connector/core disagreement and fails
/// before any matching. For a pattern without expected events, the result
/// is exactly the first matching transaction of the block, and `None`
/// means no transaction of the block matches. For a pattern with expected
/// events, every transaction before the returned one failed to match with
/// the receipt that was fetched for it.
#[verifier::loop_isolation(false)]
pub fn check_block_against_pattern<C: Connector>(
    connector: &mut C,
    block: Block,
    pattern: &TransactionPattern,
) -> (r: Result<Option<TransactionAndReceipt>, Error>)
    ensures
        block.hash is None ==> r is Err,
        r matches Ok(Some(tr)) ==> ({
            &&& spec_matches(*pattern, tr.transaction, Some(tr.receipt))
            &&& (exists|i: int|
                0 <= i < block.transactions@.len() && tr.transaction == block.transactions@[i])
            &&& (pattern.events@.len() > 0 ==> (exists|i: int, rs: Seq<TransactionReceipt>|
                #![auto]
                {
                    &&& 0 <= i < block.transactions@.len()
                    &&& tr.transaction == block.transactions@[i]
                    &&& rs.len() == i
                    &&& (forall|j: int|
                        0 <= j < i ==> !spec_matches(
                            *pattern,
                            #[trigger] block.transactions@[j],
                            Some(rs[j]),
                        ))
                }))
            &&& (pattern.events@.len() == 0 ==> (exists|i: int|
                spec_first_match(*pattern, block.transactions@) == Some(i) && tr.transaction
                    == block.transactions@[i]))
        }),
        pattern.events@.len() == 0 && (r matches Ok(None)) ==> spec_first_match(
            *pattern,
            block.transactions@,
        ) is None,
        block.hash is Some && pattern.events@.len() == 0 && spec_first_match(
            *pattern,
            block.transactions@,
        ) is None ==> (r matches Ok(found) && found is None),
{
    if block.hash.is_none() {
        return Err(Error::Internal(String::from_str("block without hash")));
    }
    let needs_receipt = pattern.needs_receipts();
    let ghost all_txs = block.transactions@;
    let mut txs = block.transactions;
    let ghost mut fetched: Seq<TransactionReceipt> = Seq::empty();
    let n = txs.len();
    let mut j: usize = 0;
    while j < n
        invariant
            txs@ == all_txs,
            n == txs@.len(),
            j <= n,
            needs_receipt == (pattern.events@.len() > 0),
            !needs_receipt ==> forall|k: int|
                0 <= k < j ==> !spec_matches(*pattern, #[trigger] txs@[k], None),
            needs_receipt ==> fetched.len() == j,
            needs_receipt ==> forall|k: int|
                0 <= k < j ==> !spec_matches(*pattern, #[trigger] txs@[k], Some(fetched[k])),
        decreases n - j,
    {
        if needs_receipt {
            let receipt = match connector.receipt_by_hash(txs[j].hash) {
                Err(e) => {
                    return Err(e);
                },
                Ok(None) => {
                    return Err(
                        Error::Internal(
                            String::from_str("could not get transaction receipt for transaction"),
                        ),
                    );
                },
                Ok(Some(receipt)) => receipt,
            };
            let ghost this_receipt = receipt;
            let rcpt = Some(receipt);
            if pattern.matches(&txs[j], &rcpt) {
                let transaction = txs.remove(j);
                let receipt = match rcpt {
                    Some(receipt) => receipt,
                    None => {
                        assert(false);
                        return Err(Error::Btsieve);
                    },
                };
                proof {
                    assert(0 <= j < all_txs.len() && transaction == all_txs[j as int]
                        && fetched.len() == j && (forall|k: int|
                        0 <= k < j ==> !spec_matches(
                            *pattern,
                            #[trigger] all_txs[k],
                            Some(fetched[k]),
                        )));
                }
                return Ok(Some(TransactionAndReceipt { transaction, receipt }));
            }
            proof {
                fetched = fetched.push(this_receipt);
            }
        } else {
            let rcpt: Option<TransactionReceipt> = None;
            if pattern.matches(&txs[j], &rcpt) {
                proof {
                    lemma_first_match_characterization(*pattern, all_txs, j as int);
                }
                let transaction = txs.remove(j);
                let receipt = match connector.receipt_by_hash(transaction.hash) {
                    Err(e) => {
                        return Err(e);
                    },
                    Ok(None) => {
                        return Err(
                            Error::Internal(
                                String::from_str(
                                    "could not get transaction receipt for transaction",
                                ),
                            ),
                        );
                    },
                    Ok(Some(receipt)) => receipt,
                };
                return Ok(Some(TransactionAndReceipt { transaction, receipt }));
            }
        }
        j += 1;
    }
    proof {
        if pattern.events@.len() == 0 {
            lemma_no_match(*pattern, all_txs);
        }
    }
    Ok(None)
}

/// Finds the first transaction matching `pattern`, observed after
/// `start_of_swap` where one is given.
///
/// Polls the chain head up to `max_polls` times, a fixed waiting period
/// apart, emitting backfilled ancestors before their descendants; every
/// emitted block is checked in order. Any connector failure aborts the
/// watch; the budgets running out surfaces as `Error::TimerError` - the
/// caller owns the retry policy.
#[verifier::loop_isolation(false)]
pub fn matching_transaction<C: Connector>(
    connector: &mut C,
    pattern: &TransactionPattern,
    start_of_swap: Option<u32>,
    max_polls: usize,
    max_walk_depth: usize,
) -> (r: Result<TransactionAndReceipt, Error>)
    ensures
        r matches Ok(tr) ==> spec_matches(*pattern, tr.transaction, Some(tr.receipt)),
        max_polls == 0 ==> (r matches Err(e) && e == (Error::TimerError)),
{
    let mut walk = BlockWalk::new(start_of_swap, max_walk_depth);
    let mut polls: usize = 0;
    while polls < max_polls
        decreases max_polls - polls,
    {
        let mut blocks = match walk.poll_next_blocks(connector) {
            Ok(v) => v,
            Err(e) => {
                return Err(e);
            },
        };
        while blocks.len() > 0
            decreases blocks@.len(),
        {
            let block = blocks.remove(0);
            match check_block_against_pattern(connector, block, pattern) {
                Err(e) => {
                    return Err(e);
                },
                Ok(Some(tr)) => {
                    return Ok(tr);
                },
                Ok(None) => {},
            }
        }
        connector.wait_before_next_poll();
        polls += 1;
    }
    Err(Error::TimerError)
}

} // verus!
