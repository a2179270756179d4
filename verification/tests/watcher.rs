use cnd::btsieve::{check_block_against_pattern, matching_transaction, Connector, TransactionPattern};
use cnd::chain::{Block, Log, Transaction, TransactionReceipt};
use cnd::rfc003::Error;

/// A scripted chain: `latest_block` answers with the next scripted head,
/// repeating the last one; blocks and receipts are looked up by hash.
struct SimConnector {
    heads: Vec<Block>,
    head_calls: usize,
    blocks: Vec<Block>,
    receipts: Vec<(u64, TransactionReceipt)>,
}

impl SimConnector {
    fn new(heads: Vec<Block>, blocks: Vec<Block>) -> SimConnector {
        SimConnector {
            heads,
            head_calls: 0,
            blocks,
            receipts: Vec::new(),
        }
    }
}

impl Connector for SimConnector {
    fn latest_block(&mut self) -> Result<Option<Block>, Error> {
        let i = if self.head_calls < self.heads.len() {
            self.head_calls
        } else {
            self.heads.len() - 1
        };
        self.head_calls += 1;
        Ok(Some(self.heads[i].clone()))
    }

    fn block_by_hash(&mut self, hash: u64) -> Result<Option<Block>, Error> {
        Ok(self.blocks.iter().find(|b| b.hash == Some(hash)).cloned())
    }

    fn receipt_by_hash(&mut self, transaction_hash: u64) -> Result<Option<TransactionReceipt>, Error> {
        Ok(self
            .receipts
            .iter()
            .find(|(h, _)| *h == transaction_hash)
            .map(|(_, r)| r.clone()))
    }

    fn wait_before_next_poll(&mut self) {}
}

fn block(hash: u64, parent_hash: u64, timestamp: u64, transactions: Vec<Transaction>) -> Block {
    Block {
        hash: Some(hash),
        parent_hash,
        timestamp,
        transactions,
    }
}

fn payment(hash: u64, to: Vec<u8>, value: u128) -> Transaction {
    Transaction {
        hash,
        from: vec![0xaa; 20],
        to: Some(to),
        value,
        input: Vec::new(),
    }
}

fn empty_receipt() -> TransactionReceipt {
    TransactionReceipt {
        successful: true,
        logs: Vec::new(),
    }
}

fn pattern_paying(to: Vec<u8>) -> TransactionPattern {
    TransactionPattern {
        from_address: None,
        to_address: Some(to),
        is_contract_creation: None,
        transaction_data: None,
        transaction_data_length: None,
        min_value: None,
        events: Vec::new(),
    }
}

/// Reorg correctness: a 5-block chain forks at height 3 after block 4 was
/// emitted. The watcher must walk the new fork back to its known ancestor
/// and emit the replacement block, not skip ahead on the stale chain.
#[test]
fn reorg_is_backfilled_from_the_forks_ancestor() {
    let target = vec![0x11u8; 20];
    let wanted = payment(1001, target.clone(), 500);

    let b1 = block(1, 0, 10, vec![]);
    let b2 = block(2, 1, 20, vec![]);
    let b3 = block(3, 2, 30, vec![payment(1002, vec![0x22; 20], 7)]);
    let b4 = block(4, 3, 40, vec![]);
    // The fork: a replacement for height 3 on top of block 2, and a new
    // head on top of it. The matching transaction lives only in the
    // replacement block.
    let b3f = block(13, 2, 31, vec![wanted.clone()]);
    let b4f = block(14, 13, 41, vec![]);

    let mut connector = SimConnector::new(
        vec![b1.clone(), b2.clone(), b3.clone(), b4.clone(), b4f.clone()],
        vec![b1, b2, b3, b4, b3f, b4f],
    );
    connector.receipts = vec![(1001, empty_receipt())];

    let found = matching_transaction(&mut connector, &pattern_paying(target), None, 10, 10)
        .expect("the replacement block must be found");
    assert_eq!(found.transaction, wanted);
}

/// Blocks that existed before the watch began are backfilled on the first
/// poll, ancestors before descendants, until a block predating the swap.
#[test]
fn first_poll_backfills_until_the_start_of_the_swap() {
    let target = vec![0x33u8; 20];
    let wanted = payment(2001, target.clone(), 9);

    let b1 = block(1, 0, 50, vec![]);
    let b2 = block(2, 1, 150, vec![wanted.clone()]);
    let b3 = block(3, 2, 200, vec![]);

    let mut connector = SimConnector::new(vec![b3.clone()], vec![b1, b2, b3]);
    connector.receipts = vec![(2001, empty_receipt())];

    // The swap started at time 100: block 2 postdates it and must be
    // emitted by the backfill walk; block 1 predates it and stops the
    // walk.
    let found = matching_transaction(&mut connector, &pattern_paying(target), Some(100), 5, 10)
        .expect("the backfilled block must be found");
    assert_eq!(found.transaction, wanted);
}

/// Idempotent matching: once a pattern is satisfied by block N, the same
/// pair is returned no matter how many non-matching blocks follow.
#[test]
fn matching_is_stable_under_extra_blocks() {
    let target = vec![0x44u8; 20];
    let wanted = payment(3001, target.clone(), 1);

    let b1 = block(1, 0, 10, vec![payment(3000, vec![0x55; 20], 2)]);
    let b2 = block(2, 1, 20, vec![wanted.clone()]);
    let b3 = block(3, 2, 30, vec![payment(3002, vec![0x66; 20], 3)]);
    let b4 = block(4, 3, 40, vec![payment(3003, vec![0x77; 20], 4)]);

    let mut short_chain = SimConnector::new(
        vec![b1.clone(), b2.clone()],
        vec![b1.clone(), b2.clone()],
    );
    short_chain.receipts = vec![(3001, empty_receipt())];
    let first = matching_transaction(&mut short_chain, &pattern_paying(target.clone()), None, 5, 10)
        .expect("the match must be found on the short chain");

    let mut long_chain = SimConnector::new(
        vec![b1.clone(), b2.clone(), b3.clone(), b4.clone()],
        vec![b1, b2, b3, b4],
    );
    long_chain.receipts = vec![(3001, empty_receipt())];
    let second = matching_transaction(&mut long_chain, &pattern_paying(target), None, 8, 10)
        .expect("the match must be found on the long chain");

    assert_eq!(first.transaction, second.transaction);
    assert_eq!(first.receipt, second.receipt);
    assert_eq!(first.transaction, wanted);
}

/// Within one block, the first matching transaction wins.
#[test]
fn the_first_matching_transaction_of_a_block_wins() {
    let target = vec![0x88u8; 20];
    let first_match = payment(4001, target.clone(), 5);
    let second_match = payment(4002, target.clone(), 6);

    let b1 = block(
        1,
        0,
        10,
        vec![
            payment(4000, vec![0x99; 20], 1),
            first_match.clone(),
            second_match,
        ],
    );
    let mut connector = SimConnector::new(vec![b1.clone()], vec![b1]);
    connector.receipts = vec![(4001, empty_receipt()), (4002, empty_receipt())];

    let found = matching_transaction(&mut connector, &pattern_paying(target), None, 2, 10)
        .expect("a match must be found");
    assert_eq!(found.transaction, first_match);
}

/// An exhausted poll budget surfaces as a timing error, never as a match.
#[test]
fn exhausted_poll_budget_is_a_timer_error() {
    let b1 = block(1, 0, 10, vec![payment(5000, vec![0x10; 20], 1)]);
    let mut connector = SimConnector::new(vec![b1.clone()], vec![b1]);

    let result = matching_transaction(&mut connector, &pattern_paying(vec![0x20; 20]), None, 3, 10);
    assert_eq!(result, Err(Error::TimerError));
}

/// A block the connector delivers without a hash is a connector/core
/// disagreement: the matcher fails on it instead of matching.
#[test]
fn block_without_hash_is_an_internal_error() {
    let mut connector = SimConnector::new(vec![block(1, 0, 10, vec![])], vec![]);
    let hashless = Block {
        hash: None,
        parent_hash: 0,
        timestamp: 10,
        transactions: vec![],
    };
    let result = check_block_against_pattern(&mut connector, hashless, &pattern_paying(vec![0x01; 20]));
    assert!(matches!(result, Err(Error::Internal(_))));
}

/// A watch given no poll budget at all fails up front with the timing
/// error, before any connector call.
#[test]
fn zero_poll_budget_is_refused_up_front() {
    let b1 = block(1, 0, 10, vec![]);
    let mut connector = SimConnector::new(vec![b1.clone()], vec![b1]);
    let result = matching_transaction(&mut connector, &pattern_paying(vec![0x01; 20]), None, 0, 10);
    assert_eq!(result, Err(Error::TimerError));
}

/// A pattern that expects events needs receipts, and matches only when
/// some log of the receipt satisfies the expected event.
#[test]
fn event_patterns_are_matched_against_receipts() {
    let contract = vec![0xabu8; 20];
    let topic = vec![0xcdu8; 32];
    let transfer = payment(6001, contract.clone(), 0);

    let pattern = TransactionPattern {
        from_address: None,
        to_address: None,
        is_contract_creation: None,
        transaction_data: None,
        transaction_data_length: None,
        min_value: None,
        events: vec![cnd::btsieve::Event {
            address: Some(contract.clone()),
            data: None,
            topics: vec![Some(cnd::btsieve::Topic(topic.clone()))],
        }],
    };
    assert!(pattern.needs_receipts());

    let matching_receipt = TransactionReceipt {
        successful: true,
        logs: vec![Log {
            address: contract.clone(),
            topics: vec![topic],
            data: Vec::new(),
        }],
    };

    let b1 = block(1, 0, 10, vec![transfer.clone()]);
    let mut connector = SimConnector::new(vec![b1.clone()], vec![b1]);
    connector.receipts = vec![(6001, matching_receipt.clone())];

    let found =
        matching_transaction(&mut connector, &pattern, None, 2, 10).expect("must match via logs");
    assert_eq!(found.transaction, transfer);
    assert_eq!(found.receipt, matching_receipt);
}

/// The same event pattern does not match when the receipt's log carries a
/// different topic.
#[test]
fn event_patterns_reject_wrong_topics() {
    let contract = vec![0xabu8; 20];
    let transfer = payment(7001, contract.clone(), 0);

    let pattern = TransactionPattern {
        from_address: None,
        to_address: None,
        is_contract_creation: None,
        transaction_data: None,
        transaction_data_length: None,
        min_value: None,
        events: vec![cnd::btsieve::Event {
            address: Some(contract.clone()),
            data: None,
            topics: vec![Some(cnd::btsieve::Topic(vec![0xcd; 32]))],
        }],
    };

    let wrong_receipt = TransactionReceipt {
        successful: true,
        logs: vec![Log {
            address: contract,
            topics: vec![vec![0xee; 32]],
            data: Vec::new(),
        }],
    };

    let b1 = block(1, 0, 10, vec![transfer]);
    let mut connector = SimConnector::new(vec![b1.clone()], vec![b1]);
    connector.receipts = vec![(7001, wrong_receipt)];

    let result = matching_transaction(&mut connector, &pattern, None, 2, 10);
    assert_eq!(result, Err(Error::TimerError));
}
