//! Ledger-agnostic chain data as the watcher sees it.
//!
//! Each connector maps its own chain into this one shape: a bitcoin
//! connector presents an output as a payment with a recipient and a value,
//! an ethereum connector presents calls, logs and receipts directly.
//!
//! Blocks, transactions, receipts and logs are carried as plain values:
//! block and transaction hashes as 64 bit identifiers, addresses and
//! topics as byte strings, amounts as wei counts. A connector delivers
//! values of these types; the watcher never talks to a node itself.

use vstd::prelude::*;

verus! {

/// One log entry of a transaction receipt.
#[derive(Debug, Clone, PartialEq, Eq)]
pub struct Log {
    /// The contract that emitted the log.
    pub address: Vec<u8>,
    /// The indexed topics, first the event signature.
    pub topics: Vec<Vec<u8>>,
    /// The unindexed payload.
    pub data: Vec<u8>,
}

/// The receipt of an executed transaction.
#[derive(Debug, Clone, PartialEq, Eq)]
pub struct TransactionReceipt {
    /// Whether execution succeeded.
    pub successful: bool,
    /// The logs the execution emitted.
    pub logs: Vec<Log>,
}

/// One transaction of a block.
#[derive(Debug, Clone, PartialEq, Eq)]
pub struct Transaction {
    /// The transaction hash.
    pub hash: u64,
    /// The sending account.
    pub from: Vec<u8>,
    /// The receiving account, absent for a contract creation.
    pub to: Option<Vec<u8>>,
    /// The transferred amount, in wei.
    pub value: u128,
    /// The call data.
    pub input: Vec<u8>,
}

/// One block of the chain.
#[derive(Debug, Clone, PartialEq, Eq)]
pub struct Block {
    /// The block hash; a connector may deliver a pending block without one.
    pub hash: Option<u64>,
    /// The hash of the parent block.
    pub parent_hash: u64,
    /// The block timestamp, in seconds since the Unix epoch.
    pub timestamp: u64,
    /// The transactions of the block.
    pub transactions: Vec<Transaction>,
}

impl Block {
    /// Returns whether the block was mined before `timestamp`.
    pub fn predates(&self, timestamp: u32) -> (r: bool)
        ensures
            r == (self.timestamp < timestamp),
    {
        self.timestamp < timestamp as u64
    }
}

/// A matched transaction together with its receipt.
#[derive(Debug, Clone, PartialEq, Eq)]
pub struct TransactionAndReceipt {
    pub transaction: Transaction,
    pub receipt: TransactionReceipt,
}

} // verus!
