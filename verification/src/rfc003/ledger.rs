//! The ledgers a swap can run on.
//!
//! A ledger is a capability, not data: it fixes the identity, contract
//! location and transaction representation of one chain. The supported
//! chains form a closed set, dispatched at runtime through `LedgerParams`.

use vstd::prelude::*;

verus! {

/// The tag naming one supported chain.
#[derive(Debug, Clone, Copy, PartialEq, Eq, Structural)]
pub enum LedgerKind {
    Bitcoin,
    Ethereum,
}

/// The bitcoin network a swap leg runs on.
#[derive(Debug, Clone, Copy, PartialEq, Eq, Structural)]
pub enum Network {
    Mainnet,
    Testnet,
    Regtest,
}

/// The bitcoin ledger, fixed to one network.
#[derive(Debug, Clone, Copy, PartialEq, Eq, Structural)]
pub struct Bitcoin {
    pub network: Network,
}

/// The ethereum ledger, fixed to one chain.
#[derive(Debug, Clone, Copy, PartialEq, Eq, Structural)]
pub struct Ethereum {
    pub chain_id: u32,
}

/// A reference to an unspent transaction output.
#[derive(Debug, Clone, Copy, PartialEq, Eq, Structural)]
pub struct OutPoint {
    /// The transaction holding the output.
    pub txid: u64,
    /// The index of the output within that transaction.
    pub vout: u32,
}

/// The capability contract every supported chain satisfies: its identity,
/// contract location and transaction types, and its tag.
pub trait Ledger: Sized {
    /// How a party is identified on this chain.
    type Identity;

    /// Where a deployed contract lives on this chain.
    type HtlcLocation;

    /// How a transaction of this chain is represented.
    type Transaction;

    /// The tag of this chain.
    spec fn spec_kind(self) -> LedgerKind;

    /// Returns the tag of this chain.
    fn kind(self) -> (k: LedgerKind)
        ensures
            k == self.spec_kind(),
    ;
}

impl Ledger for Bitcoin {
    type Identity = Vec<u8>;

    type HtlcLocation = OutPoint;

    type Transaction = crate::chain::Transaction;

    open spec fn spec_kind(self) -> LedgerKind {
        LedgerKind::Bitcoin
    }

    fn kind(self) -> (k: LedgerKind) {
        LedgerKind::Bitcoin
    }
}

impl Ledger for Ethereum {
    type Identity = Vec<u8>;

    type HtlcLocation = Vec<u8>;

    type Transaction = crate::chain::Transaction;

    open spec fn spec_kind(self) -> LedgerKind {
        LedgerKind::Ethereum
    }

    fn kind(self) -> (k: LedgerKind) {
        LedgerKind::Ethereum
    }
}

/// One ledger of a concrete swap, with its parameters.
#[derive(Debug, Clone, Copy, PartialEq, Eq, Structural)]
pub enum LedgerParams {
    Bitcoin(Bitcoin),
    Ethereum(Ethereum),
}

impl LedgerParams {
    /// The tag of the chain these parameters belong to.
    pub open spec fn spec_kind(self) -> LedgerKind {
        match self {
            LedgerParams::Bitcoin(_) => LedgerKind::Bitcoin,
            LedgerParams::Ethereum(_) => LedgerKind::Ethereum,
        }
    }

    /// Returns the tag of the chain these parameters belong to.
    pub fn kind(&self) -> (k: LedgerKind)
        ensures
            k == self.spec_kind(),
    {
        match self {
            LedgerParams::Bitcoin(_) => LedgerKind::Bitcoin,
            LedgerParams::Ethereum(_) => LedgerKind::Ethereum,
        }
    }
}

} // verus!
