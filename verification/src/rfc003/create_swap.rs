//! The parameters of one side's hash time-locked contract, and what is
//! derived from them: the contract address, the transaction patterns the
//! watcher looks for, and the secret harvested from a redeeming
//! transaction.
//!
//! The address is a pure function of the parameters: both parties compute
//! it independently and must agree bit for bit before releasing funds.

use crate::asset::{AssetKind, Bitcoin, Erc20, Ether};
use crate::btsieve::TransactionPattern;
use crate::bytes::{bytes_clone, bytes_slice, spec_be_bytes, u128_be_bytes};
use crate::chain::Transaction;
use crate::rfc003::ledger::{LedgerParams, Network};
use crate::rfc003::messages::{Accept, Request};
use crate::secret::{keccak256, keccak256_of, Secret, SecretHash};
use crate::Timestamp;
use vstd::prelude::*;

verus! {

/// Everything one side's contract is built from: derived from a request
/// and an acceptance, never stored.
#[derive(Debug, Clone, PartialEq, Eq)]
pub struct HtlcParams {
    /// The asset the contract holds.
    pub asset: AssetKind,
    /// The chain the contract lives on.
    pub ledger: LedgerParams,
    /// The identity the redeem path pays out to.
    pub redeem_identity: Vec<u8>,
    /// The identity the refund path pays out to.
    pub refund_identity: Vec<u8>,
    /// When the refund path opens.
    pub expiry: Timestamp,
    /// The hash that locks the contract.
    pub secret_hash: SecretHash,
}

/// The canonical byte tag of a bitcoin network.
pub open spec fn spec_network_tag(n: Network) -> u8 {
    match n {
        Network::Mainnet => 0,
        Network::Testnet => 1,
        Network::Regtest => 2,
    }
}

/// The canonical encoding of the ledger a contract lives on.
pub open spec fn spec_ledger_bytes(l: LedgerParams) -> Seq<u8> {
    match l {
        LedgerParams::Bitcoin(b) => seq![0u8, spec_network_tag(b.network)],
        LedgerParams::Ethereum(e) => seq![1u8] + spec_be_bytes(e.chain_id as nat, 4),
    }
}

/// The canonical encoding of the asset a contract holds.
pub open spec fn spec_asset_bytes(a: AssetKind) -> Seq<u8> {
    match a {
        AssetKind::Bitcoin(b) => seq![0u8] + spec_be_bytes(b.0 as nat, 8),
        AssetKind::Ether(e) => seq![1u8] + spec_be_bytes(e.0 as nat, 16),
        AssetKind::Erc20(t) => seq![2u8] + t.token_contract@ + spec_be_bytes(
            t.quantity.0 as nat,
            16,
        ),
    }
}

/// The canonical encoding of contract parameters: ledger, asset, the two
/// identities, the secret hash, and the expiry.
pub open spec fn spec_encode_params(p: HtlcParams) -> Seq<u8> {
    spec_ledger_bytes(p.ledger) + spec_asset_bytes(p.asset) + p.refund_identity@
        + p.redeem_identity@ + p.secret_hash@ + spec_be_bytes(p.expiry.0 as nat, 4)
}

/// The contract address derived from the parameters: the last 20 bytes of
/// the digest of their canonical encoding.
pub open spec fn spec_htlc_address(p: HtlcParams) -> Seq<u8> {
    keccak256_of(spec_encode_params(p)).subrange(12, 32)
}

/// Whether two parameter values carry the same contents, byte for byte.
pub open spec fn spec_params_eq(a: HtlcParams, b: HtlcParams) -> bool {
    &&& crate::asset::spec_asset_eq(a.asset, b.asset)
    &&& a.ledger == b.ledger
    &&& a.redeem_identity@ == b.redeem_identity@
    &&& a.refund_identity@ == b.refund_identity@
    &&& a.expiry == b.expiry
    &&& a.secret_hash@ == b.secret_hash@
}

/// Determinism of the contract address: parties who hold the same
/// parameter contents compute the same address, bit for bit, on every
/// call.
pub proof fn lemma_compute_address_deterministic(a: HtlcParams, b: HtlcParams)
    requires
        spec_params_eq(a, b),
    ensures
        spec_htlc_address(a) == spec_htlc_address(b),
{
    assert(spec_asset_bytes(a.asset) == spec_asset_bytes(b.asset));
    assert(spec_encode_params(a) == spec_encode_params(b));
}

fn ledger_bytes(l: &LedgerParams) -> (r: Vec<u8>)
    ensures
        r@ == spec_ledger_bytes(*l),
{
    match l {
        LedgerParams::Bitcoin(b) => {
            let mut out: Vec<u8> = Vec::new();
            out.push(0);
            out.push(
                match b.network {
                    Network::Mainnet => 0,
                    Network::Testnet => 1,
                    Network::Regtest => 2,
                },
            );
            proof {
                assert(out@ =~= spec_ledger_bytes(*l));
            }
            out
        },
        LedgerParams::Ethereum(e) => {
            let mut out: Vec<u8> = Vec::new();
            out.push(1);
            let id = u128_be_bytes(e.chain_id as u128, 4);
            crate::bytes::bytes_extend(&mut out, &id);
            proof {
                assert(out@ =~= spec_ledger_bytes(*l));
            }
            out
        },
    }
}

fn asset_bytes(a: &AssetKind) -> (r: Vec<u8>)
    ensures
        r@ == spec_asset_bytes(*a),
{
    match a {
        AssetKind::Bitcoin(b) => {
            let mut out: Vec<u8> = Vec::new();
            out.push(0);
            let amount = u128_be_bytes(b.0 as u128, 8);
            crate::bytes::bytes_extend(&mut out, &amount);
            proof {
                assert(out@ =~= spec_asset_bytes(*a));
            }
            out
        },
        AssetKind::Ether(e) => {
            let mut out: Vec<u8> = Vec::new();
            out.push(1);
            let amount = u128_be_bytes(e.0, 16);
            crate::bytes::bytes_extend(&mut out, &amount);
            proof {
                assert(out@ =~= spec_asset_bytes(*a));
            }
            out
        },
        AssetKind::Erc20(t) => {
            let mut out: Vec<u8> = Vec::new();
            out.push(2);
            crate::bytes::bytes_extend(&mut out, &t.token_contract);
            let amount = u128_be_bytes(t.quantity.0, 16);
            crate::bytes::bytes_extend(&mut out, &amount);
            proof {
                assert(out@ =~= spec_asset_bytes(*a));
            }
            out
        },
    }
}

impl HtlcParams {
    /// Encodes the parameters canonically.
    pub fn encode(&self) -> (r: Vec<u8>)
        ensures
            r@ == spec_encode_params(*self),
    {
        let mut out = ledger_bytes(&self.ledger);
        let asset = asset_bytes(&self.asset);
        crate::bytes::bytes_extend(&mut out, &asset);
        crate::bytes::bytes_extend(&mut out, &self.refund_identity);
        crate::bytes::bytes_extend(&mut out, &self.redeem_identity);
        let hash = self.secret_hash.to_vec();
        crate::bytes::bytes_extend(&mut out, &hash);
        let expiry = u128_be_bytes(self.expiry.0 as u128, 4);
        crate::bytes::bytes_extend(&mut out, &expiry);
        proof {
            assert(out@ =~= spec_encode_params(*self));
        }
        out
    }

    /// Computes the on-chain address of the contract these parameters
    /// describe. Both parties derive it independently; the result is a
    /// function of the parameters alone.
    pub fn compute_address(&self) -> (r: Vec<u8>)
        ensures
            r@ == spec_htlc_address(*self),
            r@.len() == 20,
    {
        let encoded = self.encode();
        let digest = keccak256(&encoded);
        bytes_slice(&digest, 12, 32)
    }

    /// The pattern that finds the transaction funding this contract.
    ///
    /// It fixes only the recipient: a funding of the wrong amount must
    /// still be delivered, so the lifecycle can reach `IncorrectlyFunded`.
    pub fn fund_pattern(&self) -> (r: TransactionPattern)
        ensures
            r.from_address is None,
            r.is_contract_creation is None,
            r.transaction_data is None,
            r.transaction_data_length is None,
            r.min_value is None,
            r.events@.len() == 0,
            r.to_address matches Some(a) && a@ == spec_htlc_address(*self),
    {
        TransactionPattern {
            from_address: None,
            to_address: Some(self.compute_address()),
            is_contract_creation: None,
            transaction_data: None,
            transaction_data_length: None,
            min_value: None,
            events: Vec::new(),
        }
    }

    /// The pattern that finds the transaction redeeming this contract: a
    /// call to the contract whose call data is the 32 byte secret.
    pub fn redeem_pattern(&self) -> (r: TransactionPattern)
        ensures
            r.from_address is None,
            r.is_contract_creation is None,
            r.transaction_data is None,
            r.transaction_data_length == Some(32usize),
            r.min_value is None,
            r.events@.len() == 0,
            r.to_address matches Some(a) && a@ == spec_htlc_address(*self),
    {
        TransactionPattern {
            from_address: None,
            to_address: Some(self.compute_address()),
            is_contract_creation: None,
            transaction_data: None,
            transaction_data_length: Some(32),
            min_value: None,
            events: Vec::new(),
        }
    }

    /// The pattern that finds the transaction refunding this contract: a
    /// call to the contract without call data, legal after expiry.
    pub fn refund_pattern(&self) -> (r: TransactionPattern)
        ensures
            r.from_address is None,
            r.is_contract_creation is None,
            r.transaction_data is None,
            r.transaction_data_length == Some(0usize),
            r.min_value is None,
            r.events@.len() == 0,
            r.to_address matches Some(a) && a@ == spec_htlc_address(*self),
    {
        TransactionPattern {
            from_address: None,
            to_address: Some(self.compute_address()),
            is_contract_creation: None,
            transaction_data: None,
            transaction_data_length: Some(0),
            min_value: None,
            events: Vec::new(),
        }
    }
}

/// Whether `p` holds the alpha-side parameters derived from a request and
/// its acceptance: Alice refunds, Bob redeems.
pub open spec fn is_alpha_params_of(p: HtlcParams, request: Request, accept: Accept) -> bool {
    &&& crate::asset::spec_asset_eq(p.asset, request.alpha_asset)
    &&& p.ledger == request.alpha_ledger
    &&& p.refund_identity@ == request.alpha_ledger_refund_identity@
    &&& p.redeem_identity@ == accept.alpha_ledger_redeem_identity@
    &&& p.expiry == request.alpha_expiry
    &&& p.secret_hash@ == request.secret_hash@
}

/// Whether `p` holds the beta-side parameters derived from a request and
/// its acceptance: Bob refunds, Alice redeems.
pub open spec fn is_beta_params_of(p: HtlcParams, request: Request, accept: Accept) -> bool {
    &&& crate::asset::spec_asset_eq(p.asset, request.beta_asset)
    &&& p.ledger == request.beta_ledger
    &&& p.refund_identity@ == accept.beta_ledger_refund_identity@
    &&& p.redeem_identity@ == request.beta_ledger_redeem_identity@
    &&& p.expiry == request.beta_expiry
    &&& p.secret_hash@ == request.secret_hash@
}

/// Derives the alpha-side contract parameters from a request and its
/// acceptance.
pub fn alpha_params(request: &Request, accept: &Accept) -> (r: HtlcParams)
    ensures
        is_alpha_params_of(r, *request, *accept),
{
    HtlcParams {
        asset: duplicate_asset(&request.alpha_asset),
        ledger: request.alpha_ledger,
        redeem_identity: bytes_clone(&accept.alpha_ledger_redeem_identity),
        refund_identity: bytes_clone(&request.alpha_ledger_refund_identity),
        expiry: request.alpha_expiry,
        secret_hash: request.secret_hash.duplicate(),
    }
}

/// Derives the beta-side contract parameters from a request and its
/// acceptance.
pub fn beta_params(request: &Request, accept: &Accept) -> (r: HtlcParams)
    ensures
        is_beta_params_of(r, *request, *accept),
{
    HtlcParams {
        asset: duplicate_asset(&request.beta_asset),
        ledger: request.beta_ledger,
        redeem_identity: bytes_clone(&request.beta_ledger_redeem_identity),
        refund_identity: bytes_clone(&accept.beta_ledger_refund_identity),
        expiry: request.beta_expiry,
        secret_hash: request.secret_hash.duplicate(),
    }
}

/// Returns a copy of an asset quantity with the same contents.
pub fn duplicate_asset(a: &AssetKind) -> (r: AssetKind)
    ensures
        crate::asset::spec_asset_eq(r, *a),
{
    match a {
        AssetKind::Bitcoin(b) => AssetKind::Bitcoin(Bitcoin(b.0)),
        AssetKind::Ether(e) => AssetKind::Ether(Ether(e.0)),
        AssetKind::Erc20(t) => AssetKind::Erc20(
            Erc20 {
                token_contract: bytes_clone(&t.token_contract),
                quantity: t.quantity,
            },
        ),
    }
}

/// The funding the contract actually received, read from the matched
/// funding transaction as the same kind of asset that was expected.
///
/// Returns `None` only for a bitcoin contract whose observed amount does
/// not fit a satoshi count.
pub fn observed_funding(expected: &AssetKind, funding_transaction: &Transaction) -> (r: Option<
    AssetKind,
>)
    ensures
        r matches Some(a) ==> crate::asset::spec_asset_eq(
            a,
            match expected {
                AssetKind::Bitcoin(_) => AssetKind::Bitcoin(
                    Bitcoin(funding_transaction.value as u64),
                ),
                AssetKind::Ether(_) => AssetKind::Ether(Ether(funding_transaction.value)),
                AssetKind::Erc20(t) => AssetKind::Erc20(
                    Erc20 {
                        token_contract: t.token_contract,
                        quantity: crate::asset::Erc20Quantity(funding_transaction.value),
                    },
                ),
            },
        ),
        r is None <==> expected is Bitcoin && funding_transaction.value > u64::MAX,
{
    match expected {
        AssetKind::Bitcoin(_) => {
            if funding_transaction.value > u64::MAX as u128 {
                None
            } else {
                Some(AssetKind::Bitcoin(Bitcoin(funding_transaction.value as u64)))
            }
        },
        AssetKind::Ether(_) => Some(AssetKind::Ether(Ether(funding_transaction.value))),
        AssetKind::Erc20(t) => Some(
            AssetKind::Erc20(
                Erc20 {
                    token_contract: bytes_clone(&t.token_contract),
                    quantity: crate::asset::Erc20Quantity(funding_transaction.value),
                },
            ),
        ),
    }
}

/// Harvests the secret from a redeeming transaction: the transaction's
/// call data, exactly when it is 32 bytes whose digest is the contract's
/// secret hash.
pub fn extract_secret(redeem_transaction: &Transaction, secret_hash: &SecretHash) -> (r: Option<
    Secret,
>)
    ensures
        r is Some <==> redeem_transaction.input@.len() == 32 && keccak256_of(
            redeem_transaction.input@,
        ) == secret_hash@,
        r matches Some(s) ==> s@ == redeem_transaction.input@ && s.wf(),
{
    if redeem_transaction.input.len() != 32 {
        return None;
    }
    let candidate = match Secret::from_vec(bytes_clone(&redeem_transaction.input)) {
        Some(s) => s,
        None => {
            return None;
        },
    };
    if secret_hash.matches_secret(&candidate) {
        Some(candidate)
    } else {
        None
    }
}

} // verus!
