//! Storage-neutral text forms for on-chain quantities and addresses.
//!
//! Amounts are stored as decimal text to avoid precision loss, and
//! addresses as lowercase hex text. Each type renders to its text form and
//! parses it back, and parsing a rendering is proved to reproduce the value.

use crate::text::{
    all_dec_digits, all_hex_digits, lemma_dec_round_trip, lemma_hex_round_trip, spec_dec,
    spec_dec_val, spec_hex, spec_unhex,
};
use vstd::prelude::*;

verus! {

/// A number of satoshis, stored as decimal text.
#[derive(Debug, Clone, Copy, PartialEq, Eq, Structural)]
pub struct Satoshis(pub u64);

impl Satoshis {
    /// Renders the amount as decimal text.
    pub fn to_text(&self) -> (r: String)
        ensures
            r@ == spec_dec(self.0 as nat),
    {
        crate::text::u64_to_dec(self.0)
    }

    /// Parses decimal text into an amount.
    ///
    /// Returns the amount exactly when the text is a non-empty string of
    /// decimal digits whose value fits in 64 bits; `None` otherwise.
    pub fn parse_text(s: &str) -> (r: Option<Satoshis>)
        ensures
            r is Some <==> s@.len() > 0 && all_dec_digits(s@) && spec_dec_val(s@) <= u64::MAX,
            r matches Some(v) ==> v.0 == spec_dec_val(s@),
    {
        match crate::text::parse_u64_dec(s) {
            Some(v) => Some(Satoshis(v)),
            None => None,
        }
    }
}

/// The error of parsing malformed stored text.
#[derive(Debug, Clone, Copy, PartialEq, Eq, Structural)]
pub struct ParseTextError;

impl core::str::FromStr for Satoshis {
    type Err = ParseTextError;

    fn from_str(s: &str) -> Result<Satoshis, ParseTextError> {
        match Satoshis::parse_text(s) {
            Some(v) => Ok(v),
            None => Err(ParseTextError),
        }
    }
}

impl From<Satoshis> for u64 {
    fn from(value: Satoshis) -> (r: u64) {
        value.0
    }
}

impl vstd::std_specs::convert::FromSpecImpl<Satoshis> for u64 {
    open spec fn obeys_from_spec() -> bool {
        true
    }

    open spec fn from_spec(value: Satoshis) -> u64 {
        value.0
    }
}

/// Parsing the rendering of a satoshi amount gives the amount back.
pub proof fn lemma_satoshis_text_round_trip(v: Satoshis)
    ensures
        spec_dec(v.0 as nat).len() > 0,
        all_dec_digits(spec_dec(v.0 as nat)),
        spec_dec_val(spec_dec(v.0 as nat)) == v.0,
{
    lemma_dec_round_trip(v.0 as nat);
}

/// A 256 bit quantity, stored as decimal text rather than hex so that the
/// stored form stays human-readable.
#[derive(Debug, Clone, Copy, PartialEq, Eq, Structural)]
pub struct DecimalU256(pub u128);

impl DecimalU256 {
    /// Renders the quantity as decimal text.
    pub fn to_text(&self) -> (r: String)
        ensures
            r@ == spec_dec(self.0 as nat),
    {
        crate::text::u128_to_dec(self.0)
    }

    /// Parses decimal text into a quantity.
    ///
    /// Returns the quantity exactly when the text is a non-empty string of
    /// decimal digits whose value fits; `None` otherwise.
    pub fn parse_text(s: &str) -> (r: Option<DecimalU256>)
        ensures
            r is Some <==> s@.len() > 0 && all_dec_digits(s@) && spec_dec_val(s@) <= u128::MAX,
            r matches Some(v) ==> v.0 == spec_dec_val(s@),
    {
        match crate::text::parse_u128_dec(s) {
            Some(v) => Some(DecimalU256(v)),
            None => None,
        }
    }
}

impl core::str::FromStr for DecimalU256 {
    type Err = ParseTextError;

    fn from_str(s: &str) -> Result<DecimalU256, ParseTextError> {
        match DecimalU256::parse_text(s) {
            Some(v) => Ok(v),
            None => Err(ParseTextError),
        }
    }
}

impl From<DecimalU256> for u128 {
    fn from(value: DecimalU256) -> (r: u128) {
        value.0
    }
}

impl vstd::std_specs::convert::FromSpecImpl<DecimalU256> for u128 {
    open spec fn obeys_from_spec() -> bool {
        true
    }

    open spec fn from_spec(value: DecimalU256) -> u128 {
        value.0
    }
}

/// Parsing the rendering of a 256 bit quantity gives the quantity back.
pub proof fn lemma_decimal_u256_text_round_trip(v: DecimalU256)
    ensures
        spec_dec(v.0 as nat).len() > 0,
        all_dec_digits(spec_dec(v.0 as nat)),
        spec_dec_val(spec_dec(v.0 as nat)) == v.0,
{
    lemma_dec_round_trip(v.0 as nat);
}

/// An Ethereum account or contract address: 20 bytes, stored as lowercase
/// hex text.
#[derive(Debug, Clone, PartialEq, Eq)]
pub struct EthereumAddress(pub Vec<u8>);

impl EthereumAddress {
    /// Whether the address is well formed: exactly 20 bytes.
    pub open spec fn wf(&self) -> bool {
        self.0@.len() == 20
    }

    /// Renders the address as lowercase hex text.
    pub fn to_text(&self) -> (r: String)
        ensures
            r@ == spec_hex(self.0@),
    {
        crate::text::bytes_to_hex(&self.0)
    }

    /// Parses lowercase hex text into an address.
    ///
    /// Returns the address exactly when the text is 40 lowercase hex
    /// digits; `None` otherwise.
    pub fn parse_text(s: &str) -> (r: Option<EthereumAddress>)
        ensures
            r is Some <==> s@.len() == 40 && all_hex_digits(s@),
            r matches Some(v) ==> v.0@ == spec_unhex(s@) && v.wf(),
    {
        if s.unicode_len() != 40 {
            return None;
        }
        match crate::text::hex_to_bytes(s) {
            Some(v) => {
                proof {
                    crate::text::lemma_unhex_len(s@);
                }
                Some(EthereumAddress(v))
            },
            None => None,
        }
    }
}

impl core::str::FromStr for EthereumAddress {
    type Err = ParseTextError;

    fn from_str(s: &str) -> Result<EthereumAddress, ParseTextError> {
        match EthereumAddress::parse_text(s) {
            Some(v) => Ok(v),
            None => Err(ParseTextError),
        }
    }
}

/// Parsing the rendering of an address gives the address back.
pub proof fn lemma_ethereum_address_text_round_trip(v: EthereumAddress)
    requires
        v.wf(),
    ensures
        spec_hex(v.0@).len() == 40,
        all_hex_digits(spec_hex(v.0@)),
        spec_unhex(spec_hex(v.0@)) == v.0@,
{
    lemma_hex_round_trip(v.0@);
}

/// The negotiation phase tag of a stored swap.
#[derive(Debug, Clone, Copy, PartialEq, Eq, Structural)]
pub enum CommunicationPhase {
    Proposed,
    Accepted,
    Declined,
}

/// The storage-neutral record form of a negotiation state: a flat struct
/// of plain values, one field per possible payload.
#[derive(Debug, Clone, PartialEq, Eq)]
pub struct SwapCommunicationRecord {
    pub phase: CommunicationPhase,
    pub request: crate::rfc003::messages::Request,
    pub accept: Option<crate::rfc003::messages::Accept>,
    pub decline: Option<crate::rfc003::messages::Decline>,
}

/// The record form of a negotiation state.
pub open spec fn spec_comm_to_record(
    s: crate::rfc003::alice::SwapCommunication,
) -> SwapCommunicationRecord {
    match s {
        crate::rfc003::alice::SwapCommunication::Proposed { request } => SwapCommunicationRecord {
            phase: CommunicationPhase::Proposed,
            request,
            accept: None,
            decline: None,
        },
        crate::rfc003::alice::SwapCommunication::Accepted {
            request,
            response,
        } => SwapCommunicationRecord {
            phase: CommunicationPhase::Accepted,
            request,
            accept: Some(response),
            decline: None,
        },
        crate::rfc003::alice::SwapCommunication::Declined {
            request,
            response,
        } => SwapCommunicationRecord {
            phase: CommunicationPhase::Declined,
            request,
            accept: None,
            decline: Some(response),
        },
    }
}

/// The negotiation state a record stands for, when the record is
/// coherent: the payload its phase requires must be present.
pub open spec fn spec_comm_from_record(r: SwapCommunicationRecord) -> Option<
    crate::rfc003::alice::SwapCommunication,
> {
    match r.phase {
        CommunicationPhase::Proposed => Some(
            crate::rfc003::alice::SwapCommunication::Proposed { request: r.request },
        ),
        CommunicationPhase::Accepted => match r.accept {
            Some(response) => Some(
                crate::rfc003::alice::SwapCommunication::Accepted {
                    request: r.request,
                    response,
                },
            ),
            None => None,
        },
        CommunicationPhase::Declined => match r.decline {
            Some(response) => Some(
                crate::rfc003::alice::SwapCommunication::Declined {
                    request: r.request,
                    response,
                },
            ),
            None => None,
        },
    }
}

/// Serializes a negotiation state into its record form.
pub fn comm_to_record(s: crate::rfc003::alice::SwapCommunication) -> (r: SwapCommunicationRecord)
    ensures
        r == spec_comm_to_record(s),
{
    match s {
        crate::rfc003::alice::SwapCommunication::Proposed { request } => SwapCommunicationRecord {
            phase: CommunicationPhase::Proposed,
            request,
            accept: None,
            decline: None,
        },
        crate::rfc003::alice::SwapCommunication::Accepted {
            request,
            response,
        } => SwapCommunicationRecord {
            phase: CommunicationPhase::Accepted,
            request,
            accept: Some(response),
            decline: None,
        },
        crate::rfc003::alice::SwapCommunication::Declined {
            request,
            response,
        } => SwapCommunicationRecord {
            phase: CommunicationPhase::Declined,
            request,
            accept: None,
            decline: Some(response),
        },
    }
}

/// Deserializes a record back into a negotiation state.
///
/// Returns the state exactly when the record is coherent: the payload its
/// phase requires is present.
pub fn comm_from_record(r: SwapCommunicationRecord) -> (s: Option<
    crate::rfc003::alice::SwapCommunication,
>)
    ensures
        s == spec_comm_from_record(r),
{
    match r.phase {
        CommunicationPhase::Proposed => Some(
            crate::rfc003::alice::SwapCommunication::Proposed { request: r.request },
        ),
        CommunicationPhase::Accepted => match r.accept {
            Some(response) => Some(
                crate::rfc003::alice::SwapCommunication::Accepted {
                    request: r.request,
                    response,
                },
            ),
            None => None,
        },
        CommunicationPhase::Declined => match r.decline {
            Some(response) => Some(
                crate::rfc003::alice::SwapCommunication::Declined {
                    request: r.request,
                    response,
                },
            ),
            None => None,
        },
    }
}

/// Round trip: deserializing the record form of any negotiation state
/// reproduces the state.
pub proof fn lemma_comm_record_round_trip(s: crate::rfc003::alice::SwapCommunication)
    ensures
        spec_comm_from_record(spec_comm_to_record(s)) == Some(s),
{
}

/// The storage-neutral record form of one side's lifecycle state: the
/// phase tag plus one field per possible payload.
#[derive(Debug, Clone, PartialEq, Eq)]
pub struct LedgerStateRecord {
    pub phase: crate::rfc003::ledger_state::HtlcState,
    pub location: Option<crate::rfc003::ledger_state::HtlcLocation>,
    pub asset: Option<crate::asset::AssetKind>,
    pub secret: Option<crate::secret::Secret>,
}

/// The record form of a lifecycle state.
pub open spec fn spec_ledger_state_to_record(
    s: crate::rfc003::ledger_state::LedgerState,
) -> LedgerStateRecord {
    match s {
        crate::rfc003::ledger_state::LedgerState::NotDeployed => LedgerStateRecord {
            phase: crate::rfc003::ledger_state::HtlcState::NotDeployed,
            location: None,
            asset: None,
            secret: None,
        },
        crate::rfc003::ledger_state::LedgerState::Deployed { htlc_location } => LedgerStateRecord {
            phase: crate::rfc003::ledger_state::HtlcState::Deployed,
            location: Some(htlc_location),
            asset: None,
            secret: None,
        },
        crate::rfc003::ledger_state::LedgerState::Funded {
            htlc_location,
            asset,
        } => LedgerStateRecord {
            phase: crate::rfc003::ledger_state::HtlcState::Funded,
            location: Some(htlc_location),
            asset: Some(asset),
            secret: None,
        },
        crate::rfc003::ledger_state::LedgerState::IncorrectlyFunded {
            htlc_location,
            asset,
        } => LedgerStateRecord {
            phase: crate::rfc003::ledger_state::HtlcState::IncorrectlyFunded,
            location: Some(htlc_location),
            asset: Some(asset),
            secret: None,
        },
        crate::rfc003::ledger_state::LedgerState::Redeemed {
            htlc_location,
            asset,
            secret,
        } => LedgerStateRecord {
            phase: crate::rfc003::ledger_state::HtlcState::Redeemed,
            location: Some(htlc_location),
            asset: Some(asset),
            secret: Some(secret),
        },
        crate::rfc003::ledger_state::LedgerState::Refunded {
            htlc_location,
            asset,
        } => LedgerStateRecord {
            phase: crate::rfc003::ledger_state::HtlcState::Refunded,
            location: Some(htlc_location),
            asset: Some(asset),
            secret: None,
        },
    }
}

/// The lifecycle state a record stands for, when the record is coherent:
/// the payloads its phase requires must be present.
pub open spec fn spec_ledger_state_from_record(r: LedgerStateRecord) -> Option<
    crate::rfc003::ledger_state::LedgerState,
> {
    match r.phase {
        crate::rfc003::ledger_state::HtlcState::NotDeployed => Some(
            crate::rfc003::ledger_state::LedgerState::NotDeployed,
        ),
        crate::rfc003::ledger_state::HtlcState::Deployed => match r.location {
            Some(htlc_location) => Some(
                crate::rfc003::ledger_state::LedgerState::Deployed { htlc_location },
            ),
            None => None,
        },
        crate::rfc003::ledger_state::HtlcState::Funded => match (r.location, r.asset) {
            (Some(htlc_location), Some(asset)) => Some(
                crate::rfc003::ledger_state::LedgerState::Funded { htlc_location, asset },
            ),
            _ => None,
        },
        crate::rfc003::ledger_state::HtlcState::IncorrectlyFunded => match (r.location, r.asset) {
            (Some(htlc_location), Some(asset)) => Some(
                crate::rfc003::ledger_state::LedgerState::IncorrectlyFunded {
                    htlc_location,
                    asset,
                },
            ),
            _ => None,
        },
        crate::rfc003::ledger_state::HtlcState::Redeemed => match (r.location, r.asset, r.secret) {
            (Some(htlc_location), Some(asset), Some(secret)) => Some(
                crate::rfc003::ledger_state::LedgerState::Redeemed {
                    htlc_location,
                    asset,
                    secret,
                },
            ),
            _ => None,
        },
        crate::rfc003::ledger_state::HtlcState::Refunded => match (r.location, r.asset) {
            (Some(htlc_location), Some(asset)) => Some(
                crate::rfc003::ledger_state::LedgerState::Refunded { htlc_location, asset },
            ),
            _ => None,
        },
    }
}

/// Serializes a lifecycle state into its record form.
pub fn ledger_state_to_record(s: crate::rfc003::ledger_state::LedgerState) -> (r:
    LedgerStateRecord)
    ensures
        r == spec_ledger_state_to_record(s),
{
    match s {
        crate::rfc003::ledger_state::LedgerState::NotDeployed => LedgerStateRecord {
            phase: crate::rfc003::ledger_state::HtlcState::NotDeployed,
            location: None,
            asset: None,
            secret: None,
        },
        crate::rfc003::ledger_state::LedgerState::Deployed { htlc_location } => LedgerStateRecord {
            phase: crate::rfc003::ledger_state::HtlcState::Deployed,
            location: Some(htlc_location),
            asset: None,
            secret: None,
        },
        crate::rfc003::ledger_state::LedgerState::Funded {
            htlc_location,
            asset,
        } => LedgerStateRecord {
            phase: crate::rfc003::ledger_state::HtlcState::Funded,
            location: Some(htlc_location),
            asset: Some(asset),
            secret: None,
        },
        crate::rfc003::ledger_state::LedgerState::IncorrectlyFunded {
            htlc_location,
            asset,
        } => LedgerStateRecord {
            phase: crate::rfc003::ledger_state::HtlcState::IncorrectlyFunded,
            location: Some(htlc_location),
            asset: Some(asset),
            secret: None,
        },
        crate::rfc003::ledger_state::LedgerState::Redeemed {
            htlc_location,
            asset,
            secret,
        } => LedgerStateRecord {
            phase: crate::rfc003::ledger_state::HtlcState::Redeemed,
            location: Some(htlc_location),
            asset: Some(asset),
            secret: Some(secret),
        },
        crate::rfc003::ledger_state::LedgerState::Refunded {
            htlc_location,
            asset,
        } => LedgerStateRecord {
            phase: crate::rfc003::ledger_state::HtlcState::Refunded,
            location: Some(htlc_location),
            asset: Some(asset),
            secret: None,
        },
    }
}

/// Deserializes a record back into a lifecycle state.
///
/// Returns the state exactly when the record is coherent: the payloads its
/// phase requires are present.
pub fn ledger_state_from_record(r: LedgerStateRecord) -> (s: Option<
    crate::rfc003::ledger_state::LedgerState,
>)
    ensures
        s == spec_ledger_state_from_record(r),
{
    match r.phase {
        crate::rfc003::ledger_state::HtlcState::NotDeployed => Some(
            crate::rfc003::ledger_state::LedgerState::NotDeployed,
        ),
        crate::rfc003::ledger_state::HtlcState::Deployed => match r.location {
            Some(htlc_location) => Some(
                crate::rfc003::ledger_state::LedgerState::Deployed { htlc_location },
            ),
            None => None,
        },
        crate::rfc003::ledger_state::HtlcState::Funded => match (r.location, r.asset) {
            (Some(htlc_location), Some(asset)) => Some(
                crate::rfc003::ledger_state::LedgerState::Funded { htlc_location, asset },
            ),
            _ => None,
        },
        crate::rfc003::ledger_state::HtlcState::IncorrectlyFunded => match (r.location, r.asset) {
            (Some(htlc_location), Some(asset)) => Some(
                crate::rfc003::ledger_state::LedgerState::IncorrectlyFunded {
                    htlc_location,
                    asset,
                },
            ),
            _ => None,
        },
        crate::rfc003::ledger_state::HtlcState::Redeemed => match (r.location, r.asset, r.secret) {
            (Some(htlc_location), Some(asset), Some(secret)) => Some(
                crate::rfc003::ledger_state::LedgerState::Redeemed {
                    htlc_location,
                    asset,
                    secret,
                },
            ),
            _ => None,
        },
        crate::rfc003::ledger_state::HtlcState::Refunded => match (r.location, r.asset) {
            (Some(htlc_location), Some(asset)) => Some(
                crate::rfc003::ledger_state::LedgerState::Refunded { htlc_location, asset },
            ),
            _ => None,
        },
    }
}

/// Round trip: deserializing the record form of any lifecycle state
/// reproduces the state.
pub proof fn lemma_ledger_state_record_round_trip(s: crate::rfc003::ledger_state::LedgerState)
    ensures
        spec_ledger_state_from_record(spec_ledger_state_to_record(s)) == Some(s),
{
}

} // verus!
