//! Asset quantities for the supported ledgers.
//!
//! An asset is a totally ordered quantity of value on one chain: an amount
//! of bitcoin in satoshis, an amount of ether in wei, or an amount of an
//! ERC-20 token identified by its contract. `AssetKind` is the closed tagged
//! union over those quantities, used wherever the concrete (ledger, asset)
//! pair is only known at request time.

use vstd::prelude::*;

verus! {

/// The largest number of wei an `Ether` amount may carry.
pub const MAX_ETHER_WEI: u128 = 4 * 0xffff_ffff_ffff_ffffu128;

/// An amount of bitcoin, in satoshis.
#[derive(Debug, Clone, Copy, PartialEq, Eq, PartialOrd, Ord, Hash, Structural)]
pub struct Bitcoin(pub u64);

impl Bitcoin {
    /// Builds an amount from a satoshi count.
    pub fn from_sat(sat: u64) -> (r: Bitcoin)
        ensures
            r == (Bitcoin(sat)),
    {
        Bitcoin(sat)
    }

    /// The amount as a satoshi count.
    pub fn as_sat(&self) -> (r: u64)
        ensures
            r == self.0,
    {
        self.0
    }
}

/// An amount of ether, in wei.
#[derive(Debug, Clone, Copy, PartialEq, Eq, PartialOrd, Ord, Hash, Structural)]
pub struct Ether(pub u128);

impl Ether {
    /// The largest representable amount.
    pub fn max_value() -> (r: Ether)
        ensures
            r == (Ether(MAX_ETHER_WEI)),
    {
        Ether(MAX_ETHER_WEI)
    }

    /// Builds an amount from a wei count.
    pub fn from_wei(wei: u128) -> (r: Ether)
        ensures
            r == (Ether(wei)),
    {
        Ether(wei)
    }

    /// The amount as a wei count.
    pub fn wei(&self) -> (r: u128)
        ensures
            r == self.0,
    {
        self.0
    }

    /// Adds two amounts, refusing any operand or result above
    /// [`Ether::max_value`].
    pub fn checked_add(self, rhs: Ether) -> (r: Option<Ether>)
        ensures
            self.0 > MAX_ETHER_WEI || rhs.0 > MAX_ETHER_WEI ==> r is None,
            self.0 <= MAX_ETHER_WEI && rhs.0 <= MAX_ETHER_WEI ==> (if self.0 + rhs.0
                > MAX_ETHER_WEI {
                r is None
            } else {
                r == Some(Ether((self.0 + rhs.0) as u128))
            }),
    {
        if self.0 > MAX_ETHER_WEI || rhs.0 > MAX_ETHER_WEI {
            None
        } else {
            let res = self.0 + rhs.0;
            if res > MAX_ETHER_WEI {
                None
            } else {
                Some(Ether(res))
            }
        }
    }

    /// The zero amount.
    pub fn zero() -> (r: Ether)
        ensures
            r == (Ether(0)),
    {
        Ether(0)
    }

    /// Parses a wei count written as decimal text, the form in which an
    /// amount of ether arrives over the wire.
    ///
    /// Returns the amount exactly when the text is a non-empty string of
    /// decimal digits whose value fits; `None` otherwise.
    pub fn from_wei_dec_str(s: &str) -> (r: Option<Ether>)
        ensures
            r is Some <==> s@.len() > 0 && crate::text::all_dec_digits(s@)
                && crate::text::spec_dec_val(s@) <= u128::MAX,
            r matches Some(v) ==> v.0 == crate::text::spec_dec_val(s@),
    {
        match crate::text::parse_u128_dec(s) {
            Some(v) => Some(Ether(v)),
            None => None,
        }
    }

    /// Renders the amount as the decimal text of its wei count, the form
    /// in which it is sent over the wire.
    pub fn to_wei_dec_str(&self) -> (r: String)
        ensures
            r@ == crate::text::spec_dec(self.0 as nat),
    {
        crate::text::u128_to_dec(self.0)
    }

    /// Parses an amount of ether written as decimal text, such as
    /// `"1.000000001"` or `"100"`, into its wei count at a scale of 18.
    ///
    /// Returns the amount exactly when the text follows the grammar -
    /// decimal digits, optionally a point followed by one to eighteen
    /// fraction digits - and the wei count fits; `None` otherwise.
    pub fn from_eth_str(s: &str) -> (r: Option<Ether>)
        ensures
            r is Some <==> (spec_eth_text_value(s@) matches Some(v) && v <= u128::MAX),
            r matches Some(e) ==> Some(e.0 as int) == spec_eth_text_value(s@),
    {
        proof {
            crate::text::lemma_pow10_18_fits();
        }
        let wei_per_eth = crate::text::pow10_u128(18);
        match crate::text::find_dot(s) {
            None => {
                match crate::text::parse_u128_dec(s) {
                    None => {
                        proof {
                            if s@.len() > 0 && crate::text::all_dec_digits(s@) {
                                assert(crate::text::spec_dec_val(s@) > u128::MAX);
                                assert(crate::text::spec_dec_val(s@) * crate::text::spec_pow10(18)
                                    >= crate::text::spec_dec_val(s@)) by (nonlinear_arith)
                                    requires
                                        crate::text::spec_dec_val(s@) >= 0,
                                        crate::text::spec_pow10(18) >= 1,
                                ;
                            }
                        }
                        None
                    },
                    Some(v) => {
                        match v.checked_mul(wei_per_eth) {
                            None => None,
                            Some(w) => Some(Ether(w)),
                        }
                    },
                }
            },
            Some(i) => {
                let n = s.unicode_len();
                if i == 0 {
                    return None;
                }
                let frac_len = n - i - 1;
                if frac_len == 0 || frac_len > 18 {
                    return None;
                }
                let int_str = s.substring_char(0, i);
                let frac_str = s.substring_char(i + 1, n);
                proof {
                    assert(int_str@ =~= s@.take(i as int));
                    assert(frac_str@ =~= s@.skip(i + 1));
                }
                let int_val = match crate::text::parse_u128_dec(int_str) {
                    None => {
                        proof {
                            let iv = crate::text::spec_dec_val(s@.take(i as int));
                            if crate::text::all_dec_digits(s@.take(i as int)) {
                                assert(iv > u128::MAX);
                                assert(iv * crate::text::spec_pow10(18) >= iv) by (nonlinear_arith)
                                    requires
                                        iv >= 0,
                                        crate::text::spec_pow10(18) >= 1,
                                ;
                                if crate::text::all_dec_digits(s@.skip(i + 1)) {
                                    crate::text::lemma_dec_val_bound(s@.skip(i + 1));
                                    let fv = crate::text::spec_dec_val(s@.skip(i + 1));
                                    let q = crate::text::spec_pow10(
                                        (18 - s@.skip(i + 1).len()) as nat,
                                    );
                                    assert(fv * q >= 0) by (nonlinear_arith)
                                        requires
                                            fv >= 0,
                                            q >= 0,
                                    ;
                                }
                            }
                        }
                        return None;
                    },
                    Some(v) => v,
                };
                let frac_val = match crate::text::parse_u128_dec(frac_str) {
                    None => {
                        proof {
                            if crate::text::all_dec_digits(s@.skip(i + 1)) {
                                crate::text::lemma_dec_val_bound(s@.skip(i + 1));
                                crate::text::lemma_pow10_monotone(
                                    s@.skip(i + 1).len() as nat,
                                    18,
                                );
                            }
                        }
                        return None;
                    },
                    Some(v) => v,
                };
                proof {
                    crate::text::lemma_dec_val_bound(s@.skip(i + 1));
                    crate::text::lemma_pow10_add(
                        s@.skip(i + 1).len() as nat,
                        (18 - frac_len) as nat,
                    );
                    crate::text::lemma_pow10_monotone((18 - frac_len) as nat, 18);
                    crate::text::lemma_pow10_monotone(0, (18 - frac_len) as nat);
                }
                let scale = crate::text::pow10_u128(18 - frac_len);
                assert(frac_val * scale < crate::text::spec_pow10(18)) by (nonlinear_arith)
                    requires
                        0 <= frac_val < crate::text::spec_pow10(frac_len as nat),
                        scale == crate::text::spec_pow10((18 - frac_len) as nat),
                        scale >= 1,
                        crate::text::spec_pow10(frac_len as nat) * crate::text::spec_pow10(
                            (18 - frac_len) as nat,
                        ) == crate::text::spec_pow10(18),
                ;
                let frac_scaled = frac_val * scale;
                match int_val.checked_mul(wei_per_eth) {
                    None => {
                        proof {
                            assert(int_val * crate::text::spec_pow10(18) + frac_val * scale
                                >= int_val * crate::text::spec_pow10(18));
                        }
                        None
                    },
                    Some(scaled) => {
                        match scaled.checked_add(frac_scaled) {
                            None => None,
                            Some(total) => Some(Ether(total)),
                        }
                    },
                }
            },
        }
    }
}

/// The wei count an amount of ether written as decimal text denotes, at a
/// scale of 18: the integer digits in whole ether, then optionally a
/// point and one to eighteen fraction digits.
pub open spec fn spec_eth_text_value(s: Seq<char>) -> Option<int> {
    match crate::text::spec_first_dot(s) {
        None => if s.len() > 0 && crate::text::all_dec_digits(s) {
            Some(crate::text::spec_dec_val(s) * crate::text::spec_pow10(18))
        } else {
            None
        },
        Some(i) => {
            let int_part = s.take(i);
            let frac = s.skip(i + 1);
            if int_part.len() > 0 && 0 < frac.len() <= 18 && crate::text::all_dec_digits(int_part)
                && crate::text::all_dec_digits(frac) {
                Some(
                    crate::text::spec_dec_val(int_part) * crate::text::spec_pow10(18)
                        + crate::text::spec_dec_val(frac) * crate::text::spec_pow10(
                        (18 - frac.len()) as nat,
                    ),
                )
            } else {
                None
            }
        },
    }
}

/// The error of parsing malformed ether text.
#[derive(Debug, Clone, Copy, PartialEq, Eq, Structural)]
pub struct ParseEtherError;

impl core::str::FromStr for Ether {
    type Err = ParseEtherError;

    fn from_str(s: &str) -> Result<Ether, ParseEtherError> {
        match Ether::from_eth_str(s) {
            Some(e) => Ok(e),
            None => Err(ParseEtherError),
        }
    }
}

impl From<u8> for Ether {
    fn from(p: u8) -> (r: Ether) {
        Ether(p as u128)
    }
}

impl vstd::std_specs::convert::FromSpecImpl<u8> for Ether {
    open spec fn obeys_from_spec() -> bool {
        true
    }

    open spec fn from_spec(p: u8) -> Ether {
        Ether(p as u128)
    }
}

impl From<u16> for Ether {
    fn from(p: u16) -> (r: Ether) {
        Ether(p as u128)
    }
}

impl vstd::std_specs::convert::FromSpecImpl<u16> for Ether {
    open spec fn obeys_from_spec() -> bool {
        true
    }

    open spec fn from_spec(p: u16) -> Ether {
        Ether(p as u128)
    }
}

impl From<u32> for Ether {
    fn from(p: u32) -> (r: Ether) {
        Ether(p as u128)
    }
}

impl vstd::std_specs::convert::FromSpecImpl<u32> for Ether {
    open spec fn obeys_from_spec() -> bool {
        true
    }

    open spec fn from_spec(p: u32) -> Ether {
        Ether(p as u128)
    }
}

impl From<u64> for Ether {
    fn from(p: u64) -> (r: Ether) {
        Ether(p as u128)
    }
}

impl vstd::std_specs::convert::FromSpecImpl<u64> for Ether {
    open spec fn obeys_from_spec() -> bool {
        true
    }

    open spec fn from_spec(p: u64) -> Ether {
        Ether(p as u128)
    }
}

impl From<u128> for Ether {
    fn from(p: u128) -> (r: Ether) {
        Ether(p)
    }
}

impl vstd::std_specs::convert::FromSpecImpl<u128> for Ether {
    open spec fn obeys_from_spec() -> bool {
        true
    }

    open spec fn from_spec(p: u128) -> Ether {
        Ether(p)
    }
}

/// An amount of an ERC-20 token, in the token's smallest unit.
#[derive(Debug, Clone, Copy, PartialEq, Eq, PartialOrd, Ord, Hash, Structural)]
pub struct Erc20Quantity(pub u128);

/// A quantity of a specific ERC-20 token: the token contract address
/// together with the amount.
#[derive(Debug, Clone, PartialEq, Eq, Hash)]
pub struct Erc20 {
    /// The token contract, as a 20 byte address.
    pub token_contract: Vec<u8>,
    /// The amount, in the token's smallest unit.
    pub quantity: Erc20Quantity,
}

impl Erc20 {
    /// Builds a token quantity from its contract address and amount.
    pub fn new(token_contract: Vec<u8>, quantity: Erc20Quantity) -> (r: Erc20)
        ensures
            r == (Erc20 { token_contract, quantity }),
    {
        Erc20 { token_contract, quantity }
    }
}

/// One asset quantity of any supported kind.
#[derive(Debug, Clone, PartialEq, Eq, Hash)]
pub enum AssetKind {
    Bitcoin(Bitcoin),
    Ether(Ether),
    Erc20(Erc20),
}

/// What it means for two asset quantities to agree: same kind, same amount,
/// and for tokens the same contract address.
pub open spec fn spec_asset_eq(a: AssetKind, b: AssetKind) -> bool {
    match (a, b) {
        (AssetKind::Bitcoin(x), AssetKind::Bitcoin(y)) => x == y,
        (AssetKind::Ether(x), AssetKind::Ether(y)) => x == y,
        (AssetKind::Erc20(x), AssetKind::Erc20(y)) => x.token_contract@ == y.token_contract@
            && x.quantity == y.quantity,
        _ => false,
    }
}

/// Returns whether two asset quantities are the same kind and amount.
pub fn asset_kind_eq(a: &AssetKind, b: &AssetKind) -> (r: bool)
    ensures
        r == spec_asset_eq(*a, *b),
{
    match (a, b) {
        (AssetKind::Bitcoin(x), AssetKind::Bitcoin(y)) => x.0 == y.0,
        (AssetKind::Ether(x), AssetKind::Ether(y)) => x.wei() == y.wei(),
        (AssetKind::Erc20(x), AssetKind::Erc20(y)) => {
            crate::bytes::bytes_eq(&x.token_contract, &y.token_contract) && x.quantity.0
                == y.quantity.0
        },
        _ => false,
    }
}

/// The capability every asset quantity offers: conversion into the closed
/// `AssetKind` union used for runtime dispatch.
pub trait Asset: Sized {
    /// The `AssetKind` value this quantity stands for.
    spec fn spec_kind(self) -> AssetKind;

    /// Wraps the quantity into the `AssetKind` union.
    fn into_kind(self) -> (k: AssetKind)
        ensures
            k == self.spec_kind(),
    ;
}

impl Asset for Bitcoin {
    open spec fn spec_kind(self) -> AssetKind {
        AssetKind::Bitcoin(self)
    }

    fn into_kind(self) -> (k: AssetKind) {
        AssetKind::Bitcoin(self)
    }
}

impl Asset for Ether {
    open spec fn spec_kind(self) -> AssetKind {
        AssetKind::Ether(self)
    }

    fn into_kind(self) -> (k: AssetKind) {
        AssetKind::Ether(self)
    }
}

impl Asset for Erc20 {
    open spec fn spec_kind(self) -> AssetKind {
        AssetKind::Erc20(self)
    }

    fn into_kind(self) -> (k: AssetKind) {
        AssetKind::Erc20(self)
    }
}

impl From<Bitcoin> for AssetKind {
    fn from(amount: Bitcoin) -> (r: AssetKind) {
        AssetKind::Bitcoin(amount)
    }
}

impl vstd::std_specs::convert::FromSpecImpl<Bitcoin> for AssetKind {
    open spec fn obeys_from_spec() -> bool {
        true
    }

    open spec fn from_spec(amount: Bitcoin) -> AssetKind {
        AssetKind::Bitcoin(amount)
    }
}

impl From<Ether> for AssetKind {
    fn from(quantity: Ether) -> (r: AssetKind) {
        AssetKind::Ether(quantity)
    }
}

impl vstd::std_specs::convert::FromSpecImpl<Ether> for AssetKind {
    open spec fn obeys_from_spec() -> bool {
        true
    }

    open spec fn from_spec(quantity: Ether) -> AssetKind {
        AssetKind::Ether(quantity)
    }
}

impl From<Erc20> for AssetKind {
    fn from(quantity: Erc20) -> (r: AssetKind) {
        AssetKind::Erc20(quantity)
    }
}

impl vstd::std_specs::convert::FromSpecImpl<Erc20> for AssetKind {
    open spec fn obeys_from_spec() -> bool {
        true
    }

    open spec fn from_spec(quantity: Erc20) -> AssetKind {
        AssetKind::Erc20(quantity)
    }
}

} // verus!
