//! Building the HTTP paths under which swaps and their actions live.

use crate::bytes::{bytes_slice, spec_be_bytes, u128_be_bytes};
use crate::rfc003::messages::SwapId;
use crate::text::{bytes_to_hex, spec_hex};
use vstd::prelude::*;
use vstd::string::*;

verus! {

/// The path segment all swaps live under.
pub const PATH: &'static str = "swaps";

/// The path segment of this protocol.
pub const RFC003: &'static str = "rfc003";

/// The canonical text of a swap identifier: 32 lowercase hex digits in
/// five groups of 8, 4, 4, 4 and 12, joined by hyphens.
pub open spec fn spec_swap_id_text(id: SwapId) -> Seq<char> {
    let b = spec_be_bytes(id.0 as nat, 16);
    spec_hex(b.subrange(0, 4)) + seq!['-'] + spec_hex(b.subrange(4, 6)) + seq!['-'] + spec_hex(
        b.subrange(6, 8),
    ) + seq!['-'] + spec_hex(b.subrange(8, 10)) + seq!['-'] + spec_hex(b.subrange(10, 16))
}

/// Renders a swap identifier in its canonical hyphenated form.
pub fn swap_id_text(id: SwapId) -> (r: String)
    ensures
        r@ == spec_swap_id_text(id),
{
    let bytes = u128_be_bytes(id.0, 16);
    let mut s = bytes_to_hex(&bytes_slice(&bytes, 0, 4));
    proof {
        reveal_strlit("-");
    }
    s.append("-");
    let g2 = bytes_to_hex(&bytes_slice(&bytes, 4, 6));
    s.append(g2.as_str());
    s.append("-");
    let g3 = bytes_to_hex(&bytes_slice(&bytes, 6, 8));
    s.append(g3.as_str());
    s.append("-");
    let g4 = bytes_to_hex(&bytes_slice(&bytes, 8, 10));
    s.append(g4.as_str());
    s.append("-");
    let g5 = bytes_to_hex(&bytes_slice(&bytes, 10, 16));
    s.append(g5.as_str());
    proof {
        assert(("-")@ =~= seq!['-']);
        assert(s@ =~= spec_swap_id_text(id));
    }
    s
}

/// The path of one swap's resource.
pub open spec fn spec_swap_path(id: SwapId) -> Seq<char> {
    "/swaps/rfc003/"@ + spec_swap_id_text(id)
}

/// Returns the path of one swap's resource.
pub fn swap_path(id: SwapId) -> (r: String)
    ensures
        r@ == spec_swap_path(id),
{
    proof {
        reveal_strlit("/");
        reveal_strlit("swaps");
        reveal_strlit("rfc003");
        reveal_strlit("/swaps/rfc003/");
    }
    let mut s = String::from_str("/");
    s.append(PATH);
    s.append("/");
    s.append(RFC003);
    s.append("/");
    let id_text = swap_id_text(id);
    s.append(id_text.as_str());
    proof {
        assert(s@ =~= spec_swap_path(id));
    }
    s
}

/// Returns the link under which one action on one swap is invoked.
pub fn new_action_link(id: &SwapId, action: &str) -> (r: String)
    ensures
        r@ == spec_swap_path(*id) + seq!['/'] + action@,
{
    proof {
        reveal_strlit("/");
    }
    let mut s = swap_path(*id);
    s.append("/");
    s.append(action);
    proof {
        assert(("/")@ =~= seq!['/']);
        assert(s@ =~= spec_swap_path(*id) + seq!['/'] + action@);
    }
    s
}

} // verus!
