//! The text form in which a waiting duration is stored: whole seconds,
//! as decimal text.
//!
//! The serialization layer around the library wraps a borrowed value in
//! `Ser` to give it this custom form; the rendering itself is the decimal
//! text of the second count.

use crate::text::spec_dec;
use vstd::prelude::*;

verus! {

/// A wrapper around a borrowed value, so the serialization layer can give
/// the inner type a custom form.
#[derive(Debug)]
pub struct Ser<'a, T>(pub &'a T);

impl<'a, T> Ser<'a, T> {
    /// Returns a new `Ser` wrapper.
    pub fn new(value: &'a T) -> (r: Ser<'a, T>)
        ensures
            r.0 == value,
    {
        Ser(value)
    }
}

/// Renders a duration of whole seconds as decimal text: the form in which
/// a wrapped duration is written out.
pub fn duration_secs_text(secs: u64) -> (r: String)
    ensures
        r@ == spec_dec(secs as nat),
{
    crate::text::u64_to_dec(secs)
}

} // verus!
