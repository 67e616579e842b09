//! Record identifiers as some provider responses carry them: either a
//! number or text.  Rendering one always yields text, numbers in decimal.

use vstd::prelude::*;

use crate::text::dec_digits_of;
use crate::text::u64_to_dec;

verus! {

/// A record identifier: providers report either text or a number.
#[derive(Debug, PartialEq, Eq)]
pub enum Id {
    Text(String),
    Number(u64),
}

impl Clone for Id {
    fn clone(&self) -> (r: Self)
        ensures
            r == *self,
    {
        match self {
            Id::Text(s) => Id::Text(s.clone()),
            Id::Number(n) => Id::Number(*n),
        }
    }
}

/// The text an identifier renders to: text as it is, numbers in decimal.
pub open spec fn spec_id_text(id: Id) -> Seq<char> {
    match id {
        Id::Text(s) => s@,
        Id::Number(n) => dec_digits_of(n as int),
    }
}

impl Id {
    /// Renders the identifier as text.
    pub fn to_text(&self) -> (r: String)
        ensures
            r@ == spec_id_text(*self),
    {
        match self {
            Id::Text(s) => s.clone(),
            Id::Number(n) => u64_to_dec(*n),
        }
    }
}

} // verus!
