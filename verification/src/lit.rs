//! Literals of annotations. A rename annotation gives the new name of a field
//! as a string literal; this is where it is read.
use crate::syntax::{text_of, Lit};
use vstd::prelude::*;

verus! {

/// The value of the literal, if it is a string.
pub fn lit_to_string(lit: &Lit) -> (r: Option<String>)
    ensures
        text_of(r) == lit.text(),
{
    match lit {
        Lit::Str(s) => Some(s.clone()),
        Lit::Other => None,
    }
}

} // verus!
