use vstd::prelude::*;

verus! {

/// Whether an owned string holds exactly the characters of a literal.
pub(crate) fn text_is(s: &String, lit: &str) -> (r: bool)
    ensures
        r == (s@ == lit@),
{
    let t: String = lit.to_owned();
    s.eq(&t)
}

} // verus!
