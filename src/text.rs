//! UTF-16 text as the windowing system hands it out.
use vstd::prelude::*;

verus! {

/// What `String::from_utf16_lossy` makes of a sequence of UTF-16 code
/// units: each unpaired surrogate becomes U+FFFD.
pub uninterp spec fn lossy_utf16_of(units: Seq<u16>) -> Seq<char>;

/// Relies on `String::from_utf16_lossy`: the result depends on the code
/// units alone, and no units give the empty string.
#[verifier::external_body]
fn from_utf16_lossy(units: &Vec<u16>) -> (r: String)
    ensures
        r@ == lossy_utf16_of(units@),
        units@.len() == 0 ==> r@.len() == 0,
{
    String::from_utf16_lossy(units)
}

/// The text of the first `len` code units of `buffer`.
pub fn text_of_prefix(buffer: &Vec<u16>, len: usize) -> (r: String)
    requires
        len <= buffer@.len(),
    ensures
        r@ == lossy_utf16_of(buffer@.take(len as int)),
{
    let mut prefix: Vec<u16> = Vec::new();
    let mut i: usize = 0;
    while i < len
        invariant
            0 <= i <= len <= buffer@.len(),
            prefix@ == buffer@.take(i as int),
        decreases len - i,
    {
        prefix.push(buffer[i]);
        proof {
            assert(buffer@.take(i + 1) == buffer@.take(i as int).push(buffer@[i as int]));
        }
        i = i + 1;
    }
    from_utf16_lossy(&prefix)
}

/// The text of all of `units`.
pub fn text_of(units: &Vec<u16>) -> (r: String)
    ensures
        r@ == lossy_utf16_of(units@),
        units@.len() == 0 ==> r@.len() == 0,
{
    from_utf16_lossy(units)
}

} // verus!
