//! Random codes.

use rand::distr::Alphanumeric;
use rand::Rng;
use vstd::prelude::*;

verus! {

/// An ASCII letter or digit.
pub open spec fn is_alphanumeric(c: char) -> bool {
    ||| '0' <= c <= '9'
    ||| 'A' <= c <= 'Z'
    ||| 'a' <= c <= 'z'
}

/// A text of the given length made of ASCII letters and digits only.
pub open spec fn is_code(text: Seq<char>, len: nat) -> bool {
    &&& text.len() == len
    &&& forall|i: int| 0 <= i < text.len() ==> is_alphanumeric(#[trigger] text[i])
}

/// `rand`'s `Alphanumeric` distribution, sampled `len` times from the
/// thread's generator (`rand::rng`). Which characters come out is chance;
/// every one of them is among `A`-`Z`, `a`-`z` and `0`-`9`, and there are
/// `len` of them. Collecting reserves `len` bytes at once, which panics
/// beyond `isize::MAX`.
#[verifier::external_body]
fn sample_alphanumeric(len: usize) -> (code: String)
    requires
        len <= isize::MAX,
    ensures
        is_code(code@, len as nat),
{
    rand::rng().sample_iter(&Alphanumeric).take(len).map(char::from).collect()
}

/// A fresh random code of `len` letters and digits.
pub fn generate_code(len: usize) -> (code: String)
    requires
        len <= isize::MAX,
    ensures
        is_code(code@, len as nat),
{
    sample_alphanumeric(len)
}

} // verus!
