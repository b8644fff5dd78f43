//! Random strings drawn from chosen character classes.
use vstd::prelude::*;
use vstd::string::{StrSliceExecFns, StringExecFns};
use rand::Rng;
use crate::utils::push_char;

verus! {

#[verifier::external_type_specification]
#[verifier::external_body]
pub struct ExThreadRng(rand::rngs::ThreadRng);

/// Relies on `rand::thread_rng`: a handle on the thread's random generator.
#[verifier::external_body]
fn thread_rng() -> rand::rngs::ThreadRng {
    rand::thread_rng()
}

/// Relies on `rand::Rng::gen_range` on `0..bound`, which is not empty: a
/// value below `bound`.
#[verifier::external_body]
fn gen_index(rng: &mut rand::rngs::ThreadRng, bound: usize) -> (r: usize)
    requires
        bound > 0,
    ensures
        r < bound,
{
    rng.gen_range(0..bound)
}

/// The characters that a random string may draw from, class by class in the
/// order digits, lower case letters, upper case letters, symbols.
pub open spec fn char_pool(has_number: bool, has_letter: bool, has_uppercase: bool, has_symbol: bool) -> Seq<char> {
    (if has_number { "0123456789"@ } else { Seq::empty() })
        + (if has_letter { "abcdefghijklmnopqrstuvwxyz"@ } else { Seq::empty() })
        + (if has_uppercase { "ABCDEFGHIJKLMNOPQRSTUVWXYZ"@ } else { Seq::empty() })
        + (if has_symbol { "~!@#$%^&*()_+=-[]}{;:,<>?/."@ } else { Seq::empty() })
}

/// The characters of the chosen classes.
pub fn pool_string(has_number: bool, has_letter: bool, has_uppercase: bool, has_symbol: bool) -> (r: String)
    ensures
        r@ == char_pool(has_number, has_letter, has_uppercase, has_symbol),
{
    let mut all_chars = String::new();
    if has_number {
        all_chars.append("0123456789");
    }
    if has_letter {
        all_chars.append("abcdefghijklmnopqrstuvwxyz");
    }
    if has_uppercase {
        all_chars.append("ABCDEFGHIJKLMNOPQRSTUVWXYZ");
    }
    if has_symbol {
        all_chars.append("~!@#$%^&*()_+=-[]}{;:,<>?/.");
    }
    assert(all_chars@ =~= char_pool(has_number, has_letter, has_uppercase, has_symbol));
    all_chars
}

/// The characters of `pool` at `indices`, in order.
pub fn pick_chars(pool: &str, indices: &Vec<usize>) -> (r: String)
    requires
        forall|i: int| 0 <= i < indices@.len() ==> indices@[i] < pool@.len(),
    ensures
        r@ == Seq::new(indices@.len(), |i: int| pool@[indices@[i] as int]),
{
    let mut chars = String::new();
    let mut i: usize = 0;
    while i < indices.len()
        invariant
            0 <= i <= indices@.len(),
            forall|j: int| 0 <= j < indices@.len() ==> indices@[j] < pool@.len(),
            chars@ == Seq::new(i as nat, |j: int| pool@[indices@[j] as int]),
        decreases indices@.len() - i,
    {
        let c = pool.get_char(indices[i]);
        push_char(&mut chars, c);
        i = i + 1;
        assert(chars@ =~= Seq::new(i as nat, |j: int| pool@[indices@[j] as int]));
    }
    chars
}

/// A random string of `length` characters drawn from the chosen classes.
/// It is empty when `length` is under 2 or over 256, or no class is chosen.
pub fn random_string(length: u32, has_number: bool, has_letter: bool, has_uppercase: bool, has_symbol: bool) -> (r: String)
    ensures
        ({
            let pool = char_pool(has_number, has_letter, has_uppercase, has_symbol);
            if length < 2 || length > 256 || pool.len() == 0 {
                r@.len() == 0
            } else {
                &&& r@.len() == length
                &&& forall|i: int| 0 <= i < r@.len() ==> pool.contains(#[trigger] r@[i])
            }
        }),
{
    let all_chars = pool_string(has_number, has_letter, has_uppercase, has_symbol);
    let count = all_chars.as_str().unicode_len();
    if length < 2 || length > 256 || count < 1 {
        return String::new();
    }
    let mut rng = thread_rng();
    let mut indices: Vec<usize> = Vec::new();
    let mut n: u32 = 0;
    while n < length
        invariant
            n <= length,
            count == all_chars@.len(),
            count >= 1,
            indices@.len() == n,
            forall|j: int| 0 <= j < indices@.len() ==> indices@[j] < count,
        decreases length - n,
    {
        indices.push(gen_index(&mut rng, count));
        n = n + 1;
    }
    let r = pick_chars(all_chars.as_str(), &indices);
    assert forall|i: int| 0 <= i < r@.len() implies all_chars@.contains(#[trigger] r@[i]) by {
        assert(r@[i] == all_chars@[indices@[i] as int]);
    }
    r
}

} // verus!
