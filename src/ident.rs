use vstd::prelude::*;

verus! {

/// A character of the identifier alphabet: `A-Z`, `a-z` or `0-9`.
pub open spec fn is_alphanumeric(c: char) -> bool {
    ('A' <= c && c <= 'Z') || ('a' <= c && c <= 'z') || ('0' <= c && c <= '9')
}

/// Every character of `s` is alphanumeric.
pub open spec fn all_alphanumeric(s: Seq<char>) -> bool {
    forall|i: int| 0 <= i < s.len() ==> is_alphanumeric(#[trigger] s[i])
}

/// Relies on `String::push`: the character is appended at the end.
pub assume_specification[ String::push ](s: &mut String, ch: char)
    ensures
        final(s)@ == old(s)@.push(ch),
;

/// Relies on rand's `Alphanumeric` distribution drawn from `thread_rng`: every
/// draw is one of `A-Z`, `a-z`, `0-9`.
#[verifier::external_body]
fn draw_alphanumeric() -> (c: char)
    ensures
        is_alphanumeric(c),
{
    rand::Rng::sample(&mut rand::thread_rng(), rand::distributions::Alphanumeric)
}

/// A fresh random identifier of `len` alphanumeric characters.
pub fn gen_rand_id(len: usize) -> (id: String)
    ensures
        id@.len() == len,
        all_alphanumeric(id@),
{
    let mut id = String::new();
    let mut n: usize = 0;
    while n < len
        invariant
            n <= len,
            id@.len() == n,
            all_alphanumeric(id@),
        decreases len - n,
    {
        let c = draw_alphanumeric();
        id.push(c);
        n = n + 1;
    }
    id
}

} // verus!
