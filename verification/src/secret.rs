//! Connection secrets: the one-time credential that the IDE server asks of
//! whoever connects to a workspace.

use rand::Rng;
use vstd::prelude::*;

verus! {

/// The number of characters in a connection secret.
pub const SECRET_LENGTH: usize = 32;

/// `rand::rngs::ThreadRng`, the thread-local random number generator;
/// nothing in it is read.
#[verifier::external_type_specification]
#[verifier::external_body]
pub struct ExThreadRng(rand::rngs::ThreadRng);

/// `rand::thread_rng` hands out the generator of the calling thread.
/// Nothing is claimed of it. It gives up the process if the operating
/// system cannot seed it.
pub assume_specification[ rand::thread_rng ]() -> (rng: rand::rngs::ThreadRng)
;

/// Whether `b` is an ASCII letter or digit.
pub open spec fn is_alphanumeric_byte(b: u8) -> bool {
    ||| 0x30 <= b <= 0x39
    ||| 0x41 <= b <= 0x5A
    ||| 0x61 <= b <= 0x7A
}

/// Whether `c` is one of the 62 characters `A-Z`, `a-z`, `0-9`.
pub open spec fn is_alphanumeric(c: char) -> bool {
    ||| '0' <= c <= '9'
    ||| 'A' <= c <= 'Z'
    ||| 'a' <= c <= 'z'
}

/// Whether `s` has the shape of a connection secret: `SECRET_LENGTH`
/// characters, each of them alphanumeric.
pub open spec fn is_connection_secret(s: Seq<char>) -> bool {
    &&& s.len() == SECRET_LENGTH
    &&& forall|i: int| 0 <= i < s.len() ==> is_alphanumeric(#[trigger] s[i])
}

/// Draws one sample of `rand::distributions::Alphanumeric` with
/// `Rng::sample`. Which byte comes back is left open; it is always an ASCII
/// letter or digit.
#[verifier::external_body]
fn sample_alphanumeric(rng: &mut rand::rngs::ThreadRng) -> (b: u8)
    ensures
        is_alphanumeric_byte(b),
{
    rng.sample(rand::distributions::Alphanumeric)
}

/// The text that `samples` spell: one character for each sample, the one
/// with the sample's value as its code point, in the order of the samples.
pub open spec fn spelled(samples: Seq<u8>) -> Seq<char> {
    Seq::new(samples.len(), |i: int| samples[i] as char)
}

/// Whether `samples` are the draws for one secret: `SECRET_LENGTH` of them,
/// each an ASCII letter or digit.
pub open spec fn are_secret_samples(samples: Seq<u8>) -> bool {
    &&& samples.len() == SECRET_LENGTH
    &&& forall|i: int| 0 <= i < samples.len() ==> is_alphanumeric_byte(#[trigger] samples[i])
}

/// Each character of what is spelled is decided by the sample at its
/// position, and by no other.
pub proof fn lemma_spelled_by_position(samples: Seq<u8>, i: int)
    requires
        0 <= i < samples.len(),
    ensures
        spelled(samples).len() == samples.len(),
        spelled(samples)[i] == samples[i] as char,
        forall|other: Seq<u8>|
            other.len() == samples.len() && other[i] == samples[i] ==> #[trigger] spelled(
                other,
            )[i] == spelled(samples)[i],
{
}

/// The draws for one secret spell a text with the shape of a secret.
pub proof fn lemma_samples_spell_secret(samples: Seq<u8>)
    requires
        are_secret_samples(samples),
    ensures
        is_connection_secret(spelled(samples)),
{
    assert forall|i: int| 0 <= i < spelled(samples).len() implies is_alphanumeric(
        #[trigger] spelled(samples)[i],
    ) by {
        assert(is_alphanumeric_byte(samples[i]));
    }
}

/// Two runs of draws spell texts that differ wherever the draws differ: no
/// two samples share a character. So different draws never give the same
/// secret.
pub proof fn lemma_distinct_samples_spell_distinct_secrets(first: Seq<u8>, second: Seq<u8>)
    requires
        first.len() == second.len(),
    ensures
        forall|i: int|
            0 <= i < first.len() && first[i] != second[i] ==> #[trigger] spelled(first)[i]
                != spelled(second)[i],
        first != second ==> spelled(first) != spelled(second),
{
    assert forall|i: int| 0 <= i < first.len() && first[i] != second[i] implies #[trigger] spelled(
        first,
    )[i] != spelled(second)[i] by {
        assert((first[i] as char) as u32 == first[i] as u32);
        assert((second[i] as char) as u32 == second[i] as u32);
    }
    if first != second {
        if spelled(first) == spelled(second) {
            assert forall|i: int| 0 <= i < first.len() implies first[i] == second[i] by {
                assert(spelled(first)[i] == spelled(second)[i]);
            }
            assert(first =~= second);
        }
    }
}

/// Spells `samples` as text.
pub fn secret_from_samples(samples: &Vec<u8>) -> (secret: String)
    ensures
        secret@ == spelled(samples@),
{
    let n: usize = samples.len();
    let mut secret = String::new();
    let mut i: usize = 0;
    while i < n
        invariant
            n == samples.len(),
            i <= n,
            secret@ == spelled(samples@.take(i as int)),
        decreases n - i,
    {
        secret.push(samples[i] as char);
        assert(spelled(samples@.take(i + 1)) =~= spelled(samples@.take(i as int)).push(
            samples@[i as int] as char,
        ));
        i = i + 1;
    }
    assert(samples@.take(n as int) == samples@);
    secret
}

/// Draws the samples for one secret from the generator of the calling
/// thread. Which samples come back is left open.
pub fn draw_secret_samples() -> (samples: Vec<u8>)
    ensures
        are_secret_samples(samples@),
{
    let mut rng = rand::thread_rng();
    let mut samples: Vec<u8> = Vec::new();
    let mut i: usize = 0;
    while i < SECRET_LENGTH
        invariant
            i <= SECRET_LENGTH,
            samples@.len() == i,
            forall|k: int| 0 <= k < samples@.len() ==> is_alphanumeric_byte(#[trigger] samples@[k]),
        decreases SECRET_LENGTH - i,
    {
        let b: u8 = sample_alphanumeric(&mut rng);
        samples.push(b);
        i = i + 1;
    }
    samples
}

/// Generates a fresh connection secret: it draws anew on every call, keeps
/// nothing, and returns what the draws spell.
pub fn generate_secret_token() -> (secret: String)
    ensures
        is_connection_secret(secret@),
{
    let samples = draw_secret_samples();
    proof {
        lemma_samples_spell_secret(samples@);
    }
    secret_from_samples(&samples)
}

/// Tells whether `s` has the shape of a connection secret.
pub fn check_connection_secret(s: &str) -> (ok: bool)
    ensures
        ok == is_connection_secret(s@),
{
    let chars = crate::text::chars_of(s);
    if chars.len() != SECRET_LENGTH {
        return false;
    }
    let mut i: usize = 0;
    while i < SECRET_LENGTH
        invariant
            chars@ == s@,
            chars.len() == SECRET_LENGTH,
            i <= SECRET_LENGTH,
            forall|k: int| 0 <= k < i ==> is_alphanumeric(#[trigger] s@[k]),
        decreases SECRET_LENGTH - i,
    {
        let c: char = chars[i];
        if !(('0' <= c && c <= '9') || ('A' <= c && c <= 'Z') || ('a' <= c && c <= 'z')) {
            return false;
        }
        i = i + 1;
    }
    true
}

} // verus!
