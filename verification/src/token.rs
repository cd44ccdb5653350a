//! Share tokens: eight characters drawn uniformly from `[0-9a-z]` by a
//! generator of the `rand` crate seeded from the operating system.

use vstd::prelude::*;
use rand::rngs::StdRng;
use crate::error::AppError;
use crate::text::owned;

verus! {

/// Declares `rand::rngs::StdRng` to Verus as an opaque type; nothing inside
/// a value of it is seen.
#[verifier::external_type_specification]
#[verifier::external_body]
pub struct ExStdRng(rand::rngs::StdRng);

/// Calls `SeedableRng::from_rng` for `StdRng` with `rand::rngs::OsRng`,
/// which seeds a generator from the operating system's random source
/// (through `try_fill_bytes`) and reports a failure of that source as an
/// error instead of panicking. Nothing is stated of the generator.
#[verifier::external_body]
fn seeded_rng() -> Option<StdRng> {
    <StdRng as rand::SeedableRng>::from_rng(rand::rngs::OsRng).ok()
}

/// Calls `Rng::gen_range` on `0..bound`, which returns a number at least 0
/// and below `bound`, uniformly. It panics only on an empty range, which
/// `requires` rules out; `StdRng` itself cannot fail. Which number comes
/// back depends on the generator's state.
#[verifier::external_body]
fn gen_index(rng: &mut StdRng, bound: usize) -> (i: usize)
    requires
        bound > 0,
    ensures
        i < bound,
{
    rand::Rng::gen_range(rng, 0..bound)
}

/// Number of characters in a share token.
pub const TOKEN_LEN: usize = 8;

/// Number of distinct characters a token position can hold.
pub const TOKEN_ALPHABET_SIZE: usize = 36;

/// The token character for index `idx`: `0`..`9` for the first ten, then
/// `a`..`z`.
pub open spec fn token_char_of(idx: nat) -> char {
    if idx < 10 {
        (idx + 48) as char
    } else {
        (idx - 10 + 97) as char
    }
}

/// A character that may appear in a share token.
pub open spec fn is_token_char(c: char) -> bool {
    ('0' <= c && c <= '9') || ('a' <= c && c <= 'z')
}

/// A well-formed share token.
pub open spec fn is_token(t: Seq<char>) -> bool {
    &&& t.len() == TOKEN_LEN
    &&& forall|i: int| 0 <= i < t.len() ==> is_token_char(#[trigger] t[i])
}

/// The token spelled by a sequence of alphabet indices.
pub open spec fn token_of_indices(indices: Seq<usize>) -> Seq<char> {
    indices.map_values(|i: usize| token_char_of(i as nat))
}

/// The error when the operating system's random source fails.
pub fn random_source_failed() -> (e: AppError)
    ensures
        e matches AppError::Internal(m) && m@ == "random source unavailable"@,
{
    AppError::Internal(owned("random source unavailable"))
}

/// The token character for alphabet index `idx`.
pub fn token_char(idx: usize) -> (c: char)
    requires
        idx < TOKEN_ALPHABET_SIZE,
    ensures
        c == token_char_of(idx as nat),
{
    if idx < 10 {
        ((idx as u8) + 48u8) as char
    } else {
        ((idx - 10) as u8 + 97u8) as char
    }
}

/// The token spelled by `indices`, one character per index.
pub fn token_from_indices(indices: &[usize]) -> (out: String)
    requires
        forall|i: int| 0 <= i < indices@.len() ==> indices@[i] < TOKEN_ALPHABET_SIZE,
    ensures
        out@ == token_of_indices(indices@),
{
    let mut out = String::new();
    let n = indices.len();
    for k in 0..n
        invariant
            n == indices@.len(),
            forall|i: int| 0 <= i < indices@.len() ==> indices@[i] < TOKEN_ALPHABET_SIZE,
            out@ == token_of_indices(indices@.take(k as int)),
    {
        let c = token_char(indices[k]);
        out.push(c);
        assert(indices@.take(k + 1) == indices@.take(k as int).push(indices@[k as int]));
        assert(token_of_indices(indices@.take(k + 1)) =~= token_of_indices(
            indices@.take(k as int),
        ).push(c));
    }
    assert(indices@.take(n as int) == indices@);
    out
}

/// Law: the alphabet index picks each token character exactly once: every
/// index below 36 gives a token character, distinct indices give distinct
/// characters, and every token character is given by some index.
pub proof fn lemma_token_alphabet_bijective()
    ensures
        forall|i: nat| i < 36 ==> is_token_char(#[trigger] token_char_of(i)),
        forall|i: nat, j: nat|
            i < 36 && j < 36 && #[trigger] token_char_of(i) == #[trigger] token_char_of(j) ==> i
                == j,
        forall|c: char| is_token_char(c) ==> exists|i: nat| i < 36 && #[trigger] token_char_of(i) == c,
{
    assert forall|i: nat, j: nat|
        i < 36 && j < 36 && #[trigger] token_char_of(i) == #[trigger] token_char_of(j) implies i
        == j by {
        assert(token_char_of(i) as int == if i < 10 { i + 48 as int } else { i - 10 + 97 });
        assert(token_char_of(j) as int == if j < 10 { j + 48 as int } else { j - 10 + 97 });
    }
    assert forall|c: char| is_token_char(c) implies exists|i: nat| i < 36 && #[trigger] token_char_of(
        i,
    ) == c by {
        let i: nat = if c <= '9' { (c as int - 48) as nat } else { (c as int - 97 + 10) as nat };
        assert(token_char_of(i) as int == c as int);
    }
}

/// A fresh random share token: eight alphabet indices drawn uniformly by a
/// generator seeded from the operating system, spelled out. Fails with an
/// internal error only when the operating system's random source fails.
pub fn generate_token() -> (out: Result<String, AppError>)
    ensures
        match out {
            Ok(t) => is_token(t@),
            Err(e) => e matches AppError::Internal(m) && m@ == "random source unavailable"@,
        },
{
    let mut rng = match seeded_rng() {
        Some(r) => r,
        None => {
            return Err(random_source_failed());
        },
    };
    let mut indices: Vec<usize> = Vec::new();
    for _k in 0..TOKEN_LEN
        invariant
            indices@.len() == _k,
            forall|i: int| 0 <= i < indices@.len() ==> indices@[i] < TOKEN_ALPHABET_SIZE,
    {
        let idx = gen_index(&mut rng, TOKEN_ALPHABET_SIZE);
        indices.push(idx);
    }
    let out = token_from_indices(indices.as_slice());
    proof {
        lemma_token_alphabet_bijective();
        assert forall|i: int| 0 <= i < out@.len() implies is_token_char(#[trigger] out@[i]) by {
            assert(out@[i] == token_char_of(indices@[i] as nat));
        }
    }
    Ok(out)
}

} // verus!
