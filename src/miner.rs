//! The proof-of-work predicate and the brute-force search that satisfies it.
use sha2::Digest;
use vstd::prelude::*;

verus! {

/// The SHA-256 digest of a byte sequence.
pub uninterp spec fn sha256_of(data: Seq<u8>) -> Seq<u8>;

/// Relies on `sha2::Sha256::digest`: the SHA-256 digest of `data`, 32 bytes long.
#[verifier::external_body]
fn sha256(data: &[u8]) -> (r: Vec<u8>)
    ensures
        r@ == sha256_of(data@),
        r@.len() == 32,
{
    sha2::Sha256::digest(data).to_vec()
}

/// The eight bytes of `x`, most significant first.
pub open spec fn be_bytes(x: u64) -> Seq<u8> {
    seq![
        (x >> 56u64) as u8,
        (x >> 48u64) as u8,
        (x >> 40u64) as u8,
        (x >> 32u64) as u8,
        (x >> 24u64) as u8,
        (x >> 16u64) as u8,
        (x >> 8u64) as u8,
        x as u8,
    ]
}

/// The unsigned integer whose big-endian encoding is the first eight bytes of `b`.
pub open spec fn be_u64(b: Seq<u8>) -> u64
    recommends
        b.len() >= 8,
{
    (b[0] as u64) << 56u64 | (b[1] as u64) << 48u64 | (b[2] as u64) << 40u64 | (b[3] as u64)
        << 32u64 | (b[4] as u64) << 24u64 | (b[5] as u64) << 16u64 | (b[6] as u64) << 8u64
        | (b[7] as u64)
}

/// What is hashed for a candidate: the solution, then the challenge, each big-endian.
pub open spec fn hash_input(solution: u64, challenge: u64) -> Seq<u8> {
    be_bytes(solution) + be_bytes(challenge)
}

/// The first eight bytes of the digest of the hash input, read big-endian.
pub open spec fn pow_hash(solution: u64, challenge: u64) -> u64 {
    be_u64(sha256_of(hash_input(solution, challenge)))
}

/// `solution` answers `challenge` at `difficulty`.
pub open spec fn is_solution(solution: u64, challenge: u64, difficulty: u64) -> bool {
    pow_hash(solution, challenge) < difficulty
}

fn hash_input_bytes(solution: u64, challenge: u64) -> (r: Vec<u8>)
    ensures
        r@ == hash_input(solution, challenge),
{
    let r = vec![
        (solution >> 56u64) as u8,
        (solution >> 48u64) as u8,
        (solution >> 40u64) as u8,
        (solution >> 32u64) as u8,
        (solution >> 24u64) as u8,
        (solution >> 16u64) as u8,
        (solution >> 8u64) as u8,
        solution as u8,
        (challenge >> 56u64) as u8,
        (challenge >> 48u64) as u8,
        (challenge >> 40u64) as u8,
        (challenge >> 32u64) as u8,
        (challenge >> 24u64) as u8,
        (challenge >> 16u64) as u8,
        (challenge >> 8u64) as u8,
        challenge as u8,
    ];
    assert(r@ =~= hash_input(solution, challenge));
    r
}

fn read_be_u64(b: &[u8]) -> (r: u64)
    requires
        b@.len() >= 8,
    ensures
        r == be_u64(b@),
{
    (b[0] as u64) << 56u64 | (b[1] as u64) << 48u64 | (b[2] as u64) << 40u64 | (b[3] as u64)
        << 32u64 | (b[4] as u64) << 24u64 | (b[5] as u64) << 16u64 | (b[6] as u64) << 8u64
        | (b[7] as u64)
}

fn hash(solution: u64, challenge: u64) -> (r: u64)
    ensures
        r == pow_hash(solution, challenge),
{
    let input = hash_input_bytes(solution, challenge);
    let digest = sha256(input.as_slice());
    read_be_u64(digest.as_slice())
}

/// Whether `solution` answers `challenge`: the hash of the pair lies strictly
/// below `difficulty`.
pub fn check_solution(solution: u64, difficulty: u64, challenge: u64) -> (r: bool)
    ensures
        r == is_solution(solution, challenge, difficulty),
{
    let h = hash(solution, challenge);
    h < difficulty
}

/// The smallest solution of `challenge` at `difficulty`, searching upward from 0,
/// or `None` when no 64-bit value answers it.
pub fn find_solution(challenge: u64, difficulty: u64) -> (r: Option<u64>)
    ensures
        match r {
            Some(s) => is_solution(s, challenge, difficulty) && forall|t: u64|
                t < s ==> !is_solution(t, challenge, difficulty),
            None => forall|t: u64| !is_solution(t, challenge, difficulty),
        },
{
    if difficulty == 0 {
        return None;
    }
    let mut i: u64 = 0;
    loop
        invariant
            forall|t: u64| t < i ==> !is_solution(t, challenge, difficulty),
        decreases u64::MAX - i,
    {
        if check_solution(i, difficulty, challenge) {
            return Some(i);
        }
        if i == u64::MAX {
            return None;
        }
        i = i + 1;
    }
}

/// A verdict on a solution is a function of the solution, the challenge and the
/// difficulty alone: two checks of the same triple agree.
pub proof fn lemma_check_deterministic(
    solution: u64,
    challenge: u64,
    difficulty: u64,
    first: bool,
    second: bool,
)
    requires
        first == is_solution(solution, challenge, difficulty),
        second == is_solution(solution, challenge, difficulty),
    ensures
        first == second,
{
}

} // verus!
