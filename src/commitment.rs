use vstd::prelude::*;
use crate::choice::RPS;

verus! {

/// What SHA-256 yields on a byte string; its algorithm is not restated here.
pub uninterp spec fn sha256_of(data: Seq<u8>) -> Seq<u8>;

/// Relies on solana_program::hash::hash: the SHA-256 digest of `data`, which
/// depends on the bytes alone.
#[verifier::external_body]
fn sha256(data: &[u8]) -> (r: [u8; 32])
    ensures
        r@ == sha256_of(data@),
{
    solana_program::hash::hash(data).to_bytes()
}

/// The byte that stands for a hand in a commitment.
pub open spec fn choice_tag(c: RPS) -> u8 {
    match c {
        RPS::Rock => 0,
        RPS::Paper => 1,
        RPS::Scissors => 2,
    }
}

/// The least significant byte of `x`.
pub open spec fn low_byte(x: u64) -> u8 {
    (x & 0xff) as u8
}

/// The bytes that a commitment hashes: the hand's tag, then the salt in
/// little-endian order.
pub open spec fn commit_preimage(c: RPS, salt: u64) -> Seq<u8> {
    seq![
        choice_tag(c),
        low_byte(salt),
        low_byte(salt >> 8),
        low_byte(salt >> 16),
        low_byte(salt >> 24),
        low_byte(salt >> 32),
        low_byte(salt >> 40),
        low_byte(salt >> 48),
        low_byte(salt >> 56),
    ]
}

/// The commitment that binds a player to hand `c` under `salt`.
pub open spec fn commitment_spec(c: RPS, salt: u64) -> Seq<u8> {
    sha256_of(commit_preimage(c, salt))
}

fn take_low_byte(x: u64) -> (r: u8)
    ensures
        r == low_byte(x),
{
    assert(x & 0xff <= 0xff) by (bit_vector);
    (x & 0xff) as u8
}

/// Encodes `(c, salt)` as the bytes that a commitment hashes.
pub fn encode_preimage(c: RPS, salt: u64) -> (r: Vec<u8>)
    ensures
        r@ == commit_preimage(c, salt),
{
    let tag: u8 = match c {
        RPS::Rock => 0,
        RPS::Paper => 1,
        RPS::Scissors => 2,
    };
    let mut v: Vec<u8> = Vec::new();
    v.push(tag);
    v.push(take_low_byte(salt));
    v.push(take_low_byte(salt >> 8));
    v.push(take_low_byte(salt >> 16));
    v.push(take_low_byte(salt >> 24));
    v.push(take_low_byte(salt >> 32));
    v.push(take_low_byte(salt >> 40));
    v.push(take_low_byte(salt >> 48));
    v.push(take_low_byte(salt >> 56));
    assert(v@ =~= commit_preimage(c, salt));
    v
}

/// The commitment for hand `c` and `salt`: SHA-256 over their encoding.
pub fn commitment_of(c: RPS, salt: u64) -> (r: [u8; 32])
    ensures
        r@ == commitment_spec(c, salt),
{
    let pre = encode_preimage(c, salt);
    sha256(pre.as_slice())
}

/// Whether two 32-byte strings are equal.
pub fn bytes32_equal(a: &[u8; 32], b: &[u8; 32]) -> (r: bool)
    ensures
        r == (a@ == b@),
{
    let mut i: usize = 0;
    while i < 32
        invariant
            0 <= i <= 32,
            a@.len() == 32,
            b@.len() == 32,
            forall|j: int| 0 <= j < i ==> a@[j] == b@[j],
        decreases 32 - i,
    {
        if a[i] != b[i] {
            return false;
        }
        i = i + 1;
    }
    assert(a@ =~= b@);
    true
}

proof fn lemma_low_byte_determines(x: u64, y: u64)
    requires
        low_byte(x) == low_byte(y),
    ensures
        x & 0xff == y & 0xff,
{
    assert(x & 0xff <= 0xff) by (bit_vector);
    assert(y & 0xff <= 0xff) by (bit_vector);
}

/// Distinct hands or salts are encoded as distinct byte strings, so a
/// commitment opened with another hand or salt hashes other bytes.
pub proof fn lemma_preimage_injective(c1: RPS, s1: u64, c2: RPS, s2: u64)
    ensures
        commit_preimage(c1, s1) == commit_preimage(c2, s2) ==> c1 == c2 && s1 == s2,
{
    if commit_preimage(c1, s1) == commit_preimage(c2, s2) {
        let p1 = commit_preimage(c1, s1);
        let p2 = commit_preimage(c2, s2);
        assert(p1[0] == p2[0]);
        assert(p1[1] == p2[1]);
        assert(p1[2] == p2[2]);
        assert(p1[3] == p2[3]);
        assert(p1[4] == p2[4]);
        assert(p1[5] == p2[5]);
        assert(p1[6] == p2[6]);
        assert(p1[7] == p2[7]);
        assert(p1[8] == p2[8]);
        lemma_low_byte_determines(s1, s2);
        lemma_low_byte_determines(s1 >> 8, s2 >> 8);
        lemma_low_byte_determines(s1 >> 16, s2 >> 16);
        lemma_low_byte_determines(s1 >> 24, s2 >> 24);
        lemma_low_byte_determines(s1 >> 32, s2 >> 32);
        lemma_low_byte_determines(s1 >> 40, s2 >> 40);
        lemma_low_byte_determines(s1 >> 48, s2 >> 48);
        lemma_low_byte_determines(s1 >> 56, s2 >> 56);
        assert(s1 == s2) by (bit_vector)
            requires
                (s1 & 0xff) == (s2 & 0xff),
                ((s1 >> 8u64) & 0xff) == ((s2 >> 8u64) & 0xff),
                ((s1 >> 16u64) & 0xff) == ((s2 >> 16u64) & 0xff),
                ((s1 >> 24u64) & 0xff) == ((s2 >> 24u64) & 0xff),
                ((s1 >> 32u64) & 0xff) == ((s2 >> 32u64) & 0xff),
                ((s1 >> 40u64) & 0xff) == ((s2 >> 40u64) & 0xff),
                ((s1 >> 48u64) & 0xff) == ((s2 >> 48u64) & 0xff),
                ((s1 >> 56u64) & 0xff) == ((s2 >> 56u64) & 0xff),
        ;
    }
}

} // verus!
