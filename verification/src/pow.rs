//! Proof of work in front of the write routes.
//!
//! A challenge is the hex-encoded SHA-256 digest of the server's secret
//! followed by a one-second time bucket. Nothing is stored: a presented
//! challenge is accepted if it is the challenge of the current bucket or of
//! one of the [`POW_EXPIRY_SECS`] buckets before it, and the proof is
//! accepted if the SHA-256 digest of challenge and nonce starts with
//! [`POW_DIFFICULTY`] zero bits.

use vstd::prelude::*;
use crate::digest::{hex_encode, hex_string, sha256, sha256_digest};

verus! {

/// Leading zero bits a proof has to show.
pub const POW_DIFFICULTY: u32 = 12;

/// Seconds for which a challenge stays good after its own bucket.
pub const POW_EXPIRY_SECS: u64 = 30;

/// The request header that carries the challenge back, and the response
/// header that hands a new one out.
pub const CHALLENGE_HEADER: &'static str = "X-POW-Challenge";

/// The request header that carries the nonce.
pub const NONCE_HEADER: &'static str = "X-POW-Nonce";

/// The request header that carries the client's hash.
pub const HASH_HEADER: &'static str = "X-POW-Hash";

/// The response header that names the difficulty.
pub const DIFFICULTY_HEADER: &'static str = "X-POW-Difficulty";

/// The eight bytes of `n`, most significant first.
pub open spec fn be_bytes(n: u64) -> Seq<u8> {
    seq![
        (n / 0x100_0000_0000_0000) as u8,
        (n / 0x1_0000_0000_0000 % 0x100) as u8,
        (n / 0x100_0000_0000 % 0x100) as u8,
        (n / 0x1_0000_0000 % 0x100) as u8,
        (n / 0x100_0000 % 0x100) as u8,
        (n / 0x1_0000 % 0x100) as u8,
        (n / 0x100 % 0x100) as u8,
        (n % 0x100) as u8,
    ]
}

/// The challenge of time bucket `bucket` under `secret`.
pub open spec fn challenge_token(secret: Seq<u8>, bucket: u64) -> Seq<char> {
    hex_string(sha256_digest(secret + be_bytes(bucket)))
}

/// The oldest bucket whose challenge is still accepted at `now`.
pub open spec fn oldest_bucket(now: u64) -> u64 {
    if now >= POW_EXPIRY_SECS {
        (now - POW_EXPIRY_SECS) as u64
    } else {
        0
    }
}

/// `presented` is the challenge of a bucket that is still accepted at `now`.
pub open spec fn challenge_is_current(secret: Seq<u8>, now: u64, presented: Seq<char>) -> bool {
    exists|bucket: u64|
        oldest_bucket(now) <= bucket <= now && #[trigger] challenge_token(secret, bucket)
            == presented
}

/// Leading zero bits of one byte.
pub open spec fn byte_leading_zeros(b: u8) -> nat {
    if b >= 0x80 {
        0
    } else if b >= 0x40 {
        1
    } else if b >= 0x20 {
        2
    } else if b >= 0x10 {
        3
    } else if b >= 0x08 {
        4
    } else if b >= 0x04 {
        5
    } else if b >= 0x02 {
        6
    } else if b >= 0x01 {
        7
    } else {
        8
    }
}

/// Leading zero bits of a hash: eight for every zero byte at its start, and
/// those of the first byte that is not zero. Counting stops there.
pub open spec fn leading_zero_bits(hash: Seq<u8>) -> nat
    decreases hash.len(),
{
    if hash.len() == 0 {
        0
    } else if hash[0] == 0 {
        8 + leading_zero_bits(hash.drop_first())
    } else {
        byte_leading_zeros(hash[0])
    }
}

/// The digest that proves work on `challenge` with `nonce`.
pub open spec fn proof_digest(challenge: Seq<char>, nonce: Seq<char>) -> Seq<u8> {
    sha256_digest(vstd::utf8::encode_utf8(challenge) + vstd::utf8::encode_utf8(nonce))
}

/// The eight bytes of `n`, most significant first.
pub fn to_be_bytes(n: u64) -> (bytes: Vec<u8>)
    ensures
        bytes@ == be_bytes(n),
{
    let mut bytes: Vec<u8> = Vec::new();
    bytes.push((n / 0x100_0000_0000_0000) as u8);
    bytes.push((n / 0x1_0000_0000_0000 % 0x100) as u8);
    bytes.push((n / 0x100_0000_0000 % 0x100) as u8);
    bytes.push((n / 0x1_0000_0000 % 0x100) as u8);
    bytes.push((n / 0x100_0000 % 0x100) as u8);
    bytes.push((n / 0x1_0000 % 0x100) as u8);
    bytes.push((n / 0x100 % 0x100) as u8);
    bytes.push((n % 0x100) as u8);
    assert(bytes@ =~= be_bytes(n));
    bytes
}

/// `first` followed by `second`.
fn concat(first: &[u8], second: &[u8]) -> (joined: Vec<u8>)
    ensures
        joined@ == first@ + second@,
{
    let mut joined: Vec<u8> = Vec::new();
    let mut i: usize = 0;
    while i < first.len()
        invariant
            i <= first@.len(),
            joined@ == first@.take(i as int),
        decreases first@.len() - i,
    {
        joined.push(first[i]);
        assert(first@.take(i + 1) == first@.take(i as int).push(first@[i as int]));
        i += 1;
    }
    assert(first@.take(first@.len() as int) == first@);
    let mut j: usize = 0;
    while j < second.len()
        invariant
            j <= second@.len(),
            joined@ == first@ + second@.take(j as int),
        decreases second@.len() - j,
    {
        joined.push(second[j]);
        assert(second@.take(j + 1) == second@.take(j as int).push(second@[j as int]));
        assert(first@ + second@.take(j + 1) == (first@ + second@.take(j as int)).push(
            second@[j as int],
        ));
        j += 1;
    }
    assert(second@.take(second@.len() as int) == second@);
    joined
}

/// The challenge of time bucket `now` under `secret`.
pub fn make_challenge(secret: &[u8], now: u64) -> (challenge: String)
    ensures
        challenge@ == challenge_token(secret@, now),
        challenge@.len() == 64,
{
    let bucket = to_be_bytes(now);
    let keyed = concat(secret, bucket.as_slice());
    let digest = sha256(keyed.as_slice());
    hex_encode(digest.as_slice())
}

/// Counts the leading zero bits of one byte.
fn leading_zeros(b: u8) -> (bits: u32)
    ensures
        bits == byte_leading_zeros(b),
{
    if b >= 0x80 {
        0
    } else if b >= 0x40 {
        1
    } else if b >= 0x20 {
        2
    } else if b >= 0x10 {
        3
    } else if b >= 0x08 {
        4
    } else if b >= 0x04 {
        5
    } else if b >= 0x02 {
        6
    } else if b >= 0x01 {
        7
    } else {
        8
    }
}

/// A hash that starts with `zeros` zero bytes has eight zero bits for each
/// of them, and then those of what follows.
pub proof fn lemma_leading_zero_bytes(hash: Seq<u8>, zeros: int)
    requires
        0 <= zeros <= hash.len(),
        forall|i: int| 0 <= i < zeros ==> hash[i] == 0,
    ensures
        leading_zero_bits(hash) == 8 * zeros + leading_zero_bits(hash.skip(zeros)),
    decreases zeros,
{
    if zeros == 0 {
        assert(hash.skip(0) == hash);
    } else {
        let rest = hash.drop_first();
        lemma_leading_zero_bytes(rest, zeros - 1);
        assert(rest.skip(zeros - 1) == hash.skip(zeros));
    }
}

/// Tells whether `hash` starts with at least `difficulty` zero bits.
pub fn hash_ok(hash: &[u8], difficulty: u32) -> (ok: bool)
    ensures
        ok == (leading_zero_bits(hash@) >= difficulty),
{
    let mut zero_bits: u64 = 0;
    let mut i: usize = 0;
    while i < hash.len() && zero_bits < difficulty as u64
        invariant
            i <= hash@.len(),
            zero_bits == 8 * i,
            zero_bits < difficulty + 8,
            forall|k: int| 0 <= k < i ==> hash@[k] == 0,
        decreases hash@.len() - i,
    {
        let b: u8 = hash[i];
        if b == 0 {
            zero_bits += 8;
        } else {
            proof {
                lemma_leading_zero_bytes(hash@, i as int);
                assert(hash@.skip(i as int)[0] == b);
            }
            return zero_bits + leading_zeros(b) as u64 >= difficulty as u64;
        }
        i += 1;
    }
    proof {
        lemma_leading_zero_bytes(hash@, i as int);
        if i == hash@.len() {
            assert(hash@.skip(i as int).len() == 0);
        }
    }
    zero_bits >= difficulty as u64
}

/// One of the three proof-of-work request headers, as it arrived.
#[derive(Clone, Debug, PartialEq, Eq)]
pub enum PowHeader {
    /// The request did not carry the header.
    Absent,
    /// The header was there, but its value is not text.
    Unreadable,
    /// The header's value.
    Text(String),
}

impl PowHeader {
    /// The header's text, if it has one.
    pub open spec fn text(self) -> Option<Seq<char>> {
        match self {
            PowHeader::Text(value) => Some(value@),
            _ => None,
        }
    }
}

/// What is done with a request that asks for a guarded route.
#[derive(Clone, Debug, PartialEq, Eq)]
pub enum PowVerdict {
    /// The request brought no proof: answer "precondition required" and hand
    /// out this challenge and difficulty.
    ChallengeIssued { challenge: String, difficulty: u32 },
    /// The request brought a proof that does not hold: answer "forbidden".
    Forbidden,
    /// The proof holds: let the request through.
    Proceed,
}

/// A [`PowVerdict`] as plain values.
pub enum PowOutcome {
    ChallengeIssued { challenge: Seq<char>, difficulty: u32 },
    Forbidden,
    Proceed,
}

impl View for PowVerdict {
    type V = PowOutcome;

    open spec fn view(&self) -> PowOutcome {
        match *self {
            PowVerdict::ChallengeIssued { challenge, difficulty } => PowOutcome::ChallengeIssued {
                challenge: challenge@,
                difficulty,
            },
            PowVerdict::Forbidden => PowOutcome::Forbidden,
            PowVerdict::Proceed => PowOutcome::Proceed,
        }
    }
}

impl PowVerdict {
    /// The HTTP status that answers a request which does not proceed:
    /// "precondition required" with a challenge, "forbidden" without.
    pub open spec fn spec_status(self) -> Option<u16> {
        match self {
            PowVerdict::ChallengeIssued { .. } => Some(428),
            PowVerdict::Forbidden => Some(403),
            PowVerdict::Proceed => None,
        }
    }

    /// The HTTP status that answers the request, unless it proceeds.
    pub fn status(&self) -> (status: Option<u16>)
        ensures
            status == self.spec_status(),
    {
        match self {
            PowVerdict::ChallengeIssued { .. } => Some(428),
            PowVerdict::Forbidden => Some(403),
            PowVerdict::Proceed => None,
        }
    }
}

/// The proof that `challenge` and `nonce` make shows `difficulty` leading
/// zero bits.
pub open spec fn proof_holds(challenge: Seq<char>, nonce: Seq<char>, difficulty: u32) -> bool {
    leading_zero_bits(proof_digest(challenge, nonce)) >= difficulty
}

/// What is decided at `now` for a request with these headers. If one of
/// the three is absent, the challenge of the current bucket is handed out
/// with the difficulty asked for. A challenge or nonce that is not text is
/// refused, and so is a challenge that is not current and a proof that does
/// not hold.
pub open spec fn pow_outcome(
    secret: Seq<u8>,
    now: u64,
    challenge: PowHeader,
    nonce: PowHeader,
    hash: PowHeader,
) -> PowOutcome {
    if challenge is Absent || nonce is Absent || hash is Absent {
        PowOutcome::ChallengeIssued {
            challenge: challenge_token(secret, now),
            difficulty: POW_DIFFICULTY,
        }
    } else if challenge.text() is None || nonce.text() is None {
        PowOutcome::Forbidden
    } else if challenge_is_current(secret, now, challenge.text()->0) && proof_holds(
        challenge.text()->0,
        nonce.text()->0,
        POW_DIFFICULTY,
    ) {
        PowOutcome::Proceed
    } else {
        PowOutcome::Forbidden
    }
}

/// Tells whether `presented` is the challenge of a bucket that is accepted
/// at `now`.
pub fn challenge_current(secret: &[u8], now: u64, presented: &String) -> (current: bool)
    ensures
        current == challenge_is_current(secret@, now, presented@),
{
    let oldest: u64 = if now >= POW_EXPIRY_SECS {
        now - POW_EXPIRY_SECS
    } else {
        0
    };
    let buckets: u64 = now - oldest;
    let mut k: u64 = 0;
    while k <= buckets
        invariant
            oldest == oldest_bucket(now),
            buckets == now - oldest,
            buckets <= POW_EXPIRY_SECS,
            k <= buckets + 1,
            forall|bucket: u64|
                oldest <= bucket < oldest + k ==> #[trigger] challenge_token(secret@, bucket)
                    != presented@,
        decreases buckets + 1 - k,
    {
        let expected = make_challenge(secret, oldest + k);
        if expected == *presented {
            return true;
        }
        k += 1;
    }
    false
}

/// Tells whether the digest of `challenge` and `nonce` shows `difficulty`
/// leading zero bits.
pub fn proof_ok(challenge: &String, nonce: &String, difficulty: u32) -> (ok: bool)
    ensures
        ok == proof_holds(challenge@, nonce@, difficulty),
{
    let proved = concat(challenge.as_str().as_bytes(), nonce.as_str().as_bytes());
    let digest = sha256(proved.as_slice());
    hash_ok(digest.as_slice(), difficulty)
}

/// Decides what to do with a request that reached a guarded route at `now`
/// (seconds since the Unix epoch), given the three proof-of-work headers as
/// they arrived.
pub fn pow_challenge(
    secret: &[u8],
    now: u64,
    challenge: &PowHeader,
    nonce: &PowHeader,
    hash: &PowHeader,
) -> (verdict: PowVerdict)
    ensures
        verdict@ == pow_outcome(secret@, now, *challenge, *nonce, *hash),
{
    let any_absent = match (challenge, nonce, hash) {
        (PowHeader::Absent, _, _) => true,
        (_, PowHeader::Absent, _) => true,
        (_, _, PowHeader::Absent) => true,
        _ => false,
    };
    if any_absent {
        return PowVerdict::ChallengeIssued {
            challenge: make_challenge(secret, now),
            difficulty: POW_DIFFICULTY,
        };
    }
    match (challenge, nonce) {
        (PowHeader::Text(presented), PowHeader::Text(nonce_text)) => {
            if !challenge_current(secret, now, presented) {
                return PowVerdict::Forbidden;
            }
            if !proof_ok(presented, nonce_text, POW_DIFFICULTY) {
                return PowVerdict::Forbidden;
            }
            PowVerdict::Proceed
        },
        _ => PowVerdict::Forbidden,
    }
}

// Laws of the proof of work.

/// A hash whose first byte is zero and whose second byte has its top four
/// bits zero shows twelve leading zero bits or more, and so passes a
/// difficulty of twelve.
pub proof fn lemma_twelve_zero_bits_pass(hash: Seq<u8>)
    requires
        hash.len() >= 2,
        hash[0] == 0,
        hash[1] & 0xf0 == 0,
    ensures
        leading_zero_bits(hash) >= 12,
{
    let second: u8 = hash[1];
    assert(second & 0xf0 == 0 ==> second < 0x10) by (bit_vector);
    let rest = hash.drop_first();
    assert(rest[0] == second);
    if second == 0 {
        assert(leading_zero_bits(rest) >= 8);
    } else {
        assert(leading_zero_bits(rest) == byte_leading_zeros(second));
    }
}

/// A hash whose first byte is zero and whose second byte has its top three
/// bits zero and the fourth set shows exactly eleven leading zero bits, and
/// so fails a difficulty of twelve.
pub proof fn lemma_eleven_zero_bits_fail(hash: Seq<u8>)
    requires
        hash.len() >= 2,
        hash[0] == 0,
        hash[1] & 0xf0 == 0x10,
    ensures
        leading_zero_bits(hash) == 11,
        leading_zero_bits(hash) < POW_DIFFICULTY,
{
    let second: u8 = hash[1];
    assert(second & 0xf0 == 0x10 ==> 0x10 <= second < 0x20) by (bit_vector);
    let rest = hash.drop_first();
    assert(rest[0] == second);
    assert(leading_zero_bits(rest) == byte_leading_zeros(second));
}

/// A challenge that is the challenge of no bucket accepted at `now` is
/// refused, whatever nonce comes with it and however good the proof is.
pub proof fn lemma_stale_challenge_refused(
    secret: Seq<u8>,
    now: u64,
    challenge: PowHeader,
    nonce: PowHeader,
    hash: PowHeader,
)
    requires
        !(challenge is Absent || nonce is Absent || hash is Absent),
        challenge.text() matches Some(presented) ==> !challenge_is_current(secret, now, presented),
    ensures
        pow_outcome(secret, now, challenge, nonce, hash) == PowOutcome::Forbidden,
{
}

/// The challenge of a bucket is accepted from that bucket's second until
/// [`POW_EXPIRY_SECS`] seconds later, both included.
pub proof fn lemma_challenge_lifetime(secret: Seq<u8>, bucket: u64, now: u64)
    requires
        bucket <= now <= bucket + POW_EXPIRY_SECS,
    ensures
        challenge_is_current(secret, now, challenge_token(secret, bucket)),
{
}

} // verus!
