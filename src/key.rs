//! Derivation of the per-time-bucket transit key.
use vstd::prelude::*;
use vstd::string::StringSliceAdditionalSpecFns;

verus! {

/// Length in bytes of a SHA-256 digest, the longest key that can be derived.
pub const DIGEST_LEN: usize = 32;

/// The byte that separates the bucket number from the credential.
pub const SEPARATOR: u8 = 46;

/// The SHA-256 digest of `data`.
pub uninterp spec fn sha256_of(data: Seq<u8>) -> Seq<u8>;

/// Relies on ring::digest::digest with SHA256: the digest of the input, 32 bytes long.
#[verifier::external_body]
fn sha256(data: &[u8]) -> (r: Vec<u8>)
    ensures
        r@ == sha256_of(data@),
        r@.len() == DIGEST_LEN,
{
    ring::digest::digest(&ring::digest::SHA256, data).as_ref().to_vec()
}

/// The ASCII decimal form of `n`, most significant digit first, without leading zeros.
pub open spec fn decimal(n: nat) -> Seq<u8>
    decreases n,
{
    if n < 10 {
        seq![(48 + n) as u8]
    } else {
        decimal(n / 10).push((48 + n % 10) as u8)
    }
}

/// The time bucket that `now` seconds since the epoch falls in.
pub open spec fn bucket_of(now: nat, width: nat) -> nat
    recommends
        width > 0,
{
    now / width
}

/// The bytes that are hashed to give the key of `bucket`.
pub open spec fn key_material(credential: Seq<u8>, bucket: nat) -> Seq<u8> {
    decimal(bucket).push(SEPARATOR) + credential
}

/// The key of `bucket`: the first `key_length` bytes of the digest of its material
/// (at most the 32 bytes of the digest).
pub open spec fn transit_key(credential: Seq<u8>, bucket: nat, key_length: nat) -> Seq<u8> {
    Seq::new(key_length, |i: int| sha256_of(key_material(credential, bucket))[i])
}

/// Two instants in the same bucket give the same key: the key depends on the
/// time only through its bucket.
pub proof fn lemma_same_bucket_same_key(
    credential: Seq<u8>,
    t1: nat,
    t2: nat,
    width: nat,
    key_length: nat,
)
    requires
        width > 0,
        bucket_of(t1, width) == bucket_of(t2, width),
    ensures
        transit_key(credential, bucket_of(t1, width), key_length) == transit_key(
            credential,
            bucket_of(t2, width),
            key_length,
        ),
{
}

/// A decimal form is never empty.
proof fn lemma_decimal_nonempty(n: nat)
    ensures
        decimal(n).len() >= 1,
    decreases n,
{
    if n >= 10 {
        lemma_decimal_nonempty(n / 10);
    }
}

/// Distinct numbers have distinct decimal forms.
proof fn lemma_decimal_injective(a: nat, b: nat)
    requires
        decimal(a) == decimal(b),
    ensures
        a == b,
    decreases a,
{
    if a < 10 && b < 10 {
        assert(decimal(a)[0] == (48 + a) as u8);
        assert(decimal(b)[0] == (48 + b) as u8);
        assert(decimal(a)[0] == decimal(b)[0]);
    } else if a < 10 {
        lemma_decimal_nonempty(b / 10);
        assert(decimal(b).len() >= 2);
    } else if b < 10 {
        lemma_decimal_nonempty(a / 10);
        assert(decimal(a).len() >= 2);
    } else {
        assert(decimal(a / 10) =~= decimal(a).drop_last());
        assert(decimal(b / 10) =~= decimal(b).drop_last());
        lemma_decimal_injective(a / 10, b / 10);
        assert(decimal(a).last() == (48 + a % 10) as u8);
        assert(decimal(b).last() == (48 + b % 10) as u8);
        assert(a % 10 == b % 10);
        assert(a == 10 * (a / 10) + a % 10) by (nonlinear_arith);
        assert(b == 10 * (b / 10) + b % 10) by (nonlinear_arith);
    }
}

/// Adjacent buckets hash different inputs: the key material of bucket `b` and of
/// bucket `b + 1` differ for every credential. Distinct keys then rest on SHA-256
/// giving distinct digests for distinct inputs, which no proof here can show.
pub proof fn lemma_adjacent_buckets_distinct_material(credential: Seq<u8>, b: nat)
    ensures
        key_material(credential, b) != key_material(credential, b + 1),
{
    let m0 = key_material(credential, b);
    let m1 = key_material(credential, b + 1);
    let d0 = decimal(b);
    let d1 = decimal(b + 1);
    if m0 == m1 {
        if d0.len() == d1.len() {
            assert(d0 =~= m0.take(d0.len() as int));
            assert(d1 =~= m1.take(d1.len() as int));
            lemma_decimal_injective(b, b + 1);
        } else {
            assert(m0.len() == d0.len() + 1 + credential.len());
            assert(m1.len() == d1.len() + 1 + credential.len());
        }
    }
}

/// Appends the decimal form of `n` to `out`.
pub fn push_decimal(n: u64, out: &mut Vec<u8>)
    ensures
        final(out)@ == old(out)@ + decimal(n as nat),
    decreases n,
{
    if n >= 10 {
        push_decimal(n / 10, out);
    }
    out.push((48 + n % 10) as u8);
    proof {
        assert(old(out)@ + decimal(n as nat) =~= final(out)@);
    }
}

/// The time bucket of `now_secs` for buckets `bucket_width` seconds wide.
pub fn time_bucket(now_secs: u64, bucket_width: u64) -> (r: u64)
    requires
        bucket_width > 0,
    ensures
        r as nat == bucket_of(now_secs as nat, bucket_width as nat),
{
    now_secs / bucket_width
}

/// Derives the transit key of the bucket that `now_secs` falls in; `None` when more
/// bytes are asked for than the digest has.
pub fn derive_key(credential: &str, now_secs: u64, bucket_width: u64, key_length: usize) -> (r: Option<Vec<u8>>)
    requires
        bucket_width > 0,
    ensures
        r is Some <==> key_length <= DIGEST_LEN,
        r is Some ==> r->Some_0@ == transit_key(
            credential.spec_bytes(),
            bucket_of(now_secs as nat, bucket_width as nat),
            key_length as nat,
        ),
{
    if key_length > DIGEST_LEN {
        return None;
    }
    let bucket = time_bucket(now_secs, bucket_width);
    let mut material: Vec<u8> = Vec::new();
    push_decimal(bucket, &mut material);
    material.push(SEPARATOR);
    let cred = credential.as_bytes();
    let mut i: usize = 0;
    let ghost start = material@;
    while i < cred.len()
        invariant
            i <= cred@.len(),
            material@ == start + cred@.take(i as int),
        decreases cred@.len() - i,
    {
        material.push(cred[i]);
        i = i + 1;
        proof {
            assert(start + cred@.take(i as int) =~= material@);
        }
    }
    proof {
        assert(cred@.take(cred@.len() as int) =~= cred@);
        assert(material@ =~= key_material(credential.spec_bytes(), bucket as nat));
    }
    let mut digest = sha256(material.as_slice());
    digest.truncate(key_length);
    proof {
        assert(digest@ =~= transit_key(credential.spec_bytes(), bucket as nat, key_length as nat));
    }
    Some(digest)
}

} // verus!
