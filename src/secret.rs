use vstd::prelude::*;
use vstd::utf8::encode_utf8;

verus! {

/// The length in bytes of the shared authenticator.
pub const SECRET_LENGTH: usize = 32;

/// The bearer authenticator that client and server derive from one passphrase.
pub type Secret = [u8; 32];

/// The 32-byte BLAKE3 digest of a byte string.
pub uninterp spec fn blake3_digest(input: Seq<u8>) -> Seq<u8>;

/// Relies on `blake3::hash` and `Hash::as_bytes`: the 32-byte BLAKE3 digest, which depends
/// on the input bytes alone.
#[verifier::external_body]
fn blake3_hash(input: &[u8]) -> (r: [u8; 32])
    ensures
        r@ == blake3_digest(input@),
{
    *blake3::hash(input).as_bytes()
}

/// The secret for a passphrase: the BLAKE3 digest of its UTF-8 bytes.
pub fn derive_secret(passphrase: &str) -> (r: Secret)
    ensures
        r@ == blake3_digest(encode_utf8(passphrase@)),
{
    blake3_hash(passphrase.as_bytes())
}

proof fn lemma_xor_zero(x: u8, y: u8)
    ensures
        (x ^ y == 0) <==> (x == y),
{
    assert((x ^ y == 0) <==> (x == y)) by (bit_vector);
}

proof fn lemma_or_zero(x: u8, y: u8)
    ensures
        (x | y == 0) <==> (x == 0 && y == 0),
{
    assert((x | y == 0) <==> (x == 0 && y == 0)) by (bit_vector);
}

/// Compares two secrets byte for byte. Every byte is looked at whatever the earlier ones
/// held, so the time taken does not tell where the first difference lies.
pub fn secrets_match(a: &Secret, b: &Secret) -> (r: bool)
    ensures
        r == (a@ == b@),
{
    let mut diff: u8 = 0;
    let mut i: usize = 0;
    while i < SECRET_LENGTH
        invariant
            i <= SECRET_LENGTH,
            a@.len() == SECRET_LENGTH,
            b@.len() == SECRET_LENGTH,
            (diff == 0) <==> (forall|k: int| 0 <= k < i ==> a@[k] == b@[k]),
        decreases SECRET_LENGTH - i,
    {
        let x = a[i];
        let y = b[i];
        proof {
            lemma_xor_zero(x, y);
            lemma_or_zero(diff, x ^ y);
        }
        diff = diff | (x ^ y);
        i = i + 1;
    }
    if diff == 0 {
        assert(a@ =~= b@);
    }
    diff == 0
}

/// The secret that opens `b`.
pub(crate) fn secret_at(b: &[u8]) -> (r: Secret)
    requires
        b@.len() >= SECRET_LENGTH,
    ensures
        r@ == b@.subrange(0, SECRET_LENGTH as int),
{
    let mut r: Secret = [0u8; 32];
    let mut i: usize = 0;
    while i < SECRET_LENGTH
        invariant
            i <= SECRET_LENGTH,
            b@.len() >= SECRET_LENGTH,
            r@.len() == SECRET_LENGTH,
            forall|k: int| 0 <= k < i ==> r@[k] == b@[k],
        decreases SECRET_LENGTH - i,
    {
        r[i] = b[i];
        i = i + 1;
    }
    assert(r@ =~= b@.subrange(0, SECRET_LENGTH as int));
    r
}

} // verus!
