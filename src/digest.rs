use vstd::prelude::*;

verus! {

#[verifier::external_type_specification]
#[verifier::external_body]
pub struct ExSha256(sha2::Sha256);

/// The bytes that a SHA-256 hasher has absorbed so far, in order.
pub uninterp spec fn sha256_absorbed(h: sha2::Sha256) -> Seq<u8>;

/// The SHA-256 digest of a byte sequence.
pub uninterp spec fn sha256_digest(data: Seq<u8>) -> Seq<u8>;

/// The lowercase hexadecimal digits, indexed by value.
pub open spec fn hex_digits() -> Seq<char> {
    seq!['0', '1', '2', '3', '4', '5', '6', '7', '8', '9', 'a', 'b', 'c', 'd', 'e', 'f']
}

/// Lowercase hexadecimal text of a byte sequence: two digits per byte, high
/// nibble first.
pub open spec fn hex_lower(b: Seq<u8>) -> Seq<char>
    decreases b.len(),
{
    if b.len() == 0 {
        Seq::empty()
    } else {
        hex_lower(b.drop_last()) + seq![
            hex_digits()[(b.last() / 16) as int],
            hex_digits()[(b.last() % 16) as int],
        ]
    }
}

/// Relies on `Digest::new` for `sha2::Sha256`: a fresh hasher has absorbed nothing.
#[verifier::external_body]
fn sha256_new() -> (r: sha2::Sha256)
    ensures
        sha256_absorbed(r) == Seq::<u8>::empty(),
{
    <sha2::Sha256 as sha2::Digest>::new()
}

/// Relies on `Digest::update` for `sha2::Sha256`: the input is appended to
/// what the hasher has absorbed.
#[verifier::external_body]
fn sha256_update(h: &mut sha2::Sha256, data: &[u8])
    ensures
        sha256_absorbed(*final(h)) == sha256_absorbed(*old(h)) + data@,
{
    sha2::Digest::update(h, data)
}

/// Relies on `Digest::finalize` for `sha2::Sha256` (on a copy of the hasher):
/// the 32-byte SHA-256 digest of everything absorbed.
#[verifier::external_body]
fn sha256_finalize(h: &sha2::Sha256) -> (r: Vec<u8>)
    ensures
        r@ == sha256_digest(sha256_absorbed(*h)),
        r@.len() == 32,
{
    sha2::Digest::finalize(h.clone()).to_vec()
}

/// Relies on `hex::encode`: two lowercase hex digits per byte, high nibble first.
#[verifier::external_body]
fn hex_encode(b: &[u8]) -> (r: String)
    ensures
        r@ == hex_lower(b@),
{
    hex::encode(b)
}

/// A running SHA-256 computation over the bytes of a cached file.
pub struct HashState {
    hasher: sha2::Sha256,
}

impl HashState {
    /// The bytes fed so far.
    pub closed spec fn fed(&self) -> Seq<u8> {
        sha256_absorbed(self.hasher)
    }

    pub fn new() -> (r: HashState)
        ensures
            r.fed() == Seq::<u8>::empty(),
    {
        HashState { hasher: sha256_new() }
    }

    pub fn feed(&mut self, chunk: &[u8])
        ensures
            final(self).fed() == old(self).fed() + chunk@,
    {
        sha256_update(&mut self.hasher, chunk);
    }

    /// Lowercase hex text of the digest of everything fed so far.
    pub fn finish_hex(&self) -> (r: String)
        ensures
            r@ == hex_lower(sha256_digest(self.fed())),
    {
        let d = sha256_finalize(&self.hasher);
        hex_encode(d.as_slice())
    }
}

} // verus!
