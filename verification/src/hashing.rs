//! SHA-256 digests and their hexadecimal text.

use sha2::Digest;
use vstd::prelude::*;

verus! {

/// The SHA-256 digest of `data`, as `sha2` computes it.
pub uninterp spec fn sha256(data: Seq<u8>) -> Seq<u8>;

/// The bytes that a hasher has taken in since it was made.
pub uninterp spec fn taken_in(hasher: FileHasher) -> Seq<u8>;

/// A `sha2::Sha256` digest in the making, fed piece by piece.
#[verifier::external_body]
pub struct FileHasher {
    inner: sha2::Sha256,
}

/// The lower-case hexadecimal digit with value `d`.
pub open spec fn hex_digit(d: int) -> char {
    if d < 10 {
        (('0' as int) + d) as char
    } else {
        (('a' as int) + d - 10) as char
    }
}

/// `data` in lower-case hexadecimal: two digits for each byte, the high half first.
pub open spec fn hex_text(data: Seq<u8>) -> Seq<char> {
    Seq::new(
        2 * data.len(),
        |i: int|
            if i % 2 == 0 {
                hex_digit(data[i / 2] as int / 16)
            } else {
                hex_digit(data[i / 2] as int % 16)
            },
    )
}

/// `sha2::Sha256::new` makes a hasher that has taken in nothing.
#[verifier::external_body]
fn start() -> (hasher: FileHasher)
    ensures
        taken_in(hasher) == Seq::<u8>::empty(),
{
    FileHasher { inner: sha2::Sha256::new() }
}

/// `sha2::Sha256::update` takes `data` in behind what came before.
#[verifier::external_body]
fn feed(hasher: &mut FileHasher, data: &[u8])
    ensures
        taken_in(*final(hasher)) == taken_in(*old(hasher)) + data@,
{
    hasher.inner.update(data);
}

/// `sha2::Sha256::finalize` gives the digest of all bytes taken in: 32 bytes.
#[verifier::external_body]
fn conclude(hasher: FileHasher) -> (digest: Vec<u8>)
    ensures
        digest@ == sha256(taken_in(hasher)),
        digest@.len() == 32,
{
    hasher.inner.finalize().to_vec()
}

/// `hex::encode` writes each byte as two lower-case hexadecimal digits.
#[verifier::external_body]
pub(crate) fn encode(data: &[u8]) -> (out: String)
    ensures
        out@ == hex_text(data@),
{
    hex::encode(data)
}

impl FileHasher {
    /// The bytes fed so far.
    pub open spec fn fed(self) -> Seq<u8> {
        taken_in(self)
    }

    pub fn new() -> (hasher: FileHasher)
        ensures
            hasher.fed() == Seq::<u8>::empty(),
    {
        start()
    }

    pub fn update(&mut self, data: &[u8])
        ensures
            final(self).fed() == old(self).fed() + data@,
    {
        feed(self, data);
    }

    /// The digest of all bytes that were fed.
    pub fn digest(self) -> (out: Vec<u8>)
        ensures
            out@ == sha256(self.fed()),
            out@.len() == 32,
    {
        conclude(self)
    }

    /// The hexadecimal digest of all bytes that were fed.
    pub fn finish(self) -> (out: String)
        ensures
            out@ == hex_text(sha256(self.fed())),
            out@.len() == 64,
    {
        let digest = conclude(self);
        encode(digest.as_slice())
    }
}

/// The hexadecimal SHA-256 digest of the UTF-8 bytes of `input`.
pub fn digest_of_text(input: &str) -> (out: String)
    ensures
        out@ == hex_text(sha256(vstd::utf8::encode_utf8(input@))),
        out@.len() == 64,
{
    let mut hasher = FileHasher::new();
    hasher.update(input.as_bytes());
    assert(Seq::<u8>::empty() + vstd::utf8::encode_utf8(input@) =~= vstd::utf8::encode_utf8(input@));
    hasher.finish()
}

/// Digests are told apart by their text: two digits stand for each byte, and different bytes have
/// different digits.
pub proof fn digests_are_told_apart(a: Seq<u8>, b: Seq<u8>)
    ensures
        hex_text(a).len() == 2 * a.len(),
        hex_text(a) == hex_text(b) ==> a == b,
{
    if hex_text(a) == hex_text(b) {
        assert(hex_text(a).len() == hex_text(b).len());
        assert forall|i: int| 0 <= i < a.len() implies a[i] == b[i] by {
            let x = hex_text(a);
            let y = hex_text(b);
            assert((2 * i) % 2 == 0 && (2 * i) / 2 == i);
            assert((2 * i + 1) % 2 == 1 && (2 * i + 1) / 2 == i);
            assert(x[2 * i] == y[2 * i]);
            assert(x[2 * i + 1] == y[2 * i + 1]);
            digits_are_told_apart(a[i] as int / 16, b[i] as int / 16);
            digits_are_told_apart(a[i] as int % 16, b[i] as int % 16);
        }
        assert(a =~= b);
    }
}

proof fn digits_are_told_apart(a: int, b: int)
    requires
        0 <= a < 16,
        0 <= b < 16,
        hex_digit(a) == hex_digit(b),
    ensures
        a == b,
{
    assert(hex_digit(a) as int == if a < 10 {
        48 + a
    } else {
        87 + a
    });
    assert(hex_digit(b) as int == if b < 10 {
        48 + b
    } else {
        87 + b
    });
}

} // verus!
