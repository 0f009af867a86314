//! Content hashing: the registry's 512-bit digest, hex-encoded.
//!
//! Freshness and integrity decisions rest on content hashes alone, so this
//! module pins down what a hash string is: the hex encoding, written here and
//! proved against its specification, of the digest the registry publishes.
//! The digest itself is computed by an outside implementation behind a
//! trusted streaming wrapper, so that large files need never be held in
//! memory at once.

use vstd::prelude::*;

use sha2::Digest;

verus! {

/// The hex character for one value below sixteen: `0..=9` then `a..=f`.
pub open spec fn hex_digit(n: u8) -> char
    recommends
        n < 16,
{
    if n < 10 {
        ((n + 48) as u8) as char
    } else {
        ((n + 87) as u8) as char
    }
}

/// Lower-case hex encoding of a byte sequence: two digits per byte,
/// high digit first.
pub open spec fn hex_of(bytes: Seq<u8>) -> Seq<char>
    decreases bytes.len(),
{
    if bytes.len() == 0 {
        Seq::empty()
    } else {
        seq![hex_digit(bytes.first() / 16), hex_digit(bytes.first() % 16)] + hex_of(
            bytes.drop_first(),
        )
    }
}

/// A hex encoding is exactly twice as long as its input.
pub proof fn lemma_hex_of_len(bytes: Seq<u8>)
    ensures
        hex_of(bytes).len() == 2 * bytes.len(),
    decreases bytes.len(),
{
    if bytes.len() > 0 {
        lemma_hex_of_len(bytes.drop_first());
    }
}

/// The digest the registry publishes for every file: 64 bytes of output
/// for any byte sequence.  Its value is computed by the outside
/// implementation; nothing here restates the algorithm.
pub uninterp spec fn sha512_of(bytes: Seq<u8>) -> Seq<u8>;

/// The hex-encoded digest of a byte sequence: the form hashes take in
/// registry metadata and in every freshness or integrity comparison.
pub open spec fn sha512_hex(bytes: Seq<u8>) -> Seq<char> {
    hex_of(sha512_of(bytes))
}

/// Relies on `String::push` of std: appends the character to the string.
#[verifier::external_body]
fn push_char(s: &mut String, c: char)
    ensures
        final(s)@ == old(s)@ + seq![c],
{
    s.push(c);
}

/// Hex-encodes a byte slice: two digits per byte, high digit first, lower
/// case.
pub fn hex_encode(data: &[u8]) -> (r: String)
    ensures
        r@ == hex_of(data@),
{
    let mut r = String::new();
    let n = data.len();
    proof {
        assert(data@.skip(0) == data@);
    }
    for i in 0..n
        invariant
            n == data@.len(),
            hex_of(data@) =~= r@ + hex_of(data@.skip(i as int)),
    {
        let byte = data[i];
        push_char(&mut r, hex_digit_char(byte / 16));
        push_char(&mut r, hex_digit_char(byte % 16));
        proof {
            assert(data@.skip(i as int).drop_first() =~= data@.skip(i + 1));
            assert(data@.skip(i as int).first() == data@[i as int]);
        }
    }
    proof {
        assert(data@.skip(n as int) =~= Seq::<u8>::empty());
    }
    r
}

/// The hex character for one value below sixteen, as executable code.
fn hex_digit_char(n: u8) -> (c: char)
    requires
        n < 16,
    ensures
        c == hex_digit(n),
{
    if n < 10 {
        (n + 48) as char
    } else {
        (n + 87) as char
    }
}

/// Streams bytes through the registry's 512-bit digest.
///
/// The driver reads a file chunk by chunk and feeds each chunk here, so the
/// whole file is never in memory; the digest state is held by the outside
/// implementation and modelled by [`hasher_fed`], the sequence of bytes fed
/// so far.
#[verifier::external_body]
pub struct StreamHasher {
    inner: sha2::Sha512,
}

/// The bytes a [`StreamHasher`] has been fed so far, oldest first.
pub uninterp spec fn hasher_fed(h: StreamHasher) -> Seq<u8>;

impl StreamHasher {
    /// Relies on `sha2::Sha512::new`: a fresh digest state over no bytes.
    #[verifier::external_body]
    pub fn new() -> (h: Self)
        ensures
            hasher_fed(h) == Seq::<u8>::empty(),
    {
        StreamHasher { inner: sha2::Sha512::new() }
    }

    /// Relies on `sha2::Sha512::update`: appends the chunk to the bytes
    /// the digest state is over.
    #[verifier::external_body]
    pub fn update(&mut self, chunk: &[u8])
        ensures
            hasher_fed(*final(self)) == hasher_fed(*old(self)) + chunk@,
    {
        self.inner.update(chunk);
    }

    /// Relies on `sha2::Sha512::finalize`: the digest of exactly the bytes
    /// fed, 64 bytes of output as the algorithm's documentation states.
    #[verifier::external_body]
    fn finalize_bytes(self) -> (r: Vec<u8>)
        ensures
            r@ == sha512_of(hasher_fed(self)),
            r@.len() == 64,
    {
        self.inner.finalize().to_vec()
    }

    /// Finishes the stream and returns the hex-encoded digest of the bytes
    /// fed: the form every registry hash comparison is made in.
    pub fn finalize_hex(self) -> (r: String)
        ensures
            r@ == sha512_hex(hasher_fed(self)),
            r@.len() == 128,
    {
        let digest = self.finalize_bytes();
        proof {
            lemma_hex_of_len(digest@);
        }
        hex_encode(digest.as_slice())
    }
}

/// Hashes a byte slice in one call: the hex-encoded 512-bit digest.
pub fn hash_bytes(data: &[u8]) -> (r: String)
    ensures
        r@ == sha512_hex(data@),
        r@.len() == 128,
{
    let mut hasher = StreamHasher::new();
    hasher.update(data);
    hasher.finalize_hex()
}

} // verus!
