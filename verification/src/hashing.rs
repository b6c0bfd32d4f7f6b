//! Digest computation: streaming SHA-256 over byte blocks, and lowercase
//! hexadecimal rendering of the final digest.
use vstd::prelude::*;
use sha2::Digest;

verus! {

/// The SHA-256 digest of a byte sequence. The algorithm itself is carried out
/// by the sha2 crate; its result is a function of the input bytes alone, so it
/// is given a name here rather than restated.
pub uninterp spec fn sha256_of(bytes: Seq<u8>) -> Seq<u8>;

/// The lowercase hexadecimal character for a nibble value.
pub open spec fn hex_char(n: int) -> char {
    if n == 0 {
        '0'
    } else if n == 1 {
        '1'
    } else if n == 2 {
        '2'
    } else if n == 3 {
        '3'
    } else if n == 4 {
        '4'
    } else if n == 5 {
        '5'
    } else if n == 6 {
        '6'
    } else if n == 7 {
        '7'
    } else if n == 8 {
        '8'
    } else if n == 9 {
        '9'
    } else if n == 10 {
        'a'
    } else if n == 11 {
        'b'
    } else if n == 12 {
        'c'
    } else if n == 13 {
        'd'
    } else if n == 14 {
        'e'
    } else {
        'f'
    }
}

/// Lowercase hexadecimal encoding: two digits per byte, high nibble first.
pub open spec fn hex_of(bytes: Seq<u8>) -> Seq<char>
    decreases bytes.len(),
{
    if bytes.len() == 0 {
        Seq::empty()
    } else {
        seq![hex_char(bytes[0] as int / 16), hex_char(bytes[0] as int % 16)] + hex_of(
            bytes.drop_first(),
        )
    }
}

/// The hexadecimal rendering of the SHA-256 digest of a byte sequence: the
/// shape in which every digest leaves this library.
pub open spec fn digest_hex(content: Seq<u8>) -> Seq<char> {
    hex_of(sha256_of(content))
}

/// Holds sha2's in-progress SHA-256 state; opaque to the verifier.
#[verifier::external_body]
struct DigestState {
    inner: sha2::Sha256,
}

/// Relies on sha2::Sha256::new: a fresh hasher that has absorbed no bytes.
/// Nothing is stated of the opaque state itself; `StreamingDigest` pairs it
/// with the empty byte sequence.
#[verifier::external_body]
fn fresh_sha256_state() -> DigestState {
    DigestState { inner: sha2::Sha256::new() }
}

/// An incremental SHA-256 computation. Bytes are fed in blocks; the digest of
/// everything fed so far is produced by `finalize`.
///
/// Invariant kept by the methods below: `state` has absorbed exactly the
/// bytes of `bytes_fed()`, in order. `new` starts both empty, and `update` is
/// the only way to extend them.
pub struct StreamingDigest {
    state: DigestState,
    fed: Ghost<Seq<u8>>,
}

impl StreamingDigest {
    /// The bytes fed so far, oldest first.
    pub closed spec fn bytes_fed(self) -> Seq<u8> {
        self.fed@
    }

    pub fn new() -> (r: Self)
        ensures
            r.bytes_fed() == Seq::<u8>::empty(),
    {
        StreamingDigest { state: fresh_sha256_state(), fed: Ghost(Seq::empty()) }
    }

    /// Relies on sha2::Sha256::update: absorbing a block appends it to the
    /// stream being digested.
    #[verifier::external_body]
    pub fn update(&mut self, block: &[u8])
        ensures
            final(self).bytes_fed() == old(self).bytes_fed() + block@,
    {
        self.state.inner.update(block);
    }

    /// Relies on sha2::Sha256::finalize: the result is the 32-byte SHA-256
    /// digest of exactly the bytes absorbed, in order.
    #[verifier::external_body]
    pub fn finalize(self) -> (r: Vec<u8>)
        ensures
            r@ == sha256_of(self.bytes_fed()),
            r@.len() == 32,
    {
        self.state.inner.finalize().to_vec()
    }
}

/// Relies on hex::encode: lowercase hexadecimal, two digits per byte, high
/// nibble first.
#[verifier::external_body]
pub fn hex_encode(bytes: &Vec<u8>) -> (r: String)
    ensures
        r@ == hex_of(bytes@),
{
    hex::encode(bytes)
}

/// The digest of an in-memory buffer, as lowercase hexadecimal: used on
/// generated content and on every downloaded body.
pub fn digest_bytes(bytes: &Vec<u8>) -> (d: String)
    ensures
        d@ == digest_hex(bytes@),
{
    let mut h = StreamingDigest::new();
    h.update(bytes.as_slice());
    proof {
        assert(h.bytes_fed() =~= bytes@);
    }
    let raw = h.finalize();
    hex_encode(&raw)
}

} // verus!
