//! Content hashing for artifact integrity: a streaming SHA-256 state fed
//! chunk by chunk behind trusted wrappers, and a verified lowercase hex
//! encoding of the resulting digest.

use vstd::prelude::*;

verus! {

/// Streaming SHA-256 state. The concrete hasher comes from the `sha2`
/// crate; its generic state type cannot be declared to the verifier, so
/// it is held opaquely here and modelled by `hasher_fed`, the sequence of
/// bytes fed so far.
#[verifier::external_body]
pub struct Sha256Stream {
    inner: sha2::Sha256,
}

/// The bytes fed to a streaming hasher so far.
pub uninterp spec fn hasher_fed(h: Sha256Stream) -> Seq<u8>;

/// The SHA-256 digest of `data`: 32 bytes, a function of the input bytes
/// alone.
pub uninterp spec fn spec_sha256(data: Seq<u8>) -> Seq<u8>;

impl Sha256Stream {
    /// Relies on `sha2::Sha256::new` (via `Digest::new`): a fresh hasher
    /// has been fed nothing.
    #[verifier::external_body]
    pub fn new() -> (h: Sha256Stream)
        ensures
            hasher_fed(h) == Seq::<u8>::empty(),
    {
        Sha256Stream { inner: <sha2::Sha256 as sha2::Digest>::new() }
    }

    /// Relies on `sha2::Digest::update`: feeding a chunk appends exactly
    /// those bytes to the hashed stream.
    #[verifier::external_body]
    pub fn update(&mut self, chunk: &[u8])
        ensures
            hasher_fed(*final(self)) == hasher_fed(*old(self)) + chunk@,
    {
        sha2::Digest::update(&mut self.inner, chunk);
    }

    /// Relies on `sha2::Digest::finalize`: the result is the 32-byte
    /// SHA-256 digest of everything fed, a function of those bytes alone.
    #[verifier::external_body]
    pub fn finalize(self) -> (r: Vec<u8>)
        ensures
            r@ == spec_sha256(hasher_fed(self)),
            r@.len() == 32,
    {
        sha2::Digest::finalize(self.inner).to_vec()
    }
}

/// The lowercase hex digit for a value below sixteen.
pub open spec fn spec_hex_digit(v: u8) -> char {
    if v == 0 { '0' }
    else if v == 1 { '1' }
    else if v == 2 { '2' }
    else if v == 3 { '3' }
    else if v == 4 { '4' }
    else if v == 5 { '5' }
    else if v == 6 { '6' }
    else if v == 7 { '7' }
    else if v == 8 { '8' }
    else if v == 9 { '9' }
    else if v == 10 { 'a' }
    else if v == 11 { 'b' }
    else if v == 12 { 'c' }
    else if v == 13 { 'd' }
    else if v == 14 { 'e' }
    else { 'f' }
}

/// The lowercase hex encoding of `data`: two digits per byte, as the
/// `{:x}` formatting of a digest prints it.
pub open spec fn spec_hex_lower(data: Seq<u8>) -> Seq<char>
    decreases data.len(),
{
    if data.len() == 0 {
        Seq::<char>::empty()
    } else {
        spec_hex_lower(data.drop_last())
            + seq![spec_hex_digit(data.last() / 16), spec_hex_digit(data.last() % 16)]
    }
}

/// The lowercase hex form of the SHA-256 digest of `data`; 64 characters.
pub open spec fn spec_sha256_hex(data: Seq<u8>) -> Seq<char> {
    spec_hex_lower(spec_sha256(data))
}

/// Hex digits for a nibble value.
fn hex_digit(v: u8) -> (c: char)
    requires
        v < 16,
    ensures
        c == spec_hex_digit(v),
{
    if v == 0 { '0' }
    else if v == 1 { '1' }
    else if v == 2 { '2' }
    else if v == 3 { '3' }
    else if v == 4 { '4' }
    else if v == 5 { '5' }
    else if v == 6 { '6' }
    else if v == 7 { '7' }
    else if v == 8 { '8' }
    else if v == 9 { '9' }
    else if v == 10 { 'a' }
    else if v == 11 { 'b' }
    else if v == 12 { 'c' }
    else if v == 13 { 'd' }
    else if v == 14 { 'e' }
    else { 'f' }
}

/// Encode `data` as lowercase hex, two digits per byte.
pub fn hex_lower(data: &Vec<u8>) -> (r: String)
    ensures
        r@ == spec_hex_lower(data@),
        r@.len() == 2 * data@.len(),
{
    let mut r = String::new();
    let mut i: usize = 0;
    proof {
        assert(data@.take(0) =~= Seq::<u8>::empty());
    }
    while i < data.len()
        invariant
            i <= data@.len(),
            r@ == spec_hex_lower(data@.take(i as int)),
            r@.len() == 2 * i,
        decreases data@.len() - i,
    {
        let b = data[i];
        let hi = hex_digit(b / 16);
        let lo = hex_digit(b % 16);
        let mut pair = String::new();
        pair.push(hi);
        pair.push(lo);
        r.append(pair.as_str());
        proof {
            assert(data@.take(i + 1).drop_last() =~= data@.take(i as int));
            assert(data@.take(i + 1).last() == data@[i as int]);
        }
        i = i + 1;
    }
    proof {
        assert(data@.take(data@.len() as int) =~= data@);
    }
    r
}

} // verus!
