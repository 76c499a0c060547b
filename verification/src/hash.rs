//! The streaming SHA-256 accumulator behind the detector, wrapped so that
//! contracts can speak of the byte sequence it has absorbed.

use vstd::prelude::*;

use sha2::Digest;

verus! {

/// A streaming SHA-256 accumulator. `sha2::Sha256` is held opaquely; what
/// the contracts track is the sequence of bytes absorbed so far.
#[verifier::external_body]
pub struct Sha256State {
    inner: sha2::Sha256,
}

/// The bytes a `Sha256State` has absorbed since it was created.
pub uninterp spec fn absorbed(h: Sha256State) -> Seq<u8>;

/// The 32-byte SHA-256 digest of a byte sequence; a function of the bytes
/// alone.
pub uninterp spec fn sha256_of(bytes: Seq<u8>) -> Seq<u8>;

impl Sha256State {
    /// Relies on `sha2::Sha256::new` (`Digest::new`): a fresh accumulator
    /// has absorbed nothing.
    #[verifier::external_body]
    pub fn new() -> (h: Sha256State)
        ensures
            absorbed(h) == Seq::<u8>::empty(),
    {
        Sha256State { inner: sha2::Sha256::new() }
    }

    /// Relies on `sha2::Sha256::update` (`Digest::update`): absorbs the given
    /// bytes after everything absorbed before.
    #[verifier::external_body]
    pub fn update(&mut self, data: &[u8])
        ensures
            absorbed(*final(self)) == absorbed(*old(self)) + data@,
    {
        self.inner.update(data);
    }

    /// Relies on `sha2::Sha256::finalize` (`Digest::finalize`): the 32-byte
    /// SHA-256 digest of exactly the absorbed bytes.
    #[verifier::external_body]
    pub fn finalize(self) -> (r: Vec<u8>)
        ensures
            r@ == sha256_of(absorbed(self)),
            r@.len() == 32,
    {
        self.inner.finalize().to_vec()
    }
}

} // verus!
