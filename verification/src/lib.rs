//! A WebCrypto-style cryptographic operation broker.
//!
//! Given an algorithm descriptor, a set of permitted usages and an
//! extractability flag, the operation engine generates, signs with and
//! verifies keys, while raw key material stays behind an opaque, pluggable
//! storage boundary. The cryptographic primitives themselves (RSA math,
//! hashing, randomness) are consumed through a narrow, documented boundary.

pub mod storage;
pub mod subtle;

use vstd::prelude::*;

use crate::storage::KeyStorage;
use crate::subtle::Error;
use crate::subtle::SubtleCrypto;
use crate::subtle::primitive::uuid_v4_string;
use crate::subtle::zero_bytes;

verus! {

/// The largest number of random bytes one `get_random_values` call hands
/// out.
pub const RANDOM_BYTES_QUOTA: usize = 65536;

/// A WebCrypto context backed by a cryptographically
/// secure randomness source.
///
/// An application may use multiple contexts;
/// the operation is not expensive.
pub struct Context<S: KeyStorage> {
    pub subtle: SubtleCrypto<S>,
}

impl<S: KeyStorage> Context<S> {
    pub fn new(rng: rand::rngs::StdRng, storage: S) -> (r: Self)
        ensures
            r.subtle.contents() == storage.contents(),
    {
        let subtle = SubtleCrypto::new(rng, storage);
        Context { subtle }
    }

    /// Fill the buffer in place with cryptographically secure random
    /// bytes, keeping its length. A request over the byte quota is
    /// refused before any randomness is drawn; under the quota the fill
    /// always succeeds.
    pub fn get_random_values(&mut self, buf: &mut Vec<u8>) -> (r: Result<(), Error>)
        ensures
            final(self).subtle.contents() == old(self).subtle.contents(),
            final(buf)@.len() == old(buf)@.len(),
            r == Err::<(), Error>(Error::QuotaExceeded) <==> old(buf)@.len() > RANDOM_BYTES_QUOTA,
            old(buf)@.len() > RANDOM_BYTES_QUOTA ==> final(buf)@ == old(buf)@,
            old(buf)@.len() <= RANDOM_BYTES_QUOTA ==> r == Ok::<(), Error>(()),
    {
        if buf.len() > RANDOM_BYTES_QUOTA {
            return Err(Error::QuotaExceeded);
        }
        self.subtle.fill_random(buf);
        Ok(())
    }

    /// A version-4 UUID from 16 bytes of the randomness source, rendered
    /// as its canonical 36-character string: lower-case hex in the
    /// 8-4-4-4-12 layout, with the version nibble reading `4` and the
    /// variant nibble one of `8`, `9`, `a`, `b`.
    pub fn random_uuid(&mut self) -> (r: String)
        ensures
            final(self).subtle.contents() == old(self).subtle.contents(),
            r@.len() == 36,
            r@[8] == '-' && r@[13] == '-' && r@[18] == '-' && r@[23] == '-',
            r@[14] == '4',
            r@[19] == '8' || r@[19] == '9' || r@[19] == 'a' || r@[19] == 'b',
    {
        let mut bytes = zero_bytes(16);
        self.subtle.fill_random(&mut bytes);
        uuid_v4_string(&bytes)
    }
}

} // verus!
