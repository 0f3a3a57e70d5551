pub mod primitive;

use vstd::prelude::*;

use crate::storage::KeyMaterial;
use crate::storage::KeyStorage;
use crate::subtle::primitive::pkcs1v15_accepts;
use crate::subtle::primitive::pkcs1v15_signable;
use crate::subtle::primitive::pss_accepts;
use crate::subtle::primitive::pss_signable;
use crate::subtle::primitive::rsa_private_der_ok;
use crate::subtle::primitive::sha1_of;
use crate::subtle::primitive::sha256_of;
use crate::subtle::primitive::sha384_of;
use crate::subtle::primitive::sha512_of;

verus! {

/// The canonical name tag of an algorithm, hash or curve family member.
///
/// Dispatch is by closed tagged union rather than by open-ended strings, so
/// that every match site is forced to consider every recognized name.
#[derive(Clone, Copy, PartialEq, Eq, Structural, Debug)]
pub enum AlgorithmName {
    /// `RSASSA-PKCS1-v1_5`
    RsassaPkcs1V15,
    /// `RSA-PSS`
    RsaPss,
    /// `RSA-OAEP`
    RsaOaep,
    /// `AES-CTR`
    AesCtr,
    /// `AES-CBC`
    AesCbc,
    /// `AES-GCM`
    AesGcm,
    /// `AES-KW`
    AesKw,
    /// `HMAC`
    Hmac,
    /// `ECDSA`
    Ecdsa,
    /// `ECDH`
    Ecdh,
    /// `SHA-1`
    Sha1,
    /// `SHA-256`
    Sha256,
    /// `SHA-384`
    Sha384,
    /// `SHA-512`
    Sha512,
}

#[non_exhaustive]
#[derive(Clone, Copy, PartialEq, Eq, Structural, Debug)]
pub enum NamedCurve {
    /// NIST P-256 (secp256r1)
    P256,
    /// NIST P-384 (secp384r1)
    P384,
    /// NIST P-521 (secp512r1)
    P521,
}

/// Identifies the digest algorithm an operation hashes with.
#[derive(Clone, Copy, PartialEq, Eq, Structural, Debug)]
pub struct HashAlgorithmIdentifer {
    pub name: AlgorithmName,
}

/// Generation parameters for an RSA key pair without a bound hash.
#[derive(Clone, Copy, Debug)]
pub struct RsaKeyGenParams {
    pub name: AlgorithmName,
    pub modulus_length: usize,
    pub public_exponent: [u8; 3],
}

/// The stored algorithm of an RSA key without a bound hash.
#[derive(Clone, Copy, Debug)]
pub struct RsaKeyAlgorithm {
    pub name: AlgorithmName,
    pub modulus_length: usize,
    pub public_exponent: [u8; 3],
}

/// Generation parameters for an RSA key pair bound to a hash
/// (`RSASSA-PKCS1-v1_5`, `RSA-PSS`, `RSA-OAEP`).
#[derive(Clone, Copy, Debug)]
pub struct RsaHashedKeyGenParams {
    pub name: AlgorithmName,
    pub hash: HashAlgorithmIdentifer,
    pub modulus_length: usize,
    pub public_exponent: [u8; 3],
}

/// The stored algorithm of an RSA key bound to a hash.
#[derive(Clone, Copy, Debug)]
pub struct RsaHashedKeyAlgorithm {
    pub name: AlgorithmName,
    pub hash: HashAlgorithmIdentifer,
    pub modulus_length: usize,
    pub public_exponent: [u8; 3],
}

/// Generation parameters for an elliptic-curve key pair (dispatch stub).
#[derive(Clone, Copy, Debug)]
pub struct EcKeyGenParams {
    pub name: AlgorithmName,
    pub named_curve: NamedCurve,
}

/// The stored algorithm of an elliptic-curve key (dispatch stub).
#[derive(Clone, Copy, Debug)]
pub struct EcKeyAlgorithm {
    pub name: AlgorithmName,
    pub named_curve: NamedCurve,
}

/// Generation parameters for an AES secret key; `length` counts bits.
#[derive(Clone, Copy, Debug)]
pub struct AesKeyGenParams {
    pub name: AlgorithmName,
    pub length: usize,
}

/// The stored algorithm of an AES secret key.
#[derive(Clone, Copy, Debug)]
pub struct AesKeyAlgorithm {
    pub name: AlgorithmName,
    pub length: usize,
}

/// Generation parameters for an HMAC secret key; `length` counts bits and
/// is mandatory (no default to the digest's block length).
#[derive(Clone, Copy, Debug)]
pub struct HmacKeyGenParams {
    pub name: AlgorithmName,
    pub hash: HashAlgorithmIdentifer,
    pub length: usize,
}

/// The stored algorithm of an HMAC secret key.
#[derive(Clone, Copy, Debug)]
pub struct HmacKeyAlgorithm {
    pub name: AlgorithmName,
    pub hash: HashAlgorithmIdentifer,
    pub length: usize,
}

/// The tagged union of every recognized set of generation parameters.
#[derive(Clone, Copy, Debug)]
pub enum KeyGenParams {
    RsaKeyGenParams(RsaKeyGenParams),
    RsaHashedKeyGenParams(RsaHashedKeyGenParams),
    EcKeyGenParams(EcKeyGenParams),
    AesKeyGenParams(AesKeyGenParams),
    HmacKeyGenParams(HmacKeyGenParams),
}

/// The tagged union of every stored-algorithm shape a key can carry.
#[derive(Clone, Copy, Debug)]
pub enum Algorithm {
    RsaKeyAlgorithm(RsaKeyAlgorithm),
    RsaHashedKeyAlgorithm(RsaHashedKeyAlgorithm),
    EcKeyAlgorithm(EcKeyAlgorithm),
    AesKeyAlgorithm(AesKeyAlgorithm),
    HmacKeyAlgorithm(HmacKeyAlgorithm),
}

/// The total, field-preserving mapping from generation parameters to the
/// stored algorithm that the generated key carries.
pub open spec fn algorithm_of(p: KeyGenParams) -> Algorithm {
    match p {
        KeyGenParams::RsaKeyGenParams(q) => Algorithm::RsaKeyAlgorithm(RsaKeyAlgorithm {
            name: q.name,
            modulus_length: q.modulus_length,
            public_exponent: q.public_exponent,
        }),
        KeyGenParams::RsaHashedKeyGenParams(q) => Algorithm::RsaHashedKeyAlgorithm(
            RsaHashedKeyAlgorithm {
                name: q.name,
                hash: q.hash,
                modulus_length: q.modulus_length,
                public_exponent: q.public_exponent,
            },
        ),
        KeyGenParams::EcKeyGenParams(q) => Algorithm::EcKeyAlgorithm(EcKeyAlgorithm {
            name: q.name,
            named_curve: q.named_curve,
        }),
        KeyGenParams::AesKeyGenParams(q) => Algorithm::AesKeyAlgorithm(AesKeyAlgorithm {
            name: q.name,
            length: q.length,
        }),
        KeyGenParams::HmacKeyGenParams(q) => Algorithm::HmacKeyAlgorithm(HmacKeyAlgorithm {
            name: q.name,
            hash: q.hash,
            length: q.length,
        }),
    }
}

impl KeyGenParams {
    /// Convert generation parameters into the stored-algorithm value the
    /// resulting key will carry. Pure data transformation; no validation.
    pub fn into_algorithm(self) -> (r: Algorithm)
        ensures
            r == algorithm_of(self),
    {
        match self {
            KeyGenParams::RsaKeyGenParams(q) => Algorithm::RsaKeyAlgorithm(RsaKeyAlgorithm {
                name: q.name,
                modulus_length: q.modulus_length,
                public_exponent: q.public_exponent,
            }),
            KeyGenParams::RsaHashedKeyGenParams(q) => Algorithm::RsaHashedKeyAlgorithm(
                RsaHashedKeyAlgorithm {
                    name: q.name,
                    hash: q.hash,
                    modulus_length: q.modulus_length,
                    public_exponent: q.public_exponent,
                },
            ),
            KeyGenParams::EcKeyGenParams(q) => Algorithm::EcKeyAlgorithm(EcKeyAlgorithm {
                name: q.name,
                named_curve: q.named_curve,
            }),
            KeyGenParams::AesKeyGenParams(q) => Algorithm::AesKeyAlgorithm(AesKeyAlgorithm {
                name: q.name,
                length: q.length,
            }),
            KeyGenParams::HmacKeyGenParams(q) => Algorithm::HmacKeyAlgorithm(HmacKeyAlgorithm {
                name: q.name,
                hash: q.hash,
                length: q.length,
            }),
        }
    }
}

/// A permitted operation category for a key, fixed at generation time.
#[derive(Clone, Copy, PartialEq, Eq, Structural, Debug)]
pub enum KeyUsage {
    Encrypt,
    Decrypt,
    Sign,
    Verify,
    WrapKey,
    UnwrapKey,
    DeriveKey,
    DeriveBits,
}

/// Which operations a key may participate in.
#[derive(Clone, Copy, PartialEq, Eq, Structural, Debug)]
pub enum KeyType {
    Public,
    Private,
    Secret,
}

/// The failure classes of the operation engine.
#[derive(Clone, Copy, PartialEq, Eq, Structural, Debug)]
pub enum Error {
    /// Validation failure: a usage set illegal for the algorithm family, or
    /// an unrecognized hash name. Raised before any side-effecting work.
    Syntax,
    /// An operation requested against a key of the wrong type.
    InvalidAccess,
    /// A recognized family with an unimplemented or unrecognized algorithm.
    NotSupported,
    /// The primitive library failed, or was handed parameters no supported
    /// key could satisfy. Propagated opaquely, never retried.
    Operation,
    /// A handle the engine itself issued could not be read back: a broken
    /// storage-backend contract, surfaced explicitly and never retried.
    InternalConsistency,
    /// More random bytes requested at once than the byte quota allows.
    QuotaExceeded,
}

/// Parameters for signing or verifying with `RSASSA-PKCS1-v1_5`; the hash
/// is the one bound to the key at generation time.
#[derive(Clone, Copy, Debug)]
pub struct RsassaPkcs1V15Params {
    pub name: AlgorithmName,
}

/// Parameters for signing or verifying with `RSA-PSS`: the salt length in
/// bytes; the hash is the one bound to the key at generation time.
#[derive(Clone, Copy, Debug)]
pub struct RsaPssParams {
    pub name: AlgorithmName,
    pub salt_length: u32,
}

/// Parameters for signing or verifying with `ECDSA` (dispatch stub).
#[derive(Clone, Copy, Debug)]
pub struct EcdsaParams {
    pub name: AlgorithmName,
    pub hash: HashAlgorithmIdentifer,
}

/// The tagged union of every recognized set of signing parameters.
#[derive(Clone, Copy, Debug)]
pub enum SignParams {
    RsassaPkcs1V15Params(RsassaPkcs1V15Params),
    RsaPssParams(RsaPssParams),
    EcdsaParams(EcdsaParams),
}

/// The smallest modulus size, in bits, the engine hands to the primitive
/// library for generation. Below it the reachable prime space is so small
/// that an adverse public exponent can make generation retry forever.
pub const MIN_MODULUS_BITS: usize = 64;

/// The largest modulus size, in bits, the engine hands to the primitive
/// library for generation. The primitive would accept more, at a cost in
/// time that no caller of this engine can mean; past the bound the engine
/// answers with the generation-infeasibility error instead.
pub const MAX_MODULUS_BITS: usize = 16384;

/// The largest PSS salt length, in bytes, the engine hands to the primitive
/// library. A longer salt cannot fit any supported modulus, so signing with
/// one is refused up front with the same error the primitive would give.
pub const MAX_PSS_SALT_LENGTH: u32 = 4096;

/// The RSA-hashed names the engine can generate keys for.
pub open spec fn rsa_hashed_name_supported(n: AlgorithmName) -> bool {
    ||| n == AlgorithmName::RsassaPkcs1V15
    ||| n == AlgorithmName::RsaPss
    ||| n == AlgorithmName::RsaOaep
}

/// The AES names the engine can generate keys for.
pub open spec fn aes_name_supported(n: AlgorithmName) -> bool {
    ||| n == AlgorithmName::AesCtr
    ||| n == AlgorithmName::AesCbc
    ||| n == AlgorithmName::AesGcm
    ||| n == AlgorithmName::AesKw
}

/// The digest names the sign/verify pipeline recognizes.
pub open spec fn hash_name_supported(n: AlgorithmName) -> bool {
    ||| n == AlgorithmName::Sha1
    ||| n == AlgorithmName::Sha256
    ||| n == AlgorithmName::Sha384
    ||| n == AlgorithmName::Sha512
}

/// The output length, in bytes, of a recognized digest.
pub open spec fn hash_output_len(n: AlgorithmName) -> int {
    match n {
        AlgorithmName::Sha1 => 20,
        AlgorithmName::Sha256 => 32,
        AlgorithmName::Sha384 => 48,
        AlgorithmName::Sha512 => 64,
        _ => 0,
    }
}

/// The digest of `data` under a recognized hash name.
pub open spec fn digest_of(n: AlgorithmName, data: Seq<u8>) -> Seq<u8> {
    match n {
        AlgorithmName::Sha1 => sha1_of(data),
        AlgorithmName::Sha256 => sha256_of(data),
        AlgorithmName::Sha384 => sha384_of(data),
        AlgorithmName::Sha512 => sha512_of(data),
        _ => Seq::empty(),
    }
}

/// Whether every requested usage is legal for an RSA-hashed key:
/// only `Sign` and `Verify` are.
pub open spec fn usages_all_sign_verify(usages: Seq<KeyUsage>) -> bool {
    forall|i: int|
        0 <= i < usages.len() ==> (usages[i] == KeyUsage::Sign || usages[i] == KeyUsage::Verify)
}

/// Whether the primitive library can generate an RSA key pair for these
/// parameters at all: an even public exponent has no inverse modulo any
/// prime totient, and an oversized modulus is not generated.
pub open spec fn rsa_generation_feasible(p: RsaHashedKeyGenParams) -> bool {
    &&& MIN_MODULUS_BITS <= p.modulus_length <= MAX_MODULUS_BITS
    &&& p.public_exponent@[2] % 2 == 1
}

/// Typed wrapper combining a storage handle with public key metadata.
/// Created only by the operation engine; immutable after creation.
pub struct CryptoKey<H> {
    /// Determine whether the key can be exportable or not.
    ///
    /// A false value **does not** mean that the key material
    /// is completely secure.
    /// It is **your responsibility** to ensure that in your
    /// key storage.
    pub extractable: bool,
    pub usages: Vec<KeyUsage>,
    pub type_: KeyType,
    pub algorithm: Algorithm,
    handle: H,
}

/// The mathematical model of a `CryptoKey`: its public metadata and the
/// handle its material stands under.
pub ghost struct CryptoKeyView<H> {
    pub extractable: bool,
    pub usages: Seq<KeyUsage>,
    pub type_: KeyType,
    pub algorithm: Algorithm,
    pub handle: H,
}

impl<H> View for CryptoKey<H> {
    type V = CryptoKeyView<H>;

    closed spec fn view(&self) -> CryptoKeyView<H> {
        CryptoKeyView {
            extractable: self.extractable,
            usages: self.usages@,
            type_: self.type_,
            algorithm: self.algorithm,
            handle: self.handle,
        }
    }
}

impl<H> CryptoKey<H> {
    /// The opaque handle correlating this key's metadata to its stored
    /// material. Only meaningful relative to the storage instance that
    /// issued it.
    pub fn handle(&self) -> (h: &H)
        ensures
            *h == self@.handle,
    {
        &self.handle
    }
}

/// The two halves of an asymmetric generation, produced atomically; both
/// carry the same algorithm value and reference the same stored record.
pub struct CryptoKeyPair<H> {
    pub private_key: CryptoKey<H>,
    pub public_key: CryptoKey<H>,
}

/// What a generation returns: a single secret key, or a pair.
pub enum CryptoKeyOrPair<H> {
    CryptoKey(CryptoKey<H>),
    CryptoKeyPair(CryptoKeyPair<H>),
}

/// The metadata a generated key must carry.
pub open spec fn key_metadata_ok<H>(
    k: CryptoKeyView<H>,
    t: KeyType,
    extractable: bool,
    usages: Seq<KeyUsage>,
    alg: Algorithm,
) -> bool {
    &&& k.type_ == t
    &&& k.extractable == extractable
    &&& k.usages == usages
    &&& k.algorithm == alg
}

/// A successful symmetric generation: a fresh record of `byte_len` random
/// bytes was stored, and the key's metadata points at it.
pub open spec fn secret_key_generated<H>(
    alg: KeyGenParams,
    extractable: bool,
    usages: Seq<KeyUsage>,
    byte_len: int,
    old_c: Map<H, Seq<u8>>,
    new_c: Map<H, Seq<u8>>,
    k: CryptoKeyView<H>,
) -> bool {
    &&& key_metadata_ok(k, KeyType::Secret, extractable, usages, algorithm_of(alg))
    &&& !old_c.dom().contains(k.handle)
    &&& new_c == old_c.insert(k.handle, new_c[k.handle])
    &&& new_c[k.handle].len() == byte_len
}

/// A successful RSA generation: one fresh record holding the private key's
/// DER was stored, and both halves of the pair point at it.
pub open spec fn rsa_pair_generated<H>(
    alg: KeyGenParams,
    extractable: bool,
    usages: Seq<KeyUsage>,
    old_c: Map<H, Seq<u8>>,
    new_c: Map<H, Seq<u8>>,
    pair: CryptoKeyPair<H>,
) -> bool {
    &&& key_metadata_ok(
        pair.private_key@,
        KeyType::Private,
        extractable,
        usages,
        algorithm_of(alg),
    )
    &&& key_metadata_ok(pair.public_key@, KeyType::Public, extractable, usages, algorithm_of(alg))
    &&& pair.public_key@.handle == pair.private_key@.handle
    &&& !old_c.dom().contains(pair.private_key@.handle)
    &&& new_c == old_c.insert(pair.private_key@.handle, new_c[pair.private_key@.handle])
    &&& rsa_private_der_ok(new_c[pair.private_key@.handle])
}

/// Everything `generate_key` promises, as a relation between the
/// parameters, the storage contents before and after, and the result.
pub open spec fn generate_key_post<H>(
    alg: KeyGenParams,
    extractable: bool,
    usages: Seq<KeyUsage>,
    old_c: Map<H, Seq<u8>>,
    new_c: Map<H, Seq<u8>>,
    r: Result<CryptoKeyOrPair<H>, Error>,
) -> bool {
    match alg {
        KeyGenParams::RsaHashedKeyGenParams(p) => {
            if !rsa_hashed_name_supported(p.name) {
                r == Err::<CryptoKeyOrPair<H>, Error>(Error::NotSupported) && new_c == old_c
            } else if !usages_all_sign_verify(usages) {
                r == Err::<CryptoKeyOrPair<H>, Error>(Error::Syntax) && new_c == old_c
            } else if !rsa_generation_feasible(p) {
                r == Err::<CryptoKeyOrPair<H>, Error>(Error::Operation) && new_c == old_c
            } else {
                match r {
                    Ok(kp) => kp matches CryptoKeyOrPair::CryptoKeyPair(pair)
                        && rsa_pair_generated(alg, extractable, usages, old_c, new_c, pair),
                    Err(e) => e == Error::Operation && new_c == old_c,
                }
            }
        },
        KeyGenParams::AesKeyGenParams(p) => {
            if !aes_name_supported(p.name) {
                r == Err::<CryptoKeyOrPair<H>, Error>(Error::NotSupported) && new_c == old_c
            } else {
                r matches Ok(kp) && kp matches CryptoKeyOrPair::CryptoKey(k)
                    && secret_key_generated(
                    alg,
                    extractable,
                    usages,
                    p.length as int / 8,
                    old_c,
                    new_c,
                    k@,
                )
            }
        },
        KeyGenParams::HmacKeyGenParams(p) => {
            if p.name != AlgorithmName::Hmac {
                r == Err::<CryptoKeyOrPair<H>, Error>(Error::NotSupported) && new_c == old_c
            } else {
                r matches Ok(kp) && kp matches CryptoKeyOrPair::CryptoKey(k)
                    && secret_key_generated(
                    alg,
                    extractable,
                    usages,
                    p.length as int / 8,
                    old_c,
                    new_c,
                    k@,
                )
            }
        },
        KeyGenParams::EcKeyGenParams(_) => r == Err::<CryptoKeyOrPair<H>, Error>(
            Error::NotSupported,
        ) && new_c == old_c,
        KeyGenParams::RsaKeyGenParams(_) => r == Err::<CryptoKeyOrPair<H>, Error>(
            Error::NotSupported,
        ) && new_c == old_c,
    }
}

/// The hash bound to an RSA-hashed key's stored algorithm, if it carries one.
pub open spec fn rsa_hash_of_key<H>(key: CryptoKeyView<H>) -> Option<AlgorithmName> {
    match key.algorithm {
        Algorithm::RsaHashedKeyAlgorithm(a) => Some(a.hash.name),
        _ => None,
    }
}

/// The deterministic reasons the sign/verify dispatch refuses to reach the
/// primitive library, checked in this order: an unsupported parameter
/// variant, a key whose stored algorithm carries no hash, an unrecognized
/// hash name, and (when signing) a salt no supported modulus can fit.
pub open spec fn rsa_dispatch_error<H>(
    params: SignParams,
    key: CryptoKeyView<H>,
    signing: bool,
) -> Option<Error> {
    match params {
        SignParams::RsassaPkcs1V15Params(_) => match rsa_hash_of_key(key) {
            Some(h) => if !hash_name_supported(h) {
                Some(Error::Syntax)
            } else {
                None
            },
            None => Some(Error::InvalidAccess),
        },
        SignParams::RsaPssParams(p) => match rsa_hash_of_key(key) {
            Some(h) => if !hash_name_supported(h) {
                Some(Error::Syntax)
            } else if signing && p.salt_length > MAX_PSS_SALT_LENGTH {
                Some(Error::Operation)
            } else {
                None
            },
            None => Some(Error::InvalidAccess),
        },
        SignParams::EcdsaParams(_) => Some(Error::NotSupported),
    }
}

/// The error `sign` owes before any cryptographic work, or `None` when the
/// primitive library is reached.
pub open spec fn sign_blocked<H>(
    params: SignParams,
    key: CryptoKeyView<H>,
    contents: Map<H, Seq<u8>>,
) -> Option<Error> {
    if key.type_ != KeyType::Private {
        Some(Error::InvalidAccess)
    } else if !contents.dom().contains(key.handle) {
        Some(Error::InternalConsistency)
    } else {
        rsa_dispatch_error(params, key, true)
    }
}

/// The error `verify` owes before any cryptographic work, or `None` when
/// the primitive library is reached.
pub open spec fn verify_blocked<H>(
    params: SignParams,
    key: CryptoKeyView<H>,
    contents: Map<H, Seq<u8>>,
) -> Option<Error> {
    if key.type_ != KeyType::Public {
        Some(Error::InvalidAccess)
    } else if !contents.dom().contains(key.handle) {
        Some(Error::InternalConsistency)
    } else {
        rsa_dispatch_error(params, key, false)
    }
}

/// Whether `sig` is the valid signature over `data` under the scheme the
/// parameters select, the given hash, and the private key material.
pub open spec fn signature_good(
    params: SignParams,
    hash: AlgorithmName,
    material: Seq<u8>,
    data: Seq<u8>,
    sig: Seq<u8>,
) -> bool {
    match params {
        SignParams::RsassaPkcs1V15Params(_) => pkcs1v15_accepts(
            hash_output_len(hash),
            material,
            digest_of(hash, data),
            sig,
        ),
        SignParams::RsaPssParams(p) => pss_accepts(
            hash_output_len(hash),
            material,
            p.salt_length as int,
            digest_of(hash, data),
            sig,
        ),
        SignParams::EcdsaParams(_) => false,
    }
}

/// Whether the primitive library's signing succeeds for these parameters,
/// this hash and this private key material: a deterministic question of
/// the key, the hash length and (for PSS) the salt length, which the
/// engine cannot answer itself but can quote.
pub open spec fn sign_feasible(params: SignParams, hash: AlgorithmName, material: Seq<u8>) -> bool {
    match params {
        SignParams::RsassaPkcs1V15Params(_) => pkcs1v15_signable(hash_output_len(hash), material),
        SignParams::RsaPssParams(p) => pss_signable(
            hash_output_len(hash),
            material,
            p.salt_length as int,
        ),
        SignParams::EcdsaParams(_) => false,
    }
}

/// A PSS salt so long that no supported modulus accommodates it:
/// verification with it accepts nothing.
pub open spec fn oversized_pss_salt(params: SignParams) -> bool {
    params matches SignParams::RsaPssParams(p) && p.salt_length > MAX_PSS_SALT_LENGTH
}

/// Everything `sign` promises: each structural error comes exactly on the
/// input that owes it; a returned signature is one that verification with
/// the same parameters accepts; on material that decodes, success comes
/// exactly when the primitive's deterministic feasibility condition holds;
/// the only remaining failure is the primitive's own.
pub open spec fn sign_post<H>(
    params: SignParams,
    key: CryptoKeyView<H>,
    contents: Map<H, Seq<u8>>,
    data: Seq<u8>,
    r: Result<Vec<u8>, Error>,
) -> bool {
    match sign_blocked(params, key, contents) {
        Some(e) => r == Err::<Vec<u8>, Error>(e),
        None => rsa_hash_of_key(key) matches Some(h) && {
            &&& (r matches Ok(sig) ==> signature_good(
                params,
                h,
                contents[key.handle],
                data,
                sig@,
            ))
            &&& (r matches Err(e) ==> e == Error::Operation)
            &&& (rsa_private_der_ok(contents[key.handle]) ==> (r is Ok <==> sign_feasible(
                params,
                h,
                contents[key.handle],
            )))
        },
    }
}

/// Everything `verify` promises: each structural error comes exactly on the
/// input that owes it; a salt no supported modulus can fit accepts
/// nothing; otherwise a boolean answer is exactly whether the signature is
/// valid, and on material the engine itself stored (decodable DER) a
/// boolean answer is owed.
pub open spec fn verify_post<H>(
    params: SignParams,
    key: CryptoKeyView<H>,
    contents: Map<H, Seq<u8>>,
    signature: Seq<u8>,
    data: Seq<u8>,
    r: Result<bool, Error>,
) -> bool {
    match verify_blocked(params, key, contents) {
        Some(e) => r == Err::<bool, Error>(e),
        None => if oversized_pss_salt(params) {
            r == Ok::<bool, Error>(false)
        } else {
            &&& (r matches Ok(b) ==> rsa_hash_of_key(key) matches Some(h) && b == signature_good(
                params,
                h,
                contents[key.handle],
                data,
                signature,
            ))
            &&& (r matches Err(e) ==> e == Error::Operation)
            &&& (rsa_private_der_ok(contents[key.handle]) ==> r is Ok)
        },
    }
}

/// Check that every requested usage is `Sign` or `Verify`.
fn usages_only_sign_verify(usages: &Vec<KeyUsage>) -> (r: bool)
    ensures
        r == usages_all_sign_verify(usages@),
{
    let n = usages.len();
    let mut i: usize = 0;
    while i < n
        invariant
            0 <= i <= n,
            n == usages@.len(),
            forall|j: int|
                0 <= j < i ==> (usages@[j] == KeyUsage::Sign || usages@[j] == KeyUsage::Verify),
        decreases n - i,
    {
        match usages[i] {
            KeyUsage::Sign => {},
            KeyUsage::Verify => {},
            _ => {
                return false;
            },
        }
        i += 1;
    }
    true
}

/// Copy a usage vector, element for element.
fn clone_usages(usages: &Vec<KeyUsage>) -> (r: Vec<KeyUsage>)
    ensures
        r@ == usages@,
{
    let n = usages.len();
    let mut r: Vec<KeyUsage> = Vec::new();
    let mut i: usize = 0;
    while i < n
        invariant
            0 <= i <= n,
            n == usages@.len(),
            r@ == usages@.take(i as int),
        decreases n - i,
    {
        r.push(usages[i]);
        proof {
            assert(r@ =~= usages@.take(i + 1 as int));
        }
        i += 1;
    }
    proof {
        assert(usages@.take(n as int) =~= usages@);
    }
    r
}

/// A vector of `n` zero bytes.
pub(crate) fn zero_bytes(n: usize) -> (r: Vec<u8>)
    ensures
        r@.len() == n,
{
    let mut r: Vec<u8> = Vec::new();
    while r.len() < n
        invariant
            r@.len() <= n,
        decreases n - r.len(),
    {
        r.push(0u8);
    }
    r
}

/// Hash `data` with a recognized digest name.
fn compute_digest(hash: AlgorithmName, data: &[u8]) -> (r: Vec<u8>)
    requires
        hash_name_supported(hash),
    ensures
        r@ == digest_of(hash, data@),
        r@.len() == hash_output_len(hash),
{
    match hash {
        AlgorithmName::Sha1 => primitive::sha1_digest(data),
        AlgorithmName::Sha256 => primitive::sha256_digest(data),
        AlgorithmName::Sha384 => primitive::sha384_digest(data),
        AlgorithmName::Sha512 => primitive::sha512_digest(data),
        _ => vstd::pervasive::unreached(),
    }
}

/// The recognized hash bound to an RSA-hashed key's stored algorithm, or
/// the error the dispatch owes: a key whose algorithm carries no hash
/// cannot take part in an RSA operation, and an unrecognized hash name is
/// a validation failure.
fn checked_key_hash<H>(key: &CryptoKey<H>) -> (r: Result<AlgorithmName, Error>)
    ensures
        match r {
            Ok(h) => rsa_hash_of_key(key@) == Some(h) && hash_name_supported(h),
            Err(e) => (rsa_hash_of_key(key@) is None && e == Error::InvalidAccess) || (
            rsa_hash_of_key(key@) matches Some(h) && !hash_name_supported(h) && e == Error::Syntax),
        },
{
    match key.algorithm {
        Algorithm::RsaHashedKeyAlgorithm(a) => match a.hash.name {
            AlgorithmName::Sha1 | AlgorithmName::Sha256 | AlgorithmName::Sha384
            | AlgorithmName::Sha512 => Ok(a.hash.name),
            _ => Err(Error::Syntax),
        },
        _ => Err(Error::InvalidAccess),
    }
}

/// The operation engine: algorithm-family dispatch for key generation and
/// the sign/verify pipeline, over an injected randomness source and an
/// injected storage backend.
pub struct SubtleCrypto<S: KeyStorage> {
    pub(crate) rng: rand::rngs::StdRng,
    storage: S,
}

impl<S: KeyStorage> SubtleCrypto<S> {
    /// The material the engine's storage currently holds, by handle.
    pub closed spec fn contents(&self) -> Map<S::Handle, Seq<u8>> {
        self.storage.contents()
    }

    pub fn new(rng: rand::rngs::StdRng, storage: S) -> (r: Self)
        ensures
            r.contents() == storage.contents(),
    {
        SubtleCrypto { rng, storage }
    }

    /// Draw random bytes from the injected source into the buffer,
    /// keeping its length; the storage is untouched.
    pub(crate) fn fill_random(&mut self, buf: &mut Vec<u8>)
        ensures
            final(self).contents() == old(self).contents(),
            final(buf)@.len() == old(buf)@.len(),
    {
        primitive::fill_random_bytes(&mut self.rng, buf)
    }

    /// Read access to the injected storage backend.
    pub fn storage(&self) -> (s: &S)
        ensures
            s.contents() == self.contents(),
    {
        &self.storage
    }

    /// Generate a key or key pair for the given algorithm descriptor,
    /// extractability flag and usage set. Validation failures come before
    /// any key material is drawn; on success the material stands in storage
    /// under a fresh handle and the returned key objects carry the stored
    /// algorithm converted from the descriptor.
    pub fn generate_key(
        &mut self,
        algorithm: KeyGenParams,
        extractable: bool,
        usages: Vec<KeyUsage>,
    ) -> (r: Result<CryptoKeyOrPair<S::Handle>, Error>)
        ensures
            generate_key_post(
                algorithm,
                extractable,
                usages@,
                old(self).contents(),
                final(self).contents(),
                r,
            ),
    {
        match algorithm {
            KeyGenParams::RsaHashedKeyGenParams(rsa_alg) => {
                match rsa_alg.name {
                    AlgorithmName::RsassaPkcs1V15
                    | AlgorithmName::RsaPss
                    | AlgorithmName::RsaOaep => {
                        if !usages_only_sign_verify(&usages) {
                            return Err(Error::Syntax);
                        }
                        if rsa_alg.modulus_length < MIN_MODULUS_BITS || rsa_alg.modulus_length
                            > MAX_MODULUS_BITS || rsa_alg.public_exponent[2] % 2 == 0 {
                            return Err(Error::Operation);
                        }
                        let der = match primitive::rsa_generate_pkcs1_der(
                            &mut self.rng,
                            rsa_alg.modulus_length,
                            &rsa_alg.public_exponent,
                        ) {
                            Ok(d) => d,
                            Err(_) => {
                                return Err(Error::Operation);
                            },
                        };
                        let handle = self.storage.store(KeyMaterial::new(der));
                        let key_pair = CryptoKeyPair {
                            private_key: CryptoKey {
                                extractable,
                                usages: clone_usages(&usages),
                                handle,
                                type_: KeyType::Private,
                                algorithm: algorithm.into_algorithm(),
                            },
                            public_key: CryptoKey {
                                extractable,
                                usages,
                                handle,
                                type_: KeyType::Public,
                                algorithm: algorithm.into_algorithm(),
                            },
                        };
                        Ok(CryptoKeyOrPair::CryptoKeyPair(key_pair))
                    },
                    _ => Err(Error::NotSupported),
                }
            },
            KeyGenParams::AesKeyGenParams(aes_alg) => {
                match aes_alg.name {
                    AlgorithmName::AesCtr
                    | AlgorithmName::AesCbc
                    | AlgorithmName::AesGcm
                    | AlgorithmName::AesKw => {
                        let mut key_data = zero_bytes(aes_alg.length / 8);
                        primitive::fill_random_bytes(&mut self.rng, &mut key_data);
                        let handle = self.storage.store(KeyMaterial::new(key_data));
                        let key = CryptoKey {
                            extractable,
                            usages,
                            handle,
                            type_: KeyType::Secret,
                            algorithm: algorithm.into_algorithm(),
                        };
                        Ok(CryptoKeyOrPair::CryptoKey(key))
                    },
                    _ => Err(Error::NotSupported),
                }
            },
            KeyGenParams::HmacKeyGenParams(hmac_alg) => {
                match hmac_alg.name {
                    AlgorithmName::Hmac => {
                        let mut key_data = zero_bytes(hmac_alg.length / 8);
                        primitive::fill_random_bytes(&mut self.rng, &mut key_data);
                        let handle = self.storage.store(KeyMaterial::new(key_data));
                        let key = CryptoKey {
                            extractable,
                            usages,
                            handle,
                            type_: KeyType::Secret,
                            algorithm: algorithm.into_algorithm(),
                        };
                        Ok(CryptoKeyOrPair::CryptoKey(key))
                    },
                    _ => Err(Error::NotSupported),
                }
            },
            KeyGenParams::EcKeyGenParams(_) => Err(Error::NotSupported),
            KeyGenParams::RsaKeyGenParams(_) => Err(Error::NotSupported),
        }
    }

    /// Sign `data` with a private key. The key's type and fetchability are
    /// checked before any cryptographic work; the data is hashed once with
    /// the key's bound hash and the digest is passed to the primitive
    /// library with the padding the parameters select.
    pub fn sign(
        &mut self,
        params: SignParams,
        key: &CryptoKey<S::Handle>,
        data: &[u8],
    ) -> (r: Result<Vec<u8>, Error>)
        ensures
            final(self).contents() == old(self).contents(),
            sign_post(params, key@, old(self).contents(), data@, r),
    {
        match key.type_ {
            KeyType::Private => {},
            _ => {
                return Err(Error::InvalidAccess);
            },
        }
        let material = match self.storage.get(key.handle) {
            Some(m) => m,
            None => {
                return Err(Error::InternalConsistency);
            },
        };
        match params {
            SignParams::RsassaPkcs1V15Params(_) => {
                let hash = match checked_key_hash(key) {
                    Ok(h) => h,
                    Err(e) => {
                        return Err(e);
                    },
                };
                let digest = compute_digest(hash, data);
                let res = match hash {
                    AlgorithmName::Sha1 => primitive::pkcs1v15_sign_sha1(
                        material.bytes().as_slice(),
                        digest.as_slice(),
                    ),
                    AlgorithmName::Sha256 => primitive::pkcs1v15_sign_sha256(
                        material.bytes().as_slice(),
                        digest.as_slice(),
                    ),
                    AlgorithmName::Sha384 => primitive::pkcs1v15_sign_sha384(
                        material.bytes().as_slice(),
                        digest.as_slice(),
                    ),
                    AlgorithmName::Sha512 => primitive::pkcs1v15_sign_sha512(
                        material.bytes().as_slice(),
                        digest.as_slice(),
                    ),
                    _ => vstd::pervasive::unreached(),
                };
                match res {
                    Ok(sig) => Ok(sig),
                    Err(_) => Err(Error::Operation),
                }
            },
            SignParams::RsaPssParams(p) => {
                let hash = match checked_key_hash(key) {
                    Ok(h) => h,
                    Err(e) => {
                        return Err(e);
                    },
                };
                let digest = compute_digest(hash, data);
                if p.salt_length > MAX_PSS_SALT_LENGTH {
                    return Err(Error::Operation);
                }
                let salt = p.salt_length as usize;
                let res = match hash {
                    AlgorithmName::Sha1 => primitive::pss_sign_sha1(
                        &mut self.rng,
                        material.bytes().as_slice(),
                        salt,
                        digest.as_slice(),
                    ),
                    AlgorithmName::Sha256 => primitive::pss_sign_sha256(
                        &mut self.rng,
                        material.bytes().as_slice(),
                        salt,
                        digest.as_slice(),
                    ),
                    AlgorithmName::Sha384 => primitive::pss_sign_sha384(
                        &mut self.rng,
                        material.bytes().as_slice(),
                        salt,
                        digest.as_slice(),
                    ),
                    AlgorithmName::Sha512 => primitive::pss_sign_sha512(
                        &mut self.rng,
                        material.bytes().as_slice(),
                        salt,
                        digest.as_slice(),
                    ),
                    _ => vstd::pervasive::unreached(),
                };
                match res {
                    Ok(sig) => Ok(sig),
                    Err(_) => Err(Error::Operation),
                }
            },
            SignParams::EcdsaParams(_) => Err(Error::NotSupported),
        }
    }

    /// Verify a signature over `data` with a public key, mirroring `sign`'s
    /// hash and padding selection. The boolean answer is reserved for
    /// cryptographic validity; structural problems stay explicit errors.
    pub fn verify(
        &self,
        params: SignParams,
        key: &CryptoKey<S::Handle>,
        signature: &[u8],
        data: &[u8],
    ) -> (r: Result<bool, Error>)
        ensures
            verify_post(params, key@, self.contents(), signature@, data@, r),
    {
        match key.type_ {
            KeyType::Public => {},
            _ => {
                return Err(Error::InvalidAccess);
            },
        }
        let material = match self.storage.get(key.handle) {
            Some(m) => m,
            None => {
                return Err(Error::InternalConsistency);
            },
        };
        match params {
            SignParams::RsassaPkcs1V15Params(_) => {
                let hash = match checked_key_hash(key) {
                    Ok(h) => h,
                    Err(e) => {
                        return Err(e);
                    },
                };
                let digest = compute_digest(hash, data);
                let res = match hash {
                    AlgorithmName::Sha1 => primitive::pkcs1v15_verify_sha1(
                        material.bytes().as_slice(),
                        digest.as_slice(),
                        signature,
                    ),
                    AlgorithmName::Sha256 => primitive::pkcs1v15_verify_sha256(
                        material.bytes().as_slice(),
                        digest.as_slice(),
                        signature,
                    ),
                    AlgorithmName::Sha384 => primitive::pkcs1v15_verify_sha384(
                        material.bytes().as_slice(),
                        digest.as_slice(),
                        signature,
                    ),
                    AlgorithmName::Sha512 => primitive::pkcs1v15_verify_sha512(
                        material.bytes().as_slice(),
                        digest.as_slice(),
                        signature,
                    ),
                    _ => vstd::pervasive::unreached(),
                };
                match res {
                    Ok(b) => Ok(b),
                    Err(_) => Err(Error::Operation),
                }
            },
            SignParams::RsaPssParams(p) => {
                let hash = match checked_key_hash(key) {
                    Ok(h) => h,
                    Err(e) => {
                        return Err(e);
                    },
                };
                if p.salt_length > MAX_PSS_SALT_LENGTH {
                    return Ok(false);
                }
                let digest = compute_digest(hash, data);
                let salt = p.salt_length as usize;
                let res = match hash {
                    AlgorithmName::Sha1 => primitive::pss_verify_sha1(
                        material.bytes().as_slice(),
                        salt,
                        digest.as_slice(),
                        signature,
                    ),
                    AlgorithmName::Sha256 => primitive::pss_verify_sha256(
                        material.bytes().as_slice(),
                        salt,
                        digest.as_slice(),
                        signature,
                    ),
                    AlgorithmName::Sha384 => primitive::pss_verify_sha384(
                        material.bytes().as_slice(),
                        salt,
                        digest.as_slice(),
                        signature,
                    ),
                    AlgorithmName::Sha512 => primitive::pss_verify_sha512(
                        material.bytes().as_slice(),
                        salt,
                        digest.as_slice(),
                        signature,
                    ),
                    _ => vstd::pervasive::unreached(),
                };
                match res {
                    Ok(b) => Ok(b),
                    Err(_) => Err(Error::Operation),
                }
            },
            SignParams::EcdsaParams(_) => Err(Error::NotSupported),
        }
    }
}

/// The handle under which a generation stored its material: the single
/// key's, or the pair's shared one.
pub open spec fn generated_handle<H>(kp: CryptoKeyOrPair<H>) -> H {
    match kp {
        CryptoKeyOrPair::CryptoKey(k) => k@.handle,
        CryptoKeyOrPair::CryptoKeyPair(pair) => pair.private_key@.handle,
    }
}

/// Round-trip law: a signature that `sign` returned is accepted by
/// `verify` with the same parameters against the public half of the same
/// pair. Precisely: if the two keys share one stored record and one
/// algorithm, that record's bytes decode as a private key, `sign` with the
/// private key returned `Ok(sig)`, and `verify` with the public key ran on
/// the same contents, then `verify` returned `Ok(true)`.
pub proof fn lemma_sign_verify_round_trip<H>(
    params: SignParams,
    sk: CryptoKeyView<H>,
    pk: CryptoKeyView<H>,
    contents: Map<H, Seq<u8>>,
    data: Seq<u8>,
    sig: Vec<u8>,
    vr: Result<bool, Error>,
)
    requires
        pk.type_ == KeyType::Public,
        pk.handle == sk.handle,
        pk.algorithm == sk.algorithm,
        contents.dom().contains(sk.handle),
        rsa_private_der_ok(contents[sk.handle]),
        sign_post(params, sk, contents, data, Ok(sig)),
        verify_post(params, pk, contents, sig@, data, vr),
    ensures
        vr == Ok::<bool, Error>(true),
{
    assert(sign_blocked(params, sk, contents) is None);
    assert(rsa_dispatch_error(params, sk, true) is None);
    assert(rsa_hash_of_key(pk) == rsa_hash_of_key(sk));
    assert(rsa_dispatch_error(params, pk, false) is None);
    assert(verify_blocked(params, pk, contents) is None);
    assert(vr is Ok);
}

/// End-to-end round trip: for a pair that `generate_key` returned, `sign`
/// with the private half succeeds whenever nothing blocks the dispatch and
/// the primitive's feasibility condition holds of the stored material, and
/// `verify` with the public half then accepts the signature, on storage
/// contents unchanged since the generation.
pub proof fn lemma_generated_pair_round_trip<H>(
    alg: KeyGenParams,
    extractable: bool,
    usages: Seq<KeyUsage>,
    c0: Map<H, Seq<u8>>,
    c1: Map<H, Seq<u8>>,
    pair: CryptoKeyPair<H>,
    params: SignParams,
    data: Seq<u8>,
    sr: Result<Vec<u8>, Error>,
    vr: Result<bool, Error>,
)
    requires
        generate_key_post(
            alg,
            extractable,
            usages,
            c0,
            c1,
            Ok(CryptoKeyOrPair::CryptoKeyPair(pair)),
        ),
        rsa_dispatch_error(params, pair.private_key@, true) is None,
        rsa_hash_of_key(pair.private_key@) matches Some(h) && sign_feasible(
            params,
            h,
            c1[pair.private_key@.handle],
        ),
        sign_post(params, pair.private_key@, c1, data, sr),
        sr matches Ok(sig) ==> verify_post(params, pair.public_key@, c1, sig@, data, vr),
    ensures
        sr is Ok,
        vr == Ok::<bool, Error>(true),
{
    match alg {
        KeyGenParams::RsaHashedKeyGenParams(_) => {
            assert(sign_blocked(params, pair.private_key@, c1) is None);
            assert(sr is Ok);
            let sig = sr->Ok_0;
            lemma_sign_verify_round_trip(
                params,
                pair.private_key@,
                pair.public_key@,
                c1,
                data,
                sig,
                vr,
            );
        },
        _ => {
            assert(false);
        },
    }
}

/// Freshness law: two generations in sequence never return the same
/// handle, whatever their parameters. The first call leaves its record in
/// the contents; the second stores under a handle the contents did not
/// hold.
pub proof fn lemma_generate_key_fresh_handles<H>(
    alg1: KeyGenParams,
    extractable1: bool,
    usages1: Seq<KeyUsage>,
    alg2: KeyGenParams,
    extractable2: bool,
    usages2: Seq<KeyUsage>,
    c0: Map<H, Seq<u8>>,
    c1: Map<H, Seq<u8>>,
    c2: Map<H, Seq<u8>>,
    k1: CryptoKeyOrPair<H>,
    k2: CryptoKeyOrPair<H>,
)
    requires
        generate_key_post(alg1, extractable1, usages1, c0, c1, Ok(k1)),
        generate_key_post(alg2, extractable2, usages2, c1, c2, Ok(k2)),
    ensures
        generated_handle(k1) != generated_handle(k2),
{
    assert(c1.dom().contains(generated_handle(k1)));
    assert(!c1.dom().contains(generated_handle(k2)));
}

} // verus!