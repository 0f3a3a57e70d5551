//! The boundary to the primitive library: hashing, RSA key generation,
//! RSA signing and verification, and the secure randomness source.
//!
//! Everything here is a narrow, trusted call into an outside crate; the
//! operation engine's own logic is verified against these contracts.

use vstd::prelude::*;

verus! {

/// The SHA-1 digest of the input bytes.
pub uninterp spec fn sha1_of(data: Seq<u8>) -> Seq<u8>;

/// The SHA-256 digest of the input bytes.
pub uninterp spec fn sha256_of(data: Seq<u8>) -> Seq<u8>;

/// The SHA-384 digest of the input bytes.
pub uninterp spec fn sha384_of(data: Seq<u8>) -> Seq<u8>;

/// The SHA-512 digest of the input bytes.
pub uninterp spec fn sha512_of(data: Seq<u8>) -> Seq<u8>;

/// The injected randomness source: every draw the engine makes (key
/// generation, PSS salts, random bytes) comes from one of these, passed in
/// by the embedder, so that a seeded source makes generation reproducible.
#[verifier::external_type_specification]
#[verifier::external_body]
pub struct ExStdRng(rand::rngs::StdRng);

/// Whether `rsa::pkcs1::DecodeRsaPrivateKey::from_pkcs1_der` succeeds on
/// these bytes, i.e. whether they are the PKCS#1 DER of a two-prime RSA
/// private key that the rsa crate accepts.
pub uninterp spec fn rsa_private_der_ok(der: Seq<u8>) -> bool;

/// Whether `rsa::RsaPrivateKey::sign` with PKCS#1 v1.5 padding succeeds on
/// the private key encoded by `der` for a digest of length `hash_len`:
/// the padded message (digest, DER prefix and 11 bytes of framing) must
/// fit the modulus. Success is a function of the key bytes and the hash
/// length alone.
pub uninterp spec fn pkcs1v15_signable(hash_len: int, der: Seq<u8>) -> bool;

/// Whether `rsa::RsaPrivateKey::sign_with_rng` with PSS padding succeeds
/// on the private key encoded by `der` for a digest of length `hash_len`
/// and a salt of length `salt_len`: digest, salt and 2 bytes of framing
/// must fit the modulus. Success is a function of the key bytes, the hash
/// length and the salt length alone; the drawn salt values never decide it.
pub uninterp spec fn pss_signable(hash_len: int, der: Seq<u8>, salt_len: int) -> bool;

/// The canonical 36-character string of the version-4 UUID built from 16
/// bytes: a function of the bytes alone.
pub uninterp spec fn uuid_string_of(bytes: Seq<u8>) -> Seq<char>;

/// What `rsa::RsaPublicKey::verify` returns for PKCS#1 v1.5 signature
/// padding: whether `sig` is the valid signature over `digest` (of length
/// `hash_len`, which identifies the hash and its DER prefix) under the
/// public half of the private key encoded by `der`.
pub uninterp spec fn pkcs1v15_accepts(
    hash_len: int,
    der: Seq<u8>,
    digest: Seq<u8>,
    sig: Seq<u8>,
) -> bool;

/// What `rsa::RsaPublicKey::verify` returns for PSS padding: whether `sig`
/// is a valid PSS signature over `digest` (of length `hash_len`, which
/// identifies the hash used for the message and the mask generation) with
/// the given salt length, under the public half of the private key encoded
/// by `der`.
pub uninterp spec fn pss_accepts(
    hash_len: int,
    der: Seq<u8>,
    salt_len: int,
    digest: Seq<u8>,
    sig: Seq<u8>,
) -> bool;

/// Relies on sha1::Sha1 via the Digest trait: a 20-byte digest that is a
/// function of the input bytes alone.
#[verifier::external_body]
pub(crate) fn sha1_digest(data: &[u8]) -> (r: Vec<u8>)
    ensures
        r@ == sha1_of(data@),
        r@.len() == 20,
{
    <sha1::Sha1 as sha1::Digest>::digest(data).to_vec()
}

/// Relies on sha2::Sha256 via the Digest trait: a 32-byte digest that is a
/// function of the input bytes alone.
#[verifier::external_body]
pub(crate) fn sha256_digest(data: &[u8]) -> (r: Vec<u8>)
    ensures
        r@ == sha256_of(data@),
        r@.len() == 32,
{
    <sha2::Sha256 as sha2::Digest>::digest(data).to_vec()
}

/// Relies on sha2::Sha384 via the Digest trait: a 48-byte digest that is a
/// function of the input bytes alone.
#[verifier::external_body]
pub(crate) fn sha384_digest(data: &[u8]) -> (r: Vec<u8>)
    ensures
        r@ == sha384_of(data@),
        r@.len() == 48,
{
    <sha2::Sha384 as sha2::Digest>::digest(data).to_vec()
}

/// Relies on sha2::Sha512 via the Digest trait: a 64-byte digest that is a
/// function of the input bytes alone.
#[verifier::external_body]
pub(crate) fn sha512_digest(data: &[u8]) -> (r: Vec<u8>)
    ensures
        r@ == sha512_of(data@),
        r@.len() == 64,
{
    <sha2::Sha512 as sha2::Digest>::digest(data).to_vec()
}

/// Relies on rsa::RsaPrivateKey::new_with_exp (drawing from the injected
/// randomness source) and on pkcs1::EncodeRsaPrivateKey::to_pkcs1_der.
/// The DER that to_pkcs1_der emits for a freshly generated two-prime key
/// decodes again through from_pkcs1_der. The `requires` keeps out every
/// input on which the generator would not return: an even exponent has no
/// inverse modulo any prime totient; below 64 bits the reachable prime
/// space is so small that an adverse odd exponent can block every prime
/// pair; an oversized modulus is not generated in reasonable time.
#[verifier::external_body]
pub(crate) fn rsa_generate_pkcs1_der(
    rng: &mut rand::rngs::StdRng,
    bits: usize,
    exponent: &[u8; 3],
) -> (r: Result<Vec<u8>, ()>)
    requires
        64 <= bits <= 16384,
        exponent@[2] % 2 == 1,
    ensures
        r matches Ok(der) ==> rsa_private_der_ok(der@),
{
    let exp = rsa::BigUint::from_bytes_be(exponent);
    let key = rsa::RsaPrivateKey::new_with_exp(rng, bits, &exp).map_err(|_| ())?;
    let der = rsa::pkcs1::EncodeRsaPrivateKey::to_pkcs1_der(&key).map_err(|_| ())?;
    Ok(der.as_bytes().to_vec())
}

/// Relies on rsa::RsaPrivateKey::sign with Pkcs1v15Sign padding for SHA-1
/// (RFC 8017): a signature it returns is exactly one that
/// rsa::RsaPublicKey::verify accepts for the same padding, digest and key.
/// Signing is deterministic; on a decodable key with a right-sized digest
/// it succeeds exactly when the padded message fits the modulus.
#[verifier::external_body]
pub(crate) fn pkcs1v15_sign_sha1(der: &[u8], digest: &[u8]) -> (r: Result<Vec<u8>, ()>)
    ensures
        r matches Ok(sig) ==> pkcs1v15_accepts(20, der@, digest@, sig@),
        rsa_private_der_ok(der@) && digest@.len() == 20 ==> (r is Ok <==> pkcs1v15_signable(
            20,
            der@,
        )),
{
    let key = <rsa::RsaPrivateKey as rsa::pkcs1::DecodeRsaPrivateKey>::from_pkcs1_der(der)
        .map_err(|_| ())?;
    key.sign(rsa::Pkcs1v15Sign::new::<sha1::Sha1>(), digest).map_err(|_| ())
}

/// Relies on rsa::RsaPrivateKey::sign with Pkcs1v15Sign padding for SHA-256
/// (RFC 8017): a signature it returns is exactly one that
/// rsa::RsaPublicKey::verify accepts for the same padding, digest and key.
/// Signing is deterministic; on a decodable key with a right-sized digest
/// it succeeds exactly when the padded message fits the modulus.
#[verifier::external_body]
pub(crate) fn pkcs1v15_sign_sha256(der: &[u8], digest: &[u8]) -> (r: Result<Vec<u8>, ()>)
    ensures
        r matches Ok(sig) ==> pkcs1v15_accepts(32, der@, digest@, sig@),
        rsa_private_der_ok(der@) && digest@.len() == 32 ==> (r is Ok <==> pkcs1v15_signable(
            32,
            der@,
        )),
{
    let key = <rsa::RsaPrivateKey as rsa::pkcs1::DecodeRsaPrivateKey>::from_pkcs1_der(der)
        .map_err(|_| ())?;
    key.sign(rsa::Pkcs1v15Sign::new::<sha2::Sha256>(), digest).map_err(|_| ())
}

/// Relies on rsa::RsaPrivateKey::sign with Pkcs1v15Sign padding for SHA-384
/// (RFC 8017): a signature it returns is exactly one that
/// rsa::RsaPublicKey::verify accepts for the same padding, digest and key.
/// Signing is deterministic; on a decodable key with a right-sized digest
/// it succeeds exactly when the padded message fits the modulus.
#[verifier::external_body]
pub(crate) fn pkcs1v15_sign_sha384(der: &[u8], digest: &[u8]) -> (r: Result<Vec<u8>, ()>)
    ensures
        r matches Ok(sig) ==> pkcs1v15_accepts(48, der@, digest@, sig@),
        rsa_private_der_ok(der@) && digest@.len() == 48 ==> (r is Ok <==> pkcs1v15_signable(
            48,
            der@,
        )),
{
    let key = <rsa::RsaPrivateKey as rsa::pkcs1::DecodeRsaPrivateKey>::from_pkcs1_der(der)
        .map_err(|_| ())?;
    key.sign(rsa::Pkcs1v15Sign::new::<sha2::Sha384>(), digest).map_err(|_| ())
}

/// Relies on rsa::RsaPrivateKey::sign with Pkcs1v15Sign padding for SHA-512
/// (RFC 8017): a signature it returns is exactly one that
/// rsa::RsaPublicKey::verify accepts for the same padding, digest and key.
/// Signing is deterministic; on a decodable key with a right-sized digest
/// it succeeds exactly when the padded message fits the modulus.
#[verifier::external_body]
pub(crate) fn pkcs1v15_sign_sha512(der: &[u8], digest: &[u8]) -> (r: Result<Vec<u8>, ()>)
    ensures
        r matches Ok(sig) ==> pkcs1v15_accepts(64, der@, digest@, sig@),
        rsa_private_der_ok(der@) && digest@.len() == 64 ==> (r is Ok <==> pkcs1v15_signable(
            64,
            der@,
        )),
{
    let key = <rsa::RsaPrivateKey as rsa::pkcs1::DecodeRsaPrivateKey>::from_pkcs1_der(der)
        .map_err(|_| ())?;
    key.sign(rsa::Pkcs1v15Sign::new::<sha2::Sha512>(), digest).map_err(|_| ())
}

/// Relies on rsa::RsaPublicKey::verify with Pkcs1v15Sign padding for SHA-1:
/// deterministic in the key bytes, digest and signature; `pkcs1v15_accepts`
/// names its outcome. Fails only when the DER does not decode.
#[verifier::external_body]
pub(crate) fn pkcs1v15_verify_sha1(der: &[u8], digest: &[u8], sig: &[u8]) -> (r: Result<
    bool,
    (),
>)
    ensures
        rsa_private_der_ok(der@) ==> r is Ok,
        r matches Ok(b) ==> b == pkcs1v15_accepts(20, der@, digest@, sig@),
{
    let key = <rsa::RsaPrivateKey as rsa::pkcs1::DecodeRsaPrivateKey>::from_pkcs1_der(der)
        .map_err(|_| ())?;
    Ok(key.to_public_key().verify(rsa::Pkcs1v15Sign::new::<sha1::Sha1>(), digest, sig).is_ok())
}

/// Relies on rsa::RsaPublicKey::verify with Pkcs1v15Sign padding for SHA-256:
/// deterministic in the key bytes, digest and signature; `pkcs1v15_accepts`
/// names its outcome. Fails only when the DER does not decode.
#[verifier::external_body]
pub(crate) fn pkcs1v15_verify_sha256(der: &[u8], digest: &[u8], sig: &[u8]) -> (r: Result<
    bool,
    (),
>)
    ensures
        rsa_private_der_ok(der@) ==> r is Ok,
        r matches Ok(b) ==> b == pkcs1v15_accepts(32, der@, digest@, sig@),
{
    let key = <rsa::RsaPrivateKey as rsa::pkcs1::DecodeRsaPrivateKey>::from_pkcs1_der(der)
        .map_err(|_| ())?;
    Ok(key.to_public_key().verify(rsa::Pkcs1v15Sign::new::<sha2::Sha256>(), digest, sig).is_ok())
}

/// Relies on rsa::RsaPublicKey::verify with Pkcs1v15Sign padding for SHA-384:
/// deterministic in the key bytes, digest and signature; `pkcs1v15_accepts`
/// names its outcome. Fails only when the DER does not decode.
#[verifier::external_body]
pub(crate) fn pkcs1v15_verify_sha384(der: &[u8], digest: &[u8], sig: &[u8]) -> (r: Result<
    bool,
    (),
>)
    ensures
        rsa_private_der_ok(der@) ==> r is Ok,
        r matches Ok(b) ==> b == pkcs1v15_accepts(48, der@, digest@, sig@),
{
    let key = <rsa::RsaPrivateKey as rsa::pkcs1::DecodeRsaPrivateKey>::from_pkcs1_der(der)
        .map_err(|_| ())?;
    Ok(key.to_public_key().verify(rsa::Pkcs1v15Sign::new::<sha2::Sha384>(), digest, sig).is_ok())
}

/// Relies on rsa::RsaPublicKey::verify with Pkcs1v15Sign padding for SHA-512:
/// deterministic in the key bytes, digest and signature; `pkcs1v15_accepts`
/// names its outcome. Fails only when the DER does not decode.
#[verifier::external_body]
pub(crate) fn pkcs1v15_verify_sha512(der: &[u8], digest: &[u8], sig: &[u8]) -> (r: Result<
    bool,
    (),
>)
    ensures
        rsa_private_der_ok(der@) ==> r is Ok,
        r matches Ok(b) ==> b == pkcs1v15_accepts(64, der@, digest@, sig@),
{
    let key = <rsa::RsaPrivateKey as rsa::pkcs1::DecodeRsaPrivateKey>::from_pkcs1_der(der)
        .map_err(|_| ())?;
    Ok(key.to_public_key().verify(rsa::Pkcs1v15Sign::new::<sha2::Sha512>(), digest, sig).is_ok())
}

/// Relies on rsa::RsaPrivateKey::sign_with_rng with Pss padding for SHA-1
/// (RFC 8017, salt drawn from the injected randomness source): a
/// signature it returns is exactly one that rsa::RsaPublicKey::verify
/// accepts for PSS with the same hash, salt length, digest and key.
/// On a decodable key with a right-sized digest, success is decided by the
/// key, hash and salt lengths alone, never by the salt values drawn.
#[verifier::external_body]
pub(crate) fn pss_sign_sha1(
    rng: &mut rand::rngs::StdRng,
    der: &[u8],
    salt_len: usize,
    digest: &[u8],
) -> (r: Result<Vec<u8>, ()>)
    requires
        salt_len <= 4096,
    ensures
        r matches Ok(sig) ==> pss_accepts(20, der@, salt_len as int, digest@, sig@),
        rsa_private_der_ok(der@) && digest@.len() == 20 ==> (r is Ok <==> pss_signable(
            20,
            der@,
            salt_len as int,
        )),
{
    let key = <rsa::RsaPrivateKey as rsa::pkcs1::DecodeRsaPrivateKey>::from_pkcs1_der(der)
        .map_err(|_| ())?;
    let padding = rsa::Pss::new_with_salt::<sha1::Sha1>(salt_len);
    key.sign_with_rng(rng, padding, digest).map_err(|_| ())
}

/// Relies on rsa::RsaPrivateKey::sign_with_rng with Pss padding for SHA-256
/// (RFC 8017, salt drawn from the injected randomness source): a
/// signature it returns is exactly one that rsa::RsaPublicKey::verify
/// accepts for PSS with the same hash, salt length, digest and key.
/// On a decodable key with a right-sized digest, success is decided by the
/// key, hash and salt lengths alone, never by the salt values drawn.
#[verifier::external_body]
pub(crate) fn pss_sign_sha256(
    rng: &mut rand::rngs::StdRng,
    der: &[u8],
    salt_len: usize,
    digest: &[u8],
) -> (r: Result<Vec<u8>, ()>)
    requires
        salt_len <= 4096,
    ensures
        r matches Ok(sig) ==> pss_accepts(32, der@, salt_len as int, digest@, sig@),
        rsa_private_der_ok(der@) && digest@.len() == 32 ==> (r is Ok <==> pss_signable(
            32,
            der@,
            salt_len as int,
        )),
{
    let key = <rsa::RsaPrivateKey as rsa::pkcs1::DecodeRsaPrivateKey>::from_pkcs1_der(der)
        .map_err(|_| ())?;
    let padding = rsa::Pss::new_with_salt::<sha2::Sha256>(salt_len);
    key.sign_with_rng(rng, padding, digest).map_err(|_| ())
}

/// Relies on rsa::RsaPrivateKey::sign_with_rng with Pss padding for SHA-384
/// (RFC 8017, salt drawn from the injected randomness source): a
/// signature it returns is exactly one that rsa::RsaPublicKey::verify
/// accepts for PSS with the same hash, salt length, digest and key.
/// On a decodable key with a right-sized digest, success is decided by the
/// key, hash and salt lengths alone, never by the salt values drawn.
#[verifier::external_body]
pub(crate) fn pss_sign_sha384(
    rng: &mut rand::rngs::StdRng,
    der: &[u8],
    salt_len: usize,
    digest: &[u8],
) -> (r: Result<Vec<u8>, ()>)
    requires
        salt_len <= 4096,
    ensures
        r matches Ok(sig) ==> pss_accepts(48, der@, salt_len as int, digest@, sig@),
        rsa_private_der_ok(der@) && digest@.len() == 48 ==> (r is Ok <==> pss_signable(
            48,
            der@,
            salt_len as int,
        )),
{
    let key = <rsa::RsaPrivateKey as rsa::pkcs1::DecodeRsaPrivateKey>::from_pkcs1_der(der)
        .map_err(|_| ())?;
    let padding = rsa::Pss::new_with_salt::<sha2::Sha384>(salt_len);
    key.sign_with_rng(rng, padding, digest).map_err(|_| ())
}

/// Relies on rsa::RsaPrivateKey::sign_with_rng with Pss padding for SHA-512
/// (RFC 8017, salt drawn from the injected randomness source): a
/// signature it returns is exactly one that rsa::RsaPublicKey::verify
/// accepts for PSS with the same hash, salt length, digest and key.
/// On a decodable key with a right-sized digest, success is decided by the
/// key, hash and salt lengths alone, never by the salt values drawn.
#[verifier::external_body]
pub(crate) fn pss_sign_sha512(
    rng: &mut rand::rngs::StdRng,
    der: &[u8],
    salt_len: usize,
    digest: &[u8],
) -> (r: Result<Vec<u8>, ()>)
    requires
        salt_len <= 4096,
    ensures
        r matches Ok(sig) ==> pss_accepts(64, der@, salt_len as int, digest@, sig@),
        rsa_private_der_ok(der@) && digest@.len() == 64 ==> (r is Ok <==> pss_signable(
            64,
            der@,
            salt_len as int,
        )),
{
    let key = <rsa::RsaPrivateKey as rsa::pkcs1::DecodeRsaPrivateKey>::from_pkcs1_der(der)
        .map_err(|_| ())?;
    let padding = rsa::Pss::new_with_salt::<sha2::Sha512>(salt_len);
    key.sign_with_rng(rng, padding, digest).map_err(|_| ())
}

/// Relies on rsa::RsaPublicKey::verify with Pss padding for SHA-1:
/// deterministic in the key bytes, salt length, digest and signature;
/// `pss_accepts` names its outcome. Fails only when the DER does not
/// decode. The salt bound keeps the length arithmetic inside the padding
/// check from overflowing on any target.
#[verifier::external_body]
pub(crate) fn pss_verify_sha1(der: &[u8], salt_len: usize, digest: &[u8], sig: &[u8]) -> (r:
    Result<bool, ()>)
    requires
        salt_len <= 4096,
    ensures
        rsa_private_der_ok(der@) ==> r is Ok,
        r matches Ok(b) ==> b == pss_accepts(20, der@, salt_len as int, digest@, sig@),
{
    let key = <rsa::RsaPrivateKey as rsa::pkcs1::DecodeRsaPrivateKey>::from_pkcs1_der(der)
        .map_err(|_| ())?;
    let padding = rsa::Pss::new_with_salt::<sha1::Sha1>(salt_len);
    Ok(key.to_public_key().verify(padding, digest, sig).is_ok())
}

/// Relies on rsa::RsaPublicKey::verify with Pss padding for SHA-256:
/// deterministic in the key bytes, salt length, digest and signature;
/// `pss_accepts` names its outcome. Fails only when the DER does not
/// decode. The salt bound keeps the length arithmetic inside the padding
/// check from overflowing on any target.
#[verifier::external_body]
pub(crate) fn pss_verify_sha256(der: &[u8], salt_len: usize, digest: &[u8], sig: &[u8]) -> (r:
    Result<bool, ()>)
    requires
        salt_len <= 4096,
    ensures
        rsa_private_der_ok(der@) ==> r is Ok,
        r matches Ok(b) ==> b == pss_accepts(32, der@, salt_len as int, digest@, sig@),
{
    let key = <rsa::RsaPrivateKey as rsa::pkcs1::DecodeRsaPrivateKey>::from_pkcs1_der(der)
        .map_err(|_| ())?;
    let padding = rsa::Pss::new_with_salt::<sha2::Sha256>(salt_len);
    Ok(key.to_public_key().verify(padding, digest, sig).is_ok())
}

/// Relies on rsa::RsaPublicKey::verify with Pss padding for SHA-384:
/// deterministic in the key bytes, salt length, digest and signature;
/// `pss_accepts` names its outcome. Fails only when the DER does not
/// decode. The salt bound keeps the length arithmetic inside the padding
/// check from overflowing on any target.
#[verifier::external_body]
pub(crate) fn pss_verify_sha384(der: &[u8], salt_len: usize, digest: &[u8], sig: &[u8]) -> (r:
    Result<bool, ()>)
    requires
        salt_len <= 4096,
    ensures
        rsa_private_der_ok(der@) ==> r is Ok,
        r matches Ok(b) ==> b == pss_accepts(48, der@, salt_len as int, digest@, sig@),
{
    let key = <rsa::RsaPrivateKey as rsa::pkcs1::DecodeRsaPrivateKey>::from_pkcs1_der(der)
        .map_err(|_| ())?;
    let padding = rsa::Pss::new_with_salt::<sha2::Sha384>(salt_len);
    Ok(key.to_public_key().verify(padding, digest, sig).is_ok())
}

/// Relies on rsa::RsaPublicKey::verify with Pss padding for SHA-512:
/// deterministic in the key bytes, salt length, digest and signature;
/// `pss_accepts` names its outcome. Fails only when the DER does not
/// decode. The salt bound keeps the length arithmetic inside the padding
/// check from overflowing on any target.
#[verifier::external_body]
pub(crate) fn pss_verify_sha512(der: &[u8], salt_len: usize, digest: &[u8], sig: &[u8]) -> (r:
    Result<bool, ()>)
    requires
        salt_len <= 4096,
    ensures
        rsa_private_der_ok(der@) ==> r is Ok,
        r matches Ok(b) ==> b == pss_accepts(64, der@, salt_len as int, digest@, sig@),
{
    let key = <rsa::RsaPrivateKey as rsa::pkcs1::DecodeRsaPrivateKey>::from_pkcs1_der(der)
        .map_err(|_| ())?;
    let padding = rsa::Pss::new_with_salt::<sha2::Sha512>(salt_len);
    Ok(key.to_public_key().verify(padding, digest, sig).is_ok())
}

/// Relies on uuid::Builder and on uuid::Uuid's Display output (the
/// hyphenated, lower-case form): stamps the RFC 4122 variant and
/// version-4 bits onto the 16 given bytes and renders the canonical
/// 8-4-4-4-12 string; `uuid_string_of` names the rendering, which depends
/// on the bytes alone. The version nibble renders as the character `4`,
/// the variant nibble as one of `8`, `9`, `a`, `b`.
#[verifier::external_body]
pub(crate) fn uuid_v4_string(bytes: &Vec<u8>) -> (r: String)
    requires
        bytes@.len() == 16,
    ensures
        r@ == uuid_string_of(bytes@),
        r@.len() == 36,
        r@[8] == '-' && r@[13] == '-' && r@[18] == '-' && r@[23] == '-',
        r@[14] == '4',
        r@[19] == '8' || r@[19] == '9' || r@[19] == 'a' || r@[19] == 'b',
{
    let mut b = [0u8; 16];
    b.copy_from_slice(bytes.as_slice());
    let uuid = uuid::Builder::from_bytes(b)
        .with_variant(uuid::Variant::RFC4122)
        .with_version(uuid::Version::Random)
        .into_uuid();
    format!("{}", uuid)
}

/// Relies on rand::RngCore::fill_bytes for rand::rngs::StdRng: fills the
/// buffer in place from the injected source, keeping its length. StdRng's
/// block generator cannot fail, so the call always completes.
#[verifier::external_body]
pub(crate) fn fill_random_bytes(rng: &mut rand::rngs::StdRng, buf: &mut Vec<u8>)
    ensures
        final(buf)@.len() == old(buf)@.len(),
{
    rand::RngCore::fill_bytes(rng, buf.as_mut_slice())
}

} // verus!
