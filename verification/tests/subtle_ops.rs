use webcrypto::storage::InMemoryVault;
use webcrypto::storage::KeyStorage;
use webcrypto::subtle::AesKeyGenParams;
use webcrypto::subtle::Algorithm;
use webcrypto::subtle::AlgorithmName;
use webcrypto::subtle::CryptoKeyOrPair;
use webcrypto::subtle::CryptoKeyPair;
use webcrypto::subtle::EcKeyGenParams;
use webcrypto::subtle::EcdsaParams;
use webcrypto::subtle::Error;
use webcrypto::subtle::HashAlgorithmIdentifer;
use webcrypto::subtle::HmacKeyGenParams;
use webcrypto::subtle::KeyGenParams;
use webcrypto::subtle::KeyType;
use webcrypto::subtle::KeyUsage;
use webcrypto::subtle::NamedCurve;
use webcrypto::subtle::RsaHashedKeyGenParams;
use webcrypto::subtle::RsaPssParams;
use webcrypto::subtle::RsassaPkcs1V15Params;
use webcrypto::subtle::SignParams;
use webcrypto::Context;

fn rsa_params(name: AlgorithmName, hash: AlgorithmName, bits: usize) -> KeyGenParams {
    KeyGenParams::RsaHashedKeyGenParams(RsaHashedKeyGenParams {
        name,
        hash: HashAlgorithmIdentifer { name: hash },
        modulus_length: bits,
        public_exponent: [0x01, 0x00, 0x01],
    })
}

fn gen_pair(
    ctx: &mut Context<InMemoryVault>,
    name: AlgorithmName,
    hash: AlgorithmName,
    bits: usize,
) -> CryptoKeyPair<usize> {
    match ctx
        .subtle
        .generate_key(rsa_params(name, hash, bits), true, vec![KeyUsage::Sign, KeyUsage::Verify])
        .unwrap()
    {
        CryptoKeyOrPair::CryptoKeyPair(pair) => pair,
        _ => panic!("Expected CryptoKeyPair"),
    }
}

fn pss(salt_length: u32) -> SignParams {
    SignParams::RsaPssParams(RsaPssParams { name: AlgorithmName::RsaPss, salt_length })
}

fn pkcs() -> SignParams {
    SignParams::RsassaPkcs1V15Params(RsassaPkcs1V15Params { name: AlgorithmName::RsassaPkcs1V15 })
}

#[test]
fn test_generate_key() {
    let mut ctx = Context::new(rand::SeedableRng::from_entropy(), InMemoryVault::new());

    let key = ctx
        .subtle
        .generate_key(
            KeyGenParams::RsaHashedKeyGenParams(RsaHashedKeyGenParams {
                modulus_length: 2048,
                public_exponent: [0x01, 0x00, 0x01],
                name: AlgorithmName::RsaPss,
                hash: HashAlgorithmIdentifer { name: AlgorithmName::Sha256 },
            }),
            true,
            vec![],
        )
        .unwrap();

    if let CryptoKeyOrPair::CryptoKeyPair(key) = key {
        assert_eq!(key.public_key.extractable, true);
        assert_eq!(key.private_key.extractable, true);
    } else {
        panic!("Expected CryptoKeyPair");
    }
}

#[test]
fn test_sign_verify() {
    let mut ctx = Context::new(rand::SeedableRng::from_entropy(), InMemoryVault::new());

    let key = ctx
        .subtle
        .generate_key(
            KeyGenParams::RsaHashedKeyGenParams(RsaHashedKeyGenParams {
                modulus_length: 2048,
                public_exponent: [0x01, 0x00, 0x01],
                name: AlgorithmName::RsaPss,
                hash: HashAlgorithmIdentifer { name: AlgorithmName::Sha256 },
            }),
            true,
            vec![],
        )
        .unwrap();

    if let CryptoKeyOrPair::CryptoKeyPair(key) = key {
        assert_eq!(key.public_key.extractable, true);
        assert_eq!(key.private_key.extractable, true);

        let sig = ctx.subtle.sign(pss(20), &key.private_key, b"Hello, world!").unwrap();

        let verified = ctx
            .subtle
            .verify(pss(20), &key.public_key, &sig, b"Hello, world!")
            .unwrap();
        assert_eq!(verified, true);
    } else {
        panic!("Expected CryptoKeyPair");
    }
}

#[test]
fn scenario_truncated_data_verifies_false() {
    let mut ctx = Context::new(rand::SeedableRng::from_entropy(), InMemoryVault::new());
    let pair = gen_pair(&mut ctx, AlgorithmName::RsaPss, AlgorithmName::Sha256, 2048);

    let sig = ctx.subtle.sign(pss(20), &pair.private_key, b"Hello, world!").unwrap();
    let verified = ctx.subtle.verify(pss(20), &pair.public_key, &sig, b"Hello, world").unwrap();
    assert_eq!(verified, false);
}

#[test]
fn rsa_generation_with_encrypt_usage_fails() {
    let mut ctx = Context::new(rand::SeedableRng::from_entropy(), InMemoryVault::new());
    let r = ctx.subtle.generate_key(
        rsa_params(AlgorithmName::RsaPss, AlgorithmName::Sha256, 1024),
        true,
        vec![KeyUsage::Encrypt],
    );
    assert!(matches!(r, Err(Error::Syntax)));
}

#[test]
fn rsa_generation_with_sign_verify_usages_succeeds() {
    let mut ctx = Context::new(rand::SeedableRng::from_entropy(), InMemoryVault::new());
    let pair = gen_pair(&mut ctx, AlgorithmName::RsaPss, AlgorithmName::Sha256, 1024);
    assert_eq!(pair.private_key.usages, vec![KeyUsage::Sign, KeyUsage::Verify]);
    assert_eq!(pair.public_key.usages, vec![KeyUsage::Sign, KeyUsage::Verify]);
}

#[test]
fn sign_with_public_key_fails_with_access_error() {
    let mut ctx = Context::new(rand::SeedableRng::from_entropy(), InMemoryVault::new());
    let pair = gen_pair(&mut ctx, AlgorithmName::RsaPss, AlgorithmName::Sha256, 1024);

    let r = ctx.subtle.sign(pss(20), &pair.public_key, b"data");
    assert!(matches!(r, Err(Error::InvalidAccess)));
}

#[test]
fn verify_with_private_key_fails_with_access_error() {
    let mut ctx = Context::new(rand::SeedableRng::from_entropy(), InMemoryVault::new());
    let pair = gen_pair(&mut ctx, AlgorithmName::RsaPss, AlgorithmName::Sha256, 1024);

    let sig = ctx.subtle.sign(pss(20), &pair.private_key, b"data").unwrap();
    let r = ctx.subtle.verify(pss(20), &pair.private_key, &sig, b"data");
    assert!(matches!(r, Err(Error::InvalidAccess)));
}

#[test]
fn key_pair_metadata_matches_descriptor() {
    let mut ctx = Context::new(rand::SeedableRng::from_entropy(), InMemoryVault::new());
    let pair = gen_pair(&mut ctx, AlgorithmName::RsassaPkcs1V15, AlgorithmName::Sha384, 1024);

    assert_eq!(pair.private_key.type_, KeyType::Private);
    assert_eq!(pair.public_key.type_, KeyType::Public);
    assert_eq!(pair.private_key.handle(), pair.public_key.handle());
    for key in [&pair.private_key, &pair.public_key] {
        match key.algorithm {
            Algorithm::RsaHashedKeyAlgorithm(a) => {
                assert_eq!(a.name, AlgorithmName::RsassaPkcs1V15);
                assert_eq!(a.hash.name, AlgorithmName::Sha384);
                assert_eq!(a.modulus_length, 1024);
                assert_eq!(a.public_exponent, [0x01, 0x00, 0x01]);
            }
            _ => panic!("Expected RsaHashedKeyAlgorithm"),
        }
    }
}

#[test]
fn sequential_generations_use_distinct_handles() {
    let mut ctx = Context::new(rand::SeedableRng::from_entropy(), InMemoryVault::new());
    let aes = KeyGenParams::AesKeyGenParams(AesKeyGenParams {
        name: AlgorithmName::AesGcm,
        length: 256,
    });
    let k1 = match ctx.subtle.generate_key(aes, true, vec![]).unwrap() {
        CryptoKeyOrPair::CryptoKey(k) => k,
        _ => panic!("Expected CryptoKey"),
    };
    let k2 = match ctx.subtle.generate_key(aes, true, vec![]).unwrap() {
        CryptoKeyOrPair::CryptoKey(k) => k,
        _ => panic!("Expected CryptoKey"),
    };
    assert_ne!(k1.handle(), k2.handle());
}

#[test]
fn aes_256_key_yields_32_bytes_of_secret_material() {
    let mut ctx = Context::new(rand::SeedableRng::from_entropy(), InMemoryVault::new());
    let r = ctx
        .subtle
        .generate_key(
            KeyGenParams::AesKeyGenParams(AesKeyGenParams {
                name: AlgorithmName::AesGcm,
                length: 256,
            }),
            false,
            vec![KeyUsage::Encrypt, KeyUsage::Decrypt],
        )
        .unwrap();
    let key = match r {
        CryptoKeyOrPair::CryptoKey(k) => k,
        _ => panic!("Expected CryptoKey"),
    };
    assert_eq!(key.type_, KeyType::Secret);
    let material = ctx.subtle.storage().get(*key.handle()).unwrap();
    assert_eq!(material.len(), 32);
}

#[test]
fn hmac_key_yields_length_bits_over_eight_bytes() {
    let mut ctx = Context::new(rand::SeedableRng::from_entropy(), InMemoryVault::new());
    let r = ctx
        .subtle
        .generate_key(
            KeyGenParams::HmacKeyGenParams(HmacKeyGenParams {
                name: AlgorithmName::Hmac,
                hash: HashAlgorithmIdentifer { name: AlgorithmName::Sha256 },
                length: 512,
            }),
            false,
            vec![KeyUsage::Sign, KeyUsage::Verify],
        )
        .unwrap();
    let key = match r {
        CryptoKeyOrPair::CryptoKey(k) => k,
        _ => panic!("Expected CryptoKey"),
    };
    assert_eq!(key.type_, KeyType::Secret);
    let material = ctx.subtle.storage().get(*key.handle()).unwrap();
    assert_eq!(material.len(), 64);
}

#[test]
fn ec_generation_is_not_supported() {
    let mut ctx = Context::new(rand::SeedableRng::from_entropy(), InMemoryVault::new());
    let r = ctx.subtle.generate_key(
        KeyGenParams::EcKeyGenParams(EcKeyGenParams {
            name: AlgorithmName::Ecdsa,
            named_curve: NamedCurve::P256,
        }),
        true,
        vec![],
    );
    assert!(matches!(r, Err(Error::NotSupported)));
}

#[test]
fn unknown_name_in_rsa_family_is_not_supported() {
    let mut ctx = Context::new(rand::SeedableRng::from_entropy(), InMemoryVault::new());
    let r = ctx.subtle.generate_key(
        rsa_params(AlgorithmName::AesGcm, AlgorithmName::Sha256, 1024),
        true,
        vec![],
    );
    assert!(matches!(r, Err(Error::NotSupported)));
}

#[test]
fn unknown_name_in_aes_family_is_not_supported() {
    let mut ctx = Context::new(rand::SeedableRng::from_entropy(), InMemoryVault::new());
    let r = ctx.subtle.generate_key(
        KeyGenParams::AesKeyGenParams(AesKeyGenParams {
            name: AlgorithmName::Hmac,
            length: 128,
        }),
        true,
        vec![],
    );
    assert!(matches!(r, Err(Error::NotSupported)));
}

#[test]
fn even_public_exponent_fails_with_operation_error() {
    let mut ctx = Context::new(rand::SeedableRng::from_entropy(), InMemoryVault::new());
    let r = ctx.subtle.generate_key(
        KeyGenParams::RsaHashedKeyGenParams(RsaHashedKeyGenParams {
            name: AlgorithmName::RsaPss,
            hash: HashAlgorithmIdentifer { name: AlgorithmName::Sha256 },
            modulus_length: 1024,
            public_exponent: [0x01, 0x00, 0x00],
        }),
        true,
        vec![],
    );
    assert!(matches!(r, Err(Error::Operation)));
}

#[test]
fn ecdsa_sign_params_are_not_supported() {
    let mut ctx = Context::new(rand::SeedableRng::from_entropy(), InMemoryVault::new());
    let pair = gen_pair(&mut ctx, AlgorithmName::RsaPss, AlgorithmName::Sha256, 1024);
    let params = SignParams::EcdsaParams(EcdsaParams {
        name: AlgorithmName::Ecdsa,
        hash: HashAlgorithmIdentifer { name: AlgorithmName::Sha256 },
    });
    let r = ctx.subtle.sign(params, &pair.private_key, b"data");
    assert!(matches!(r, Err(Error::NotSupported)));
}

#[test]
fn unrecognized_hash_name_fails_with_syntax_error() {
    let mut ctx = Context::new(rand::SeedableRng::from_entropy(), InMemoryVault::new());
    // generation does not validate the hash name; signing does
    let pair = gen_pair(&mut ctx, AlgorithmName::RsaPss, AlgorithmName::RsaPss, 1024);
    let r = ctx.subtle.sign(pss(20), &pair.private_key, b"data");
    assert!(matches!(r, Err(Error::Syntax)));
    let rv = ctx.subtle.verify(pss(20), &pair.public_key, b"sig", b"data");
    assert!(matches!(rv, Err(Error::Syntax)));
}

#[test]
fn foreign_handle_is_an_internal_consistency_error() {
    let mut ctx = Context::new(rand::SeedableRng::from_entropy(), InMemoryVault::new());
    let pair = gen_pair(&mut ctx, AlgorithmName::RsaPss, AlgorithmName::Sha256, 1024);

    // a handle is only meaningful relative to the storage that issued it
    let mut other = Context::<InMemoryVault>::new(rand::SeedableRng::from_entropy(), InMemoryVault::new());
    let r = other.subtle.sign(pss(20), &pair.private_key, b"data");
    assert!(matches!(r, Err(Error::InternalConsistency)));
}

#[test]
fn pss_round_trip_sha1() {
    let mut ctx = Context::new(rand::SeedableRng::from_entropy(), InMemoryVault::new());
    let pair = gen_pair(&mut ctx, AlgorithmName::RsaPss, AlgorithmName::Sha1, 1024);
    for salt in [0u32, 20] {
        let sig = ctx.subtle.sign(pss(salt), &pair.private_key, b"round trip").unwrap();
        assert!(ctx.subtle.verify(pss(salt), &pair.public_key, &sig, b"round trip").unwrap());
    }
}

#[test]
fn pss_round_trip_sha256() {
    let mut ctx = Context::new(rand::SeedableRng::from_entropy(), InMemoryVault::new());
    let pair = gen_pair(&mut ctx, AlgorithmName::RsaPss, AlgorithmName::Sha256, 1024);
    for salt in [0u32, 20, 32] {
        let sig = ctx.subtle.sign(pss(salt), &pair.private_key, b"round trip").unwrap();
        assert!(ctx.subtle.verify(pss(salt), &pair.public_key, &sig, b"round trip").unwrap());
    }
}

#[test]
fn pss_round_trip_sha384() {
    let mut ctx = Context::new(rand::SeedableRng::from_entropy(), InMemoryVault::new());
    let pair = gen_pair(&mut ctx, AlgorithmName::RsaPss, AlgorithmName::Sha384, 1024);
    let sig = ctx.subtle.sign(pss(20), &pair.private_key, b"round trip").unwrap();
    assert!(ctx.subtle.verify(pss(20), &pair.public_key, &sig, b"round trip").unwrap());
}

#[test]
fn pss_round_trip_sha512() {
    let mut ctx = Context::new(rand::SeedableRng::from_entropy(), InMemoryVault::new());
    let pair = gen_pair(&mut ctx, AlgorithmName::RsaPss, AlgorithmName::Sha512, 1024);
    let sig = ctx.subtle.sign(pss(20), &pair.private_key, b"round trip").unwrap();
    assert!(ctx.subtle.verify(pss(20), &pair.public_key, &sig, b"round trip").unwrap());
}

#[test]
fn pkcs1v15_round_trip_sha1() {
    let mut ctx = Context::new(rand::SeedableRng::from_entropy(), InMemoryVault::new());
    let pair = gen_pair(&mut ctx, AlgorithmName::RsassaPkcs1V15, AlgorithmName::Sha1, 1024);
    let sig = ctx.subtle.sign(pkcs(), &pair.private_key, b"round trip").unwrap();
    assert!(ctx.subtle.verify(pkcs(), &pair.public_key, &sig, b"round trip").unwrap());
}

#[test]
fn pkcs1v15_round_trip_sha256() {
    let mut ctx = Context::new(rand::SeedableRng::from_entropy(), InMemoryVault::new());
    let pair = gen_pair(&mut ctx, AlgorithmName::RsassaPkcs1V15, AlgorithmName::Sha256, 1024);
    let sig = ctx.subtle.sign(pkcs(), &pair.private_key, b"round trip").unwrap();
    assert!(ctx.subtle.verify(pkcs(), &pair.public_key, &sig, b"round trip").unwrap());
}

#[test]
fn pkcs1v15_round_trip_sha384() {
    let mut ctx = Context::new(rand::SeedableRng::from_entropy(), InMemoryVault::new());
    let pair = gen_pair(&mut ctx, AlgorithmName::RsassaPkcs1V15, AlgorithmName::Sha384, 1024);
    let sig = ctx.subtle.sign(pkcs(), &pair.private_key, b"round trip").unwrap();
    assert!(ctx.subtle.verify(pkcs(), &pair.public_key, &sig, b"round trip").unwrap());
}

#[test]
fn pkcs1v15_round_trip_sha512() {
    let mut ctx = Context::new(rand::SeedableRng::from_entropy(), InMemoryVault::new());
    let pair = gen_pair(&mut ctx, AlgorithmName::RsassaPkcs1V15, AlgorithmName::Sha512, 1024);
    let sig = ctx.subtle.sign(pkcs(), &pair.private_key, b"round trip").unwrap();
    assert!(ctx.subtle.verify(pkcs(), &pair.public_key, &sig, b"round trip").unwrap());
}

#[test]
fn flipped_signature_verifies_false() {
    let mut ctx = Context::new(rand::SeedableRng::from_entropy(), InMemoryVault::new());
    let pair = gen_pair(&mut ctx, AlgorithmName::RsaPss, AlgorithmName::Sha256, 1024);

    let mut sig = ctx.subtle.sign(pss(20), &pair.private_key, b"message").unwrap();
    sig[0] ^= 0x01;
    assert!(!ctx.subtle.verify(pss(20), &pair.public_key, &sig, b"message").unwrap());
}

#[test]
fn flipped_message_verifies_false() {
    let mut ctx = Context::new(rand::SeedableRng::from_entropy(), InMemoryVault::new());
    let pair = gen_pair(&mut ctx, AlgorithmName::RsassaPkcs1V15, AlgorithmName::Sha256, 1024);

    let sig = ctx.subtle.sign(pkcs(), &pair.private_key, b"message").unwrap();
    let mut data = b"message".to_vec();
    data[0] ^= 0x01;
    assert!(!ctx.subtle.verify(pkcs(), &pair.public_key, &sig, &data).unwrap());
}

#[test]
fn too_small_modulus_fails_with_operation_error() {
    let mut ctx = Context::new(rand::SeedableRng::from_entropy(), InMemoryVault::new());
    let r = ctx.subtle.generate_key(
        KeyGenParams::RsaHashedKeyGenParams(RsaHashedKeyGenParams {
            name: AlgorithmName::RsaPss,
            hash: HashAlgorithmIdentifer { name: AlgorithmName::Sha256 },
            modulus_length: 12,
            public_exponent: [0x00, 0x01, 0x79],
        }),
        true,
        vec![],
    );
    assert!(matches!(r, Err(Error::Operation)));
}

#[test]
fn oversized_salt_signs_error_and_verifies_false() {
    let mut ctx = Context::new(rand::SeedableRng::from_entropy(), InMemoryVault::new());
    let pair = gen_pair(&mut ctx, AlgorithmName::RsaPss, AlgorithmName::Sha256, 1024);

    let sig = ctx.subtle.sign(pss(20), &pair.private_key, b"data").unwrap();
    assert!(matches!(ctx.subtle.sign(pss(5000), &pair.private_key, b"data"), Err(Error::Operation)));
    assert_eq!(ctx.subtle.verify(pss(5000), &pair.public_key, &sig, b"data"), Ok(false));
}

#[test]
fn salt_too_long_for_modulus_fails_with_operation_error() {
    let mut ctx = Context::new(rand::SeedableRng::from_entropy(), InMemoryVault::new());
    let pair = gen_pair(&mut ctx, AlgorithmName::RsaPss, AlgorithmName::Sha256, 1024);

    // 1024-bit modulus: 128 bytes of padded message cannot hold a
    // 32-byte digest, a 200-byte salt and the framing
    let r = ctx.subtle.sign(pss(200), &pair.private_key, b"data");
    assert!(matches!(r, Err(Error::Operation)));
}
