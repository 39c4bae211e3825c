use libreauth::pass::hash::pbkdf2::{HashFunction, Pbkdf2Hash};
use libreauth::pass::ErrorCode;

/// The identifier must not change with different hashing functions.
#[test]
fn test_id() {
    let lst = [
        Pbkdf2Hash::new(),
        Pbkdf2Hash {
            hash_function: HashFunction::Sha1,
            nb_iter: 42,
            salt: vec![0, 1, 2, 3, 4, 5],
        },
        Pbkdf2Hash {
            hash_function: HashFunction::Sha256,
            nb_iter: 42,
            salt: vec![0, 1, 2, 3, 4, 5],
        },
        Pbkdf2Hash {
            hash_function: HashFunction::Sha512,
            nb_iter: 42,
            salt: vec![0, 1, 2, 3, 4, 5],
        },
    ];
    for h in lst.iter() {
        assert_eq!(h.get_id(), "pbkdf2".to_string());
    }
}

#[test]
fn test_get_salt() {
    let h = Pbkdf2Hash {
        hash_function: HashFunction::Sha1,
        nb_iter: 42,
        salt: vec![0, 1, 2, 3, 4, 5],
    };
    assert_eq!(h.get_salt().unwrap(), vec![0, 1, 2, 3, 4, 5]);
}

/// NIST SP 800-63B: the salt shall be at least 32 bits (4 bytes) in length
#[test]
fn test_default_salt_len() {
    let h = Pbkdf2Hash::new();
    assert!(h.get_salt().unwrap().len() >= 4);
}

/// NIST SP 800-63B: the salt shall be chosen arbitrarily
#[test]
fn test_salt_randomness() {
    assert_ne!(
        Pbkdf2Hash::new().get_salt().unwrap(),
        Pbkdf2Hash::new().get_salt().unwrap()
    );
}

/// NIST SP 800-63B: at least 10,000 iterations
#[test]
fn test_default_iterations() {
    assert!(Pbkdf2Hash::new().nb_iter >= 10000);
}

#[test]
fn test_vectors() {
    let lst = [
        // --- BEGIN Test vectors from RFC6070 ---
        (
            "sha1",
            1,
            "salt",
            "password",
            vec![
                0x0c as u8, 0x60, 0xc8, 0x0f, 0x96, 0x1f, 0x0e, 0x71, 0xf3, 0xa9, 0xb5, 0x24,
                0xaf, 0x60, 0x12, 0x06, 0x2f, 0xe0, 0x37, 0xa6,
            ],
        ),
        (
            "sha1",
            2,
            "salt",
            "password",
            vec![
                0xea, 0x6c, 0x01, 0x4d, 0xc7, 0x2d, 0x6f, 0x8c, 0xcd, 0x1e, 0xd9, 0x2a, 0xce,
                0x1d, 0x41, 0xf0, 0xd8, 0xde, 0x89, 0x57,
            ],
        ),
        (
            "sha1",
            4096,
            "salt",
            "password",
            vec![
                0x4b, 0x00, 0x79, 0x01, 0xb7, 0x65, 0x48, 0x9a, 0xbe, 0xad, 0x49, 0xd9, 0x26,
                0xf7, 0x21, 0xd0, 0x65, 0xa4, 0x29, 0xc1,
            ],
        ),
        // --- END Test vectors from RFC6070 ---
        (
            "sha224",
            498,
            "msEf7FpL",
            "DigIpIXYIwc",
            vec![
                0x3, 0xe8, 0x4b, 0xa7, 0x57, 0xd1, 0xcd, 0xc8, 0xd5, 0x97, 0x2, 0xb, 0xae,
                0x86, 0xd1, 0x70, 0xec, 0x45, 0xfa, 0xf7, 0xd9, 0xb8, 0x67, 0x28, 0x5b, 0xad,
                0xf1, 0x3e,
            ],
        ),
        (
            "sha224",
            2741,
            "y9irX",
            "JmvZv6Ut",
            vec![
                0xa6, 0xf4, 0x7, 0x6c, 0xa3, 0xd3, 0x6a, 0xcd, 0x23, 0x86, 0xc6, 0xd1, 0x57,
                0x93, 0x88, 0x3c, 0x1e, 0x51, 0x54, 0xcc, 0xfb, 0x3f, 0x97, 0x31, 0x92, 0x30,
                0x72, 0x37,
            ],
        ),
        (
            "sha256",
            3853,
            "CHhs6n",
            "DAfuHjm77",
            vec![
                0x4b, 0x99, 0xc5, 0x91, 0x14, 0xc, 0x6, 0xa3, 0x16, 0x4e, 0x1e, 0xd2, 0xbc,
                0x99, 0x79, 0x2a, 0x74, 0x7f, 0x5d, 0xb4, 0xe0, 0xf8, 0xaf, 0xae, 0xbe, 0x79,
                0xea, 0x6d, 0xe4, 0x5c, 0x53, 0xc0,
            ],
        ),
        (
            "sha256",
            3590,
            "GJd4x5G",
            "2KJo38IJsfRH",
            vec![
                0x2d, 0xbf, 0x2d, 0xf5, 0xee, 0xe1, 0xe7, 0x99, 0x8b, 0x79, 0xc3, 0x69, 0xb4,
                0x1f, 0xa8, 0x51, 0x9f, 0xa1, 0x7f, 0x51, 0x63, 0x4f, 0xbd, 0xbf, 0x7d, 0xef,
                0x9, 0x8f, 0xc4, 0xe1, 0x34, 0xc3,
            ],
        ),
        (
            "sha384",
            480,
            "tKVt",
            "KdNomtQ4d",
            vec![
                0x0, 0x56, 0x8b, 0x64, 0xab, 0xf9, 0x26, 0x60, 0xbb, 0x2b, 0xa8, 0x5d, 0xca,
                0xc, 0xfb, 0xc2, 0xa0, 0x9c, 0xf6, 0x9, 0x61, 0xba, 0x6, 0x2b, 0x79, 0xd9,
                0x8d, 0xd, 0x97, 0x63, 0xe5, 0x20, 0xd7, 0xd, 0xe1, 0xae, 0x2b, 0xb0, 0x75,
                0x1a, 0x13, 0x14, 0xea, 0x44, 0xf0, 0xb7, 0x91, 0x8,
            ],
        ),
        (
            "sha384",
            3388,
            "G3KX",
            "OHNbhPKuE",
            vec![
                0x89, 0xcb, 0x4c, 0xf8, 0xe4, 0xa8, 0x43, 0x7d, 0x6d, 0xef, 0xdb, 0x1f, 0x1f,
                0x66, 0x21, 0xaa, 0xbd, 0x8f, 0x19, 0xeb, 0x9a, 0xc9, 0xbb, 0xc5, 0x64, 0xd2,
                0xc9, 0xf, 0x57, 0x6e, 0xd9, 0xfd, 0xe8, 0xf1, 0x6c, 0x36, 0xda, 0x14, 0xa9,
                0x23, 0xa3, 0x92, 0x10, 0x42, 0xff, 0x8d, 0x44, 0x63,
            ],
        ),
        (
            "sha512",
            2394,
            "oQuyuv3Q",
            "80gfY4kIump",
            vec![
                0x5f, 0x1a, 0x23, 0x65, 0x2e, 0xd1, 0xa7, 0x98, 0xf3, 0xa2, 0x7d, 0xd9, 0x22,
                0x83, 0x1e, 0xa5, 0xdb, 0x63, 0xe4, 0xcb, 0xff, 0x5a, 0x1, 0xe3, 0x4, 0x8f,
                0x9, 0x1b, 0x7a, 0x71, 0x7b, 0x2e, 0x44, 0x99, 0x50, 0xa0, 0x45, 0x74, 0x41,
                0x57, 0x5e, 0xbc, 0xf2, 0xb8, 0xfd, 0x54, 0xcc, 0x16, 0x88, 0x6, 0x1d, 0x4f,
                0x8d, 0x67, 0xa, 0xad, 0xbb, 0xff, 0x32, 0x36, 0xc8, 0x9d, 0x9e, 0x7a,
            ],
        ),
        (
            "sha512",
            1605,
            "Ejj2M0Mo",
            "LdUEx0sZfn7X",
            vec![
                0x87, 0x97, 0x2, 0x55, 0xef, 0x70, 0x99, 0x16, 0xb6, 0x99, 0x99, 0xa2, 0xd8,
                0x7f, 0x5b, 0xaf, 0x2, 0x8c, 0xc3, 0x5, 0x8b, 0x3f, 0xba, 0xec, 0x7e, 0x79,
                0xe6, 0xed, 0xdd, 0x28, 0x67, 0xcb, 0xb, 0xc9, 0x42, 0x1f, 0x56, 0xdf, 0xee,
                0x64, 0xd1, 0x5c, 0x8a, 0xac, 0xc5, 0x15, 0x3b, 0x29, 0x18, 0xe5, 0x92, 0x50,
                0x78, 0xc8, 0x7e, 0x67, 0x48, 0xf6, 0x65, 0x24, 0x48, 0xb5, 0xce, 0x2f,
            ],
        ),
    ];
    for &(func, nb_iter, salt, key, ref result) in lst.iter() {
        let h = Pbkdf2Hash {
            hash_function: match func {
                "sha1" => HashFunction::Sha1,
                "sha224" => HashFunction::Sha224,
                "sha256" => HashFunction::Sha256,
                "sha384" => HashFunction::Sha384,
                "sha512" => HashFunction::Sha512,
                "sha512t224" => HashFunction::Sha512Trunc224,
                "sha512t256" => HashFunction::Sha512Trunc256,
                _ => {
                    panic!();
                }
            },
            nb_iter: nb_iter,
            salt: salt.to_string().into_bytes(),
        };
        assert_eq!(&h.hash(&key.to_string().into_bytes()), result);
    }
}

fn sample(hash_function: HashFunction, nb_iter: usize) -> Pbkdf2Hash {
    Pbkdf2Hash {
        hash_function,
        nb_iter,
        salt: vec![0, 1, 2, 3, 4, 5],
    }
}

#[test]
fn test_new_defaults() {
    let h = Pbkdf2Hash::new();
    assert_eq!(h.hash_function, HashFunction::Sha256);
    assert_eq!(h.nb_iter, 45000);
    assert_eq!(h.salt.len(), 16);
}

#[test]
fn test_get_parameters_default() {
    let h = Pbkdf2Hash::new();
    let params = h.get_parameters();
    assert_eq!(params.len(), 2);
    assert_eq!(params.get("iter"), Some(&"45000".to_string()));
    assert_eq!(params.get("hash"), Some(&"sha256".to_string()));
    assert_eq!(params.get("salt"), None);
}

#[test]
fn test_get_parameters_hash_names() {
    let names = [
        (HashFunction::Sha1, "sha1"),
        (HashFunction::Sha224, "sha224"),
        (HashFunction::Sha256, "sha256"),
        (HashFunction::Sha384, "sha384"),
        (HashFunction::Sha512, "sha512"),
        (HashFunction::Sha512Trunc224, "sha512t224"),
        (HashFunction::Sha512Trunc256, "sha512t256"),
    ];
    for &(func, name) in names.iter() {
        let h = sample(func, 10000);
        let params = h.get_parameters();
        assert_eq!(params.get("hash"), Some(&name.to_string()));
        assert_eq!(params.get("iter"), Some(&"10000".to_string()));
    }
}

#[test]
fn test_set_parameter_iter() {
    let mut h = sample(HashFunction::Sha1, 45000);
    assert_eq!(h.set_parameter("iter".to_string(), "10000".to_string()), Ok(()));
    assert_eq!(h.nb_iter, 10000);
    assert_eq!(h.set_parameter("iter".to_string(), "200000".to_string()), Ok(()));
    assert_eq!(h.nb_iter, 200000);
    assert_eq!(h.set_parameter("iter".to_string(), "+15000".to_string()), Ok(()));
    assert_eq!(h.nb_iter, 15000);
    assert_eq!(h.set_parameter("iter".to_string(), "0012000".to_string()), Ok(()));
    assert_eq!(h.nb_iter, 12000);
    assert_eq!(h.hash_function, HashFunction::Sha1);
    assert_eq!(h.salt, vec![0, 1, 2, 3, 4, 5]);
}

#[test]
fn test_set_parameter_iter_refused() {
    let refused = [
        "9999",
        "200001",
        "0",
        "",
        "+",
        "-",
        "-10000",
        " 10000",
        "10000 ",
        "10_000",
        "abc",
        "1e5",
        "++10000",
        "99999999999999999999999999",
    ];
    for value in refused.iter() {
        let mut h = sample(HashFunction::Sha384, 45000);
        assert_eq!(
            h.set_parameter("iter".to_string(), value.to_string()),
            Err(ErrorCode::InvalidPasswordFormat)
        );
        assert_eq!(h.nb_iter, 45000);
        assert_eq!(h.hash_function, HashFunction::Sha384);
    }
}

#[test]
fn test_set_parameter_hash() {
    let names = [
        ("sha1", HashFunction::Sha1),
        ("sha224", HashFunction::Sha224),
        ("sha256", HashFunction::Sha256),
        ("sha384", HashFunction::Sha384),
        ("sha512", HashFunction::Sha512),
        ("sha512t224", HashFunction::Sha512Trunc224),
        ("sha512t256", HashFunction::Sha512Trunc256),
    ];
    for &(name, func) in names.iter() {
        let mut h = sample(HashFunction::Sha1, 30000);
        assert_eq!(h.set_parameter("hash".to_string(), name.to_string()), Ok(()));
        assert_eq!(h.hash_function, func);
        assert_eq!(h.nb_iter, 30000);
    }
}

#[test]
fn test_set_parameter_refused() {
    let cases = [
        ("hash", "SHA256"),
        ("hash", "sha"),
        ("hash", "sha256 "),
        ("hash", "md5"),
        ("hash", ""),
        ("salt", "sha256"),
        ("Iter", "20000"),
        ("", "20000"),
    ];
    for &(name, value) in cases.iter() {
        let mut h = sample(HashFunction::Sha512, 30000);
        assert_eq!(
            h.set_parameter(name.to_string(), value.to_string()),
            Err(ErrorCode::InvalidPasswordFormat)
        );
        assert_eq!(h.hash_function, HashFunction::Sha512);
        assert_eq!(h.nb_iter, 30000);
        assert_eq!(h.salt, vec![0, 1, 2, 3, 4, 5]);
    }
}

#[test]
fn test_parameters_round_trip() {
    let mut h = sample(HashFunction::Sha512Trunc256, 123456);
    let params = h.get_parameters();
    let iter = params.get("iter").unwrap().clone();
    let hash = params.get("hash").unwrap().clone();
    assert_eq!(h.set_parameter("iter".to_string(), iter), Ok(()));
    assert_eq!(h.set_parameter("hash".to_string(), hash), Ok(()));
    assert_eq!(h.nb_iter, 123456);
    assert_eq!(h.hash_function, HashFunction::Sha512Trunc256);
}

#[test]
fn test_parameters_round_trip_fails_out_of_range() {
    let mut h = sample(HashFunction::Sha1, 42);
    let iter = h.get_parameters().get("iter").unwrap().clone();
    assert_eq!(iter, "42".to_string());
    assert_eq!(
        h.set_parameter("iter".to_string(), iter),
        Err(ErrorCode::InvalidPasswordFormat)
    );
    assert_eq!(h.nb_iter, 42);
}

#[test]
fn test_set_salt() {
    let mut h = sample(HashFunction::Sha256, 10000);
    assert_eq!(h.set_salt(vec![9; 3]), Err(ErrorCode::InvalidPasswordFormat));
    assert_eq!(h.get_salt(), Some(vec![0, 1, 2, 3, 4, 5]));
    assert_eq!(h.set_salt(vec![]), Err(ErrorCode::InvalidPasswordFormat));
    assert_eq!(h.set_salt(vec![7; 257]), Err(ErrorCode::InvalidPasswordFormat));
    assert_eq!(h.get_salt(), Some(vec![0, 1, 2, 3, 4, 5]));
    assert_eq!(h.set_salt(vec![1, 2, 3, 4]), Ok(()));
    assert_eq!(h.get_salt(), Some(vec![1, 2, 3, 4]));
    assert_eq!(h.set_salt(vec![8; 256]), Ok(()));
    assert_eq!(h.get_salt(), Some(vec![8; 256]));
    assert_eq!(h.nb_iter, 10000);
    assert_eq!(h.hash_function, HashFunction::Sha256);
}

#[test]
fn test_hash_lengths() {
    let lengths = [
        (HashFunction::Sha1, 20),
        (HashFunction::Sha224, 28),
        (HashFunction::Sha256, 32),
        (HashFunction::Sha384, 48),
        (HashFunction::Sha512, 64),
        (HashFunction::Sha512Trunc224, 28),
        (HashFunction::Sha512Trunc256, 32),
    ];
    for &(func, len) in lengths.iter() {
        let h = sample(func, 3);
        assert_eq!(h.hash(&b"password".to_vec()).len(), len);
    }
}

#[test]
fn test_hash_depends_on_settings() {
    let input = b"password".to_vec();
    let a = sample(HashFunction::Sha256, 5);
    let b = sample(HashFunction::Sha256, 5);
    assert_eq!(a.hash(&input), b.hash(&input));
    let c = sample(HashFunction::Sha256, 6);
    assert_ne!(a.hash(&input), c.hash(&input));
    let mut d = sample(HashFunction::Sha256, 5);
    d.set_salt(vec![6, 5, 4, 3, 2, 1]).unwrap();
    assert_ne!(a.hash(&input), d.hash(&input));
    assert_ne!(a.hash(&input), a.hash(&b"passwore".to_vec()));
}

fn hex_bytes(text: &str) -> Vec<u8> {
    (0..text.len() / 2)
        .map(|i| u8::from_str_radix(&text[2 * i..2 * i + 2], 16).unwrap())
        .collect()
}

#[test]
fn test_vectors_truncated_sha512() {
    let h224 = Pbkdf2Hash {
        hash_function: HashFunction::Sha512Trunc224,
        nb_iter: 2,
        salt: b"salt".to_vec(),
    };
    assert_eq!(
        h224.hash(&b"password".to_vec()),
        hex_bytes("b8878ac5e4509c165c1b508961fa3c3afcef3f37b7b081874e718d8d")
    );
    let h256 = Pbkdf2Hash {
        hash_function: HashFunction::Sha512Trunc256,
        nb_iter: 2,
        salt: b"salt".to_vec(),
    };
    assert_eq!(
        h256.hash(&b"password".to_vec()),
        hex_bytes("fcfd108c99cc888ec0af9f184885aff5f02d19a956afad9ccea4d56a482b851b")
    );
}
