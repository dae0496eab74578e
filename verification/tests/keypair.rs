use tonlabs_cli::keys::{classify_key_spec, keypair_from_derived, DerivedKeys, KeySpecPath};

#[test]
fn no_key_spec_yields_no_keys() {
    let p = classify_key_spec(&None);
    assert_eq!(p, KeySpecPath::NoKeys);
}

#[test]
fn present_key_spec_always_takes_mnemonic_path() {
    let specs = [
        "word",
        "solar tennis borrow scheme",
        "",
        " ",
        "   leading and trailing   ",
        "0:abc",
    ];
    for s in specs {
        let p = classify_key_spec(&Some(s.to_owned()));
        assert_eq!(p, KeySpecPath::MnemonicPhrase);
    }
}

#[test]
fn assembled_buffer_duplicates_public_bytes() {
    let public_hex = "000102030405060708090a0b0c0d0e0f101112131415161718191a1b1c1d1e1f";
    let secret_hex = "ffeeddccbbaa99887766554433221100ffeeddccbbaa99887766554433221100";
    let pair = DerivedKeys { public: public_hex.to_owned(), secret: secret_hex.to_owned() };
    let buf = keypair_from_derived(&pair).unwrap();
    assert_eq!(buf.len(), 64);
    let public_bytes: Vec<u8> = (0u8..32).collect();
    assert_eq!(&buf[32..], &public_bytes[..]);
    // The first half also holds the public bytes, not the secret ones.
    assert_eq!(&buf[..32], &public_bytes[..]);
    let secret_bytes = hex::decode(secret_hex).unwrap();
    assert_ne!(&buf[..32], &secret_bytes[..]);
}

#[test]
fn upper_case_hex_decodes_like_lower_case() {
    let pair = DerivedKeys {
        public: "A0B1C2D3E4F5A0B1C2D3E4F5A0B1C2D3A0B1C2D3E4F5A0B1C2D3E4F5A0B1C2D3".to_owned(),
        secret: String::new(),
    };
    let buf = keypair_from_derived(&pair).unwrap();
    assert_eq!(buf[0], 0xa0);
    assert_eq!(buf[31], 0xd3);
    assert_eq!(buf[32], 0xa0);
    assert_eq!(buf[63], 0xd3);
}

#[test]
fn invalid_hex_in_public_component_is_a_decode_error() {
    let pair = DerivedKeys {
        public: "zz0102030405060708090a0b0c0d0e0f101112131415161718191a1b1c1d1e1f".to_owned(),
        secret: String::new(),
    };
    let err = keypair_from_derived(&pair).unwrap_err();
    assert!(err.starts_with("failed to decode public key: "));
}

#[test]
fn odd_length_hex_in_public_component_is_a_decode_error() {
    let pair = DerivedKeys { public: "abc".to_owned(), secret: String::new() };
    let err = keypair_from_derived(&pair).unwrap_err();
    assert!(err.starts_with("failed to decode public key: "));
}
