use indeed_mcp::pkce::{
    code_verifier_from, generate_code_verifier, generate_state, sha256_base64url, state_from,
    BASE64_SYMBOLS, CHARSET,
};

#[test]
fn challenge_of_the_rfc_7636_example() {
    assert_eq!(
        sha256_base64url("dBjftJeZ4CVP-mB92K27uhbUJU1p1r_wW1gFWFOEjXk"),
        "E9Melhoa2OwvFrEMTJguCHaoeK1t8URWbuGJSstw-cM"
    );
    assert_eq!(
        sha256_base64url(""),
        "47DEQpj8HBSa-_TImW-5JCeuQeRkm5NMpJWZG3hSuFU"
    );
}

#[test]
fn states_are_base64_without_padding() {
    assert_eq!(state_from(&vec![]), "");
    assert_eq!(state_from(&vec![0xfb]), "-w");
    assert_eq!(state_from(&vec![0xfb, 0xff]), "-_8");
    assert_eq!(state_from(&vec![0xfb, 0xff, 0xfe]), "-__-");
    assert_eq!(state_from(&vec![0; 32]), "A".repeat(43));
    assert_eq!(state_from(&b"hello world".to_vec()), "aGVsbG8gd29ybGQ");
}

#[test]
fn different_bytes_make_different_states() {
    for n in 0..=255u8 {
        assert_ne!(state_from(&vec![n, 1]), state_from(&vec![n.wrapping_add(1), 1]));
    }
}

#[test]
fn verifiers_spell_their_picks() {
    assert_eq!(code_verifier_from(&vec![]), "");
    assert_eq!(code_verifier_from(&vec![0, 25, 26, 51, 52, 61, 62, 63, 64, 65]), "AZaz09-._~");
}

#[test]
fn drawn_verifiers_are_allowed() {
    let mut lengths = Vec::new();
    for _ in 0..200 {
        let v = generate_code_verifier();
        assert!((64..=96).contains(&v.len()));
        assert!(v.chars().all(|c| CHARSET.contains(c)));
        assert!(v.chars().all(|c| c.is_ascii_alphanumeric() || "-._~".contains(c)));
        lengths.push(v.len());
    }
    assert!(lengths.iter().any(|n| *n != lengths[0]));
    assert_ne!(generate_code_verifier(), generate_code_verifier());
}

#[test]
fn drawn_states_have_43_symbols() {
    for _ in 0..50 {
        let s = generate_state();
        assert_eq!(s.len(), 43);
        assert!(s.chars().all(|c| BASE64_SYMBOLS.contains(c)));
    }
    assert_ne!(generate_state(), generate_state());
}
