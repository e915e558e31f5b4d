use rtm_signature::message::gen_signature_message;
use rtm_signature::nonce::nonce;
use rtm_signature::signer::sign;

const NONCE_ALPHABET: &str = "abc123def456ghi789jk0_";

#[test]
fn sign_matches_known_hmac_sha1_vector_short_key() {
    let key = "Jefe".to_string();
    let msg = "what do ya want for nothing?".to_string();
    assert_eq!(sign(msg, key), "effcdf6ae5eb2fa2d27416d5f184df9c259a7c79");
}

#[test]
fn sign_matches_known_hmac_sha1_vector_byte_key() {
    let key = String::from_utf8(vec![0x0b; 20]).unwrap();
    let msg = "Hi There".to_string();
    assert_eq!(sign(msg, key), "b617318655057264e28bc0b6fb378c8ef146be00");
}

#[test]
fn sign_output_is_forty_lowercase_hex_chars() {
    let out = sign("some message".to_string(), "some key".to_string());
    assert_eq!(out.len(), 40);
    assert_eq!(out.len() % 2, 0);
    assert!(out.chars().all(|c| c.is_ascii_hexdigit() && !c.is_ascii_uppercase()));
}

#[test]
fn sign_is_deterministic() {
    let a = sign("message".to_string(), "key".to_string());
    let b = sign("message".to_string(), "key".to_string());
    assert_eq!(a, b);
}

#[test]
fn pipeline_is_deterministic_for_fixed_inputs() {
    let build = || {
        gen_signature_message(
            "start".to_string(),
            "A1".to_string(),
            "C1".to_string(),
            "".to_string(),
            "b:a".to_string(),
            1000,
            "xxxxxxx".to_string(),
        )
    };
    let s1 = sign(build(), "secret".to_string());
    let s2 = sign(build(), "secret".to_string());
    assert_eq!(s1, s2);
}

#[test]
fn nonce_has_length_seven_from_the_fixed_alphabet() {
    for _ in 0..100 {
        let n = nonce();
        assert_eq!(n.chars().count(), 7);
        assert!(n.chars().all(|c| NONCE_ALPHABET.contains(c)));
    }
}
