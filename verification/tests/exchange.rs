use threat_exchange::ExchangeError;
use threat_exchange::ThreatExchange;

const NONCE_LEN: usize = 8;
const TAG_LEN: usize = 16;

fn instance(byte: u8) -> ThreatExchange {
    ThreatExchange::new(vec![byte; 32]).unwrap()
}

#[test]
fn empty_key_rejected() {
    let r = ThreatExchange::new(Vec::new());
    assert_eq!(r.err(), Some(ExchangeError::InvalidKey));
}

#[test]
fn nonempty_key_accepted() {
    assert!(ThreatExchange::new(vec![0u8]).is_ok());
}

#[test]
fn round_trip_bytes() {
    let ex = instance(0x42);
    let plaintext = b"threat record 7: indicator 10.0.0.1".to_vec();
    let sealed = ex.protect(&plaintext);
    assert_eq!(ex.unseal(&sealed).unwrap(), plaintext);
}

#[test]
fn round_trip_empty_plaintext() {
    let ex = instance(0x42);
    let sealed = ex.protect(&[]);
    assert_eq!(sealed.len(), NONCE_LEN + TAG_LEN);
    assert_eq!(ex.unseal(&sealed).unwrap(), Vec::<u8>::new());
}

#[test]
fn round_trip_helper_returns_plaintext() {
    let ex = instance(0x05);
    let plaintext = b"round trip me".to_vec();
    assert_eq!(ex.round_trip(&plaintext), plaintext);
}

#[test]
fn sealed_length_is_plaintext_plus_framing() {
    let ex = instance(0x07);
    for n in [0usize, 1, 2, 31, 32, 33, 100] {
        let plaintext = vec![0xabu8; n];
        assert_eq!(ex.protect(&plaintext).len(), n + NONCE_LEN + TAG_LEN);
    }
}

#[test]
fn short_key_material_still_round_trips() {
    // Key derivation turns material of any length into a full-size key.
    let ex = ThreatExchange::new(vec![9u8, 9, 9]).unwrap();
    let plaintext = b"x".to_vec();
    assert_eq!(ex.unseal(&ex.protect(&plaintext)).unwrap(), plaintext);
}

#[test]
fn ciphertext_differs_from_plaintext() {
    let ex = instance(0x11);
    let plaintext = vec![0u8; 16];
    let sealed = ex.protect(&plaintext);
    assert_ne!(&sealed[NONCE_LEN..NONCE_LEN + 16], &plaintext[..]);
}

#[test]
fn tamper_any_single_bit_fails() {
    let ex = instance(0x23);
    let sealed = ex.protect(b"tamper me");
    for byte in 0..sealed.len() {
        for bit in 0..8 {
            let mut bad = sealed.clone();
            bad[byte] ^= 1 << bit;
            assert_eq!(
                ex.unseal(&bad).err(),
                Some(ExchangeError::AuthenticationFailed),
                "flip of byte {} bit {} was not detected",
                byte,
                bit
            );
        }
    }
}

#[test]
fn truncation_fails() {
    let ex = instance(0x23);
    let sealed = ex.protect(b"a record long enough to stay above the framing floor");
    let truncated = &sealed[..sealed.len() - 1];
    assert_eq!(
        ex.unseal(truncated).err(),
        Some(ExchangeError::AuthenticationFailed)
    );
}

#[test]
fn wrong_key_fails() {
    let sender = instance(0x01);
    let other = instance(0x02);
    let sealed = sender.protect(b"secret");
    assert_eq!(
        other.unseal(&sealed).err(),
        Some(ExchangeError::AuthenticationFailed)
    );
}

#[test]
fn nonce_uniqueness_over_many_trials() {
    let ex = instance(0x33);
    let plaintext = b"same plaintext every time".to_vec();
    let mut seen: Vec<Vec<u8>> = Vec::new();
    for _ in 0..64 {
        let sealed = ex.protect(&plaintext);
        assert!(!seen.contains(&sealed), "two identical sealed messages");
        seen.push(sealed);
    }
}

#[test]
fn too_short_is_malformed() {
    let ex = instance(0x44);
    for n in 0..NONCE_LEN + TAG_LEN {
        let short = vec![0u8; n];
        assert_eq!(ex.unseal(&short).err(), Some(ExchangeError::MalformedInput));
    }
    // At exactly the framing floor the input is no longer malformed; garbage
    // bytes there fail authentication instead.
    let garbage = vec![0u8; NONCE_LEN + TAG_LEN];
    assert_eq!(
        ex.unseal(&garbage).err(),
        Some(ExchangeError::AuthenticationFailed)
    );
}

#[test]
fn decrypt_returns_text() {
    let ex = instance(0x55);
    let sealed = ex.protect("hello, exchange".as_bytes());
    assert_eq!(ex.decrypt(sealed).unwrap(), "hello, exchange");
}

#[test]
fn decrypt_rejects_invalid_utf8() {
    let ex = instance(0x55);
    let sealed = ex.protect(&[0xff, 0xfe, 0x00]);
    assert_eq!(ex.decrypt(sealed).err(), Some(ExchangeError::InvalidEncoding));
}

#[test]
fn decrypt_too_short_is_malformed() {
    let ex = instance(0x55);
    assert_eq!(
        ex.decrypt(vec![1u8, 2, 3]).err(),
        Some(ExchangeError::MalformedInput)
    );
}

#[test]
fn concrete_scenario() {
    let ex = ThreatExchange::new(vec![0x01u8; 32]).unwrap();
    let sealed = ex.protect(b"Sensitive threat data");
    assert_eq!(ex.unseal(&sealed).unwrap(), b"Sensitive threat data".to_vec());
    assert_eq!(ex.decrypt(sealed.clone()).unwrap(), "Sensitive threat data");

    let mut mutated = sealed;
    let last = mutated.len() - 1;
    mutated[last] ^= 0x01;
    assert_eq!(
        ex.unseal(&mutated).err(),
        Some(ExchangeError::AuthenticationFailed)
    );
}
