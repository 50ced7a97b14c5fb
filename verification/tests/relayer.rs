use bridge_assist::crypto::SignatureCheck;
use bridge_assist::error::BridgeError;
use bridge_assist::relayer::RelayerKey;

fn secret() -> ed25519_dalek::SecretKey {
    ed25519_dalek::SecretKey::from_bytes(&[7u8; 32]).unwrap()
}

fn key_text() -> String {
    let public = ed25519_dalek::PublicKey::from(&secret());
    format!("ed25519:{}", near_sdk::bs58::encode(public.as_bytes()).into_string())
}

fn sign(message: &[u8]) -> Vec<u8> {
    let secret = secret();
    let public = ed25519_dalek::PublicKey::from(&secret);
    let expanded = ed25519_dalek::ExpandedSecretKey::from(&secret);
    expanded.sign(message, &public).to_bytes().to_vec()
}

#[test]
fn parse_accepts_an_ed25519_key() {
    let key = RelayerKey::parse(&key_text()).unwrap();
    let bytes = key.to_bytes();
    assert_eq!(bytes.len(), 33);
    assert_eq!(bytes[0], 0);
    let public = ed25519_dalek::PublicKey::from(&secret());
    assert_eq!(&bytes[1..], public.as_bytes());
}

#[test]
fn parse_defaults_to_ed25519_without_a_curve_name() {
    let text = key_text();
    let bare = text["ed25519:".len()..].to_string();
    let key = RelayerKey::parse(&bare).unwrap();
    assert!(key.same_as(&RelayerKey::parse(&text).unwrap()));
}

#[test]
fn parse_refuses_another_curve() {
    let text = "secp256k1:qMoRgcoXai4mBPsdbHi1wfyxF9TdbPCF4qSDQTRP3TfescSRoUdSx6nmeQoN3aiwGzwMyGXAb1gUjBTv5AY8DXj".to_string();
    assert_eq!(RelayerKey::parse(&text).unwrap_err(), BridgeError::UnsupportedCurve);
}

#[test]
fn parse_refuses_text_that_is_no_key() {
    assert_eq!(
        RelayerKey::parse(&"not a key".to_string()).unwrap_err(),
        BridgeError::InvalidRelayerKey
    );
    assert_eq!(
        RelayerKey::parse(&"ed25519:abc".to_string()).unwrap_err(),
        BridgeError::InvalidRelayerKey
    );
}

#[test]
fn check_tells_the_four_outcomes_apart() {
    let key = RelayerKey::parse(&key_text()).unwrap();
    let message = b"attested deposit".to_vec();
    let signature = sign(&message);
    assert_eq!(key.check(&message, &signature), SignatureCheck::Accepted);
    assert!(key.verify(&message, &signature));

    let other = b"another deposit".to_vec();
    assert_eq!(key.check(&other, &signature), SignatureCheck::Rejected);
    assert!(!key.verify(&other, &signature));

    let short = signature[..63].to_vec();
    assert_eq!(key.check(&message, &short), SignatureCheck::MalformedSignature);

    let mut high_bits = signature.clone();
    high_bits[63] |= 0x80;
    assert_eq!(key.check(&message, &high_bits), SignatureCheck::MalformedSignature);
}
