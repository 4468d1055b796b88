use provable_mobile_sdk::{
    address_from_string, address_to_string, address_verify, create_private_key,
    destroy_address, destroy_private_key, destroy_signature, destroy_view_key,
    private_key_from_string, private_key_sign, private_key_to_address, private_key_to_string,
    private_key_to_view_key, validate_address, validate_private_key, validate_view_key,
    view_key_from_string, view_key_to_address, view_key_to_string, AddressHandle,
    PrivateKeyHandle, Registry, SignatureHandle, ViewKeyHandle, INVALID_ID,
};

const KEY: &str = "APrivateKey1zkp8CZNn3yeCseEtxuVPbDCwSyhGW6yZKUYKfgXmcpoGPWH";
const VIEW_KEY: &str = "AViewKey1mSnpFFC8Mj4fXbK5YiWgZ3mjiV8CxA79bYNa8ymUpTrw";
const ADDRESS: &str = "aleo1rhgdu77hgyqd3xjj8ucu3jj9r2krwz6mnzyd80gncr5fxcwlh5rsvzp9px";

fn text_of(reg: &Registry, h: &PrivateKeyHandle) -> String {
    let r = private_key_to_string(reg, h);
    assert!(r.success);
    assert!(r.error.is_empty());
    r.result
}

fn address_text(reg: &Registry, h: &AddressHandle) -> String {
    let r = address_to_string(reg, h);
    assert!(r.success);
    assert!(r.error.is_empty());
    r.result
}

#[test]
fn sign_then_verify_scenario() {
    let mut reg = Registry::new();
    let key = create_private_key(&mut reg);
    assert_ne!(key.id, INVALID_ID);
    let address = private_key_to_address(&mut reg, &key);
    assert_ne!(address.id, INVALID_ID);
    let signed = private_key_sign(&reg, &key, b"hello".to_vec());
    assert!(signed.success);
    assert!(signed.error.is_empty());
    assert!(!signed.signature_bytes.is_empty());
    assert!(address_verify(&reg, &address, signed.signature_bytes.clone(), b"hello".to_vec()));
    assert!(!address_verify(&reg, &address, signed.signature_bytes, b"hallo".to_vec()));
}

#[test]
fn invalid_address_text_scenario() {
    let mut reg = Registry::new();
    let h = address_from_string(&mut reg, "not-an-address".to_string());
    assert_eq!(h.id, INVALID_ID);
    assert!(!validate_address("not-an-address".to_string()));
}

#[test]
fn private_key_text_round_trip() {
    let mut reg = Registry::new();
    let h = private_key_from_string(&mut reg, KEY.to_string());
    assert_eq!(h.id, 1);
    assert_eq!(text_of(&reg, &h), KEY);

    let generated = create_private_key(&mut reg);
    let text = text_of(&reg, &generated);
    let parsed = private_key_from_string(&mut reg, text.clone());
    assert_ne!(parsed.id, INVALID_ID);
    assert_eq!(text_of(&reg, &parsed), text);
}

#[test]
fn known_key_derivations() {
    let mut reg = Registry::new();
    let key = private_key_from_string(&mut reg, KEY.to_string());
    let address = private_key_to_address(&mut reg, &key);
    assert_eq!(address_text(&reg, &address), ADDRESS);
    let view_key = private_key_to_view_key(&mut reg, &key);
    let r = view_key_to_string(&reg, &view_key);
    assert!(r.success);
    assert_eq!(r.result, VIEW_KEY);
    assert!(r.error.is_empty());
}

#[test]
fn address_commutes_through_view_key() {
    let mut reg = Registry::new();
    let key = create_private_key(&mut reg);
    let direct = private_key_to_address(&mut reg, &key);
    let view_key = private_key_to_view_key(&mut reg, &key);
    let via_view_key = view_key_to_address(&mut reg, &view_key);
    assert_ne!(direct.id, via_view_key.id);
    assert_eq!(address_text(&reg, &direct), address_text(&reg, &via_view_key));
}

#[test]
fn signature_over_other_message_is_rejected() {
    let mut reg = Registry::new();
    let key = create_private_key(&mut reg);
    let address = private_key_to_address(&mut reg, &key);
    let signed = private_key_sign(&reg, &key, vec![1, 2, 3]);
    assert!(signed.success);
    assert!(address_verify(&reg, &address, signed.signature_bytes.clone(), vec![1, 2, 3]));
    assert!(!address_verify(&reg, &address, signed.signature_bytes.clone(), vec![1, 2, 4]));
    assert!(!address_verify(&reg, &address, signed.signature_bytes.clone(), vec![1, 2]));
    assert!(!address_verify(&reg, &address, signed.signature_bytes, vec![3, 2, 1]));
}

#[test]
fn empty_message_signs_and_verifies() {
    let mut reg = Registry::new();
    let key = create_private_key(&mut reg);
    let address = private_key_to_address(&mut reg, &key);
    let signed = private_key_sign(&reg, &key, Vec::new());
    assert!(signed.success);
    assert!(address_verify(&reg, &address, signed.signature_bytes, Vec::new()));
}

#[test]
fn signature_from_other_key_is_rejected() {
    let mut reg = Registry::new();
    let key = create_private_key(&mut reg);
    let other = create_private_key(&mut reg);
    let other_address = private_key_to_address(&mut reg, &other);
    let signed = private_key_sign(&reg, &key, b"hello".to_vec());
    assert!(signed.success);
    assert!(!address_verify(&reg, &other_address, signed.signature_bytes, b"hello".to_vec()));
}

#[test]
fn malformed_signature_bytes_verify_false() {
    let mut reg = Registry::new();
    let address = address_from_string(&mut reg, ADDRESS.to_string());
    assert_ne!(address.id, INVALID_ID);
    assert!(!address_verify(&reg, &address, Vec::new(), b"hello".to_vec()));
    assert!(!address_verify(&reg, &address, vec![7; 10], b"hello".to_vec()));
}

#[test]
fn verify_with_dead_address_handle_is_false() {
    let mut reg = Registry::new();
    let key = create_private_key(&mut reg);
    let address = private_key_to_address(&mut reg, &key);
    let signed = private_key_sign(&reg, &key, b"hello".to_vec());
    destroy_address(&mut reg, &address);
    assert!(!address_verify(&reg, &address, signed.signature_bytes, b"hello".to_vec()));
    let r = address_to_string(&reg, &address);
    assert!(!r.success);
    assert!(r.result.is_empty());
    assert_eq!(r.error, "Invalid address handle");
}

#[test]
fn malformed_private_key_text_is_rejected() {
    let mut reg = Registry::new();
    for text in ["", "hello", "APrivateKey1", VIEW_KEY, ADDRESS, &KEY[..KEY.len() - 1]] {
        assert!(!validate_private_key(text.to_string()));
        assert_eq!(private_key_from_string(&mut reg, text.to_string()).id, INVALID_ID);
    }
    assert!(validate_private_key(KEY.to_string()));
}

#[test]
fn view_key_and_address_validation() {
    assert!(validate_view_key(VIEW_KEY.to_string()));
    assert!(!validate_view_key(KEY.to_string()));
    assert!(!validate_view_key(String::new()));
    assert!(validate_address(ADDRESS.to_string()));
    assert!(!validate_address(VIEW_KEY.to_string()));
    assert!(!validate_address(String::new()));
}

#[test]
fn view_key_text_round_trip_and_address() {
    let mut reg = Registry::new();
    let view_key = view_key_from_string(&mut reg, VIEW_KEY.to_string());
    assert_eq!(view_key.id, 1);
    let r = view_key_to_string(&reg, &view_key);
    assert!(r.success);
    assert_eq!(r.result, VIEW_KEY);
    let address = view_key_to_address(&mut reg, &view_key);
    assert_eq!(address.id, 2);
    assert_eq!(address_text(&reg, &address), ADDRESS);
    assert_eq!(view_key_from_string(&mut reg, "AViewKey1".to_string()).id, INVALID_ID);
}

#[test]
fn address_text_round_trip() {
    let mut reg = Registry::new();
    let address = address_from_string(&mut reg, ADDRESS.to_string());
    assert_eq!(address.id, 1);
    assert_eq!(address_text(&reg, &address), ADDRESS);
}

#[test]
fn destroyed_private_key_handle_is_invalid() {
    let mut reg = Registry::new();
    let key = private_key_from_string(&mut reg, KEY.to_string());
    destroy_private_key(&mut reg, &key);
    let r = private_key_to_string(&reg, &key);
    assert!(!r.success);
    assert!(r.result.is_empty());
    assert_eq!(r.error, "Invalid private key handle");
    let s = private_key_sign(&reg, &key, b"hello".to_vec());
    assert!(!s.success);
    assert!(s.signature_bytes.is_empty());
    assert_eq!(s.error, "Invalid private key handle");
    assert_eq!(private_key_to_address(&mut reg, &key).id, INVALID_ID);
    assert_eq!(private_key_to_view_key(&mut reg, &key).id, INVALID_ID);
    destroy_private_key(&mut reg, &key);
    let again = private_key_from_string(&mut reg, KEY.to_string());
    assert_ne!(again.id, key.id);
    assert_eq!(again.id, 2);
}

#[test]
fn unknown_handles_report_invalid() {
    let mut reg = Registry::new();
    let r = private_key_to_string(&reg, &PrivateKeyHandle { id: INVALID_ID });
    assert!(!r.success);
    assert_eq!(r.error, "Invalid private key handle");
    let r = view_key_to_string(&reg, &ViewKeyHandle { id: 42 });
    assert!(!r.success);
    assert!(r.result.is_empty());
    assert_eq!(r.error, "Invalid view key handle");
    assert_eq!(view_key_to_address(&mut reg, &ViewKeyHandle { id: 42 }).id, INVALID_ID);
    let r = address_to_string(&reg, &AddressHandle { id: 7 });
    assert_eq!(r.error, "Invalid address handle");
}

#[test]
fn destroy_is_idempotent() {
    let mut reg = Registry::new();
    let view_key = view_key_from_string(&mut reg, VIEW_KEY.to_string());
    destroy_view_key(&mut reg, &view_key);
    destroy_view_key(&mut reg, &view_key);
    assert!(!view_key_to_string(&reg, &view_key).success);
    destroy_signature(&mut reg, &SignatureHandle { id: 3 });
    destroy_address(&mut reg, &AddressHandle { id: 9 });
    destroy_private_key(&mut reg, &PrivateKeyHandle { id: INVALID_ID });
}

#[test]
fn many_creations_yield_distinct_live_handles() {
    let mut reg = Registry::new();
    let handles: Vec<PrivateKeyHandle> = (0..8).map(|_| create_private_key(&mut reg)).collect();
    for (i, h) in handles.iter().enumerate() {
        assert_eq!(h.id, i as u64 + 1);
        assert!(private_key_to_string(&reg, h).success);
    }
    let texts: Vec<String> = handles.iter().map(|h| text_of(&reg, h)).collect();
    for i in 0..texts.len() {
        for j in i + 1..texts.len() {
            assert_ne!(texts[i], texts[j]);
        }
    }
}

#[test]
fn identifiers_are_shared_across_kinds() {
    let mut reg = Registry::new();
    let key = private_key_from_string(&mut reg, KEY.to_string());
    let address = private_key_to_address(&mut reg, &key);
    let view_key = private_key_to_view_key(&mut reg, &key);
    assert_eq!((key.id, address.id, view_key.id), (1, 2, 3));
}

#[test]
fn long_message_signs_and_verifies() {
    let mut reg = Registry::new();
    let key = create_private_key(&mut reg);
    let address = private_key_to_address(&mut reg, &key);
    let message: Vec<u8> = (0..100u8).collect();
    let signed = private_key_sign(&reg, &key, message.clone());
    assert!(signed.success);
    assert!(signed.error.is_empty());
    assert!(address_verify(&reg, &address, signed.signature_bytes.clone(), message));
    let mut other: Vec<u8> = (0..100u8).collect();
    other[50] = 0xff;
    assert!(!address_verify(&reg, &address, signed.signature_bytes, other));
}
