use sentinel_wallet::cipher::Envelope;
use sentinel_wallet::error::SentinelError;
use sentinel_wallet::store::{CredentialStore, WalletRecord};
use sentinel_wallet::wallet::WalletManager;

const PASSWORD: &[u8] = b"correct horse battery staple";

fn manager() -> WalletManager {
    WalletManager::new(PASSWORD).expect("derivation succeeds")
}

#[test]
fn create_then_import_scenario() {
    let m = manager();
    let (kp, portable) = m.create_wallet().expect("creation succeeds");
    let imported = m.import_wallet(&portable).expect("import succeeds");
    assert_eq!(imported.pubkey_string(), kp.pubkey_string());
}

#[test]
fn portable_encoding_round_trip() {
    let m = manager();
    let (kp, portable) = m.create_wallet().expect("creation succeeds");
    let imported = m.import_wallet(&portable).expect("import succeeds");
    assert_eq!(imported.to_bytes(), kp.to_bytes());
}

#[test]
fn seal_open_round_trip() {
    let m = manager();
    let (kp, _) = m.create_wallet().expect("creation succeeds");
    let env = m.seal_for_storage(&kp).expect("sealing succeeds");
    let opened = m.open_from_storage(&env).expect("opening succeeds");
    assert_eq!(opened.to_bytes(), kp.to_bytes());
}

#[test]
fn same_password_two_sessions() {
    let m1 = manager();
    let m2 = manager();
    let (kp, _) = m1.create_wallet().expect("creation succeeds");
    let env = m1.seal_for_storage(&kp).expect("sealing succeeds");
    let opened = m2.open_from_storage(&env).expect("re-derived key opens");
    assert_eq!(opened.to_bytes(), kp.to_bytes());
}

#[test]
fn wrong_password_rejected() {
    let m1 = manager();
    let m2 = WalletManager::new(b"tr0ub4dor&3").expect("derivation succeeds");
    let (kp, _) = m1.create_wallet().expect("creation succeeds");
    let env = m1.seal_for_storage(&kp).expect("sealing succeeds");
    assert!(matches!(m2.open_from_storage(&env), Err(SentinelError::Authentication)));
}

#[test]
fn envelope_has_documented_layout() {
    let m = manager();
    let (kp, _) = m.create_wallet().expect("creation succeeds");
    let env = m.seal_for_storage(&kp).expect("sealing succeeds");
    assert_eq!(env.nonce.len(), 12);
    // 64 bytes of keypair plus a 16-byte tag
    assert_eq!(env.sealed.len(), 80);
    assert_eq!(env.to_blob().len(), 92);
}

#[test]
fn ciphertext_differs_from_plaintext() {
    let m = manager();
    let (kp, _) = m.create_wallet().expect("creation succeeds");
    let env = m.seal_for_storage(&kp).expect("sealing succeeds");
    assert_ne!(env.sealed[..64].to_vec(), kp.to_bytes());
}

#[test]
fn nonce_uniqueness_over_many_seals() {
    let m = manager();
    let (kp, _) = m.create_wallet().expect("creation succeeds");
    let mut seen = std::collections::HashSet::new();
    for _ in 0..10_000 {
        let env = m.seal_for_storage(&kp).expect("sealing succeeds");
        assert!(seen.insert(env.nonce.clone()), "a nonce repeated");
    }
    assert_eq!(seen.len(), 10_000);
}

#[test]
fn tamper_detection_every_bit() {
    let m = manager();
    let (kp, _) = m.create_wallet().expect("creation succeeds");
    let env = m.seal_for_storage(&kp).expect("sealing succeeds");
    // flip every single bit of the ciphertext region and of the tag region
    for byte in 0..env.sealed.len() {
        for bit in 0..8 {
            let mut sealed = env.sealed.clone();
            sealed[byte] ^= 1 << bit;
            let tampered = Envelope { nonce: env.nonce.clone(), sealed };
            assert!(
                matches!(m.open_from_storage(&tampered), Err(SentinelError::Authentication)),
                "a flipped bit went undetected at byte {byte} bit {bit}"
            );
        }
    }
}

#[test]
fn truncated_envelope_rejected() {
    let m = manager();
    let (kp, _) = m.create_wallet().expect("creation succeeds");
    let env = m.seal_for_storage(&kp).expect("sealing succeeds");
    let mut sealed = env.sealed.clone();
    sealed.pop();
    let truncated = Envelope { nonce: env.nonce.clone(), sealed };
    assert!(matches!(m.open_from_storage(&truncated), Err(SentinelError::Authentication)));
}

#[test]
fn import_rejects_decoded_length_off_by_one() {
    let m = manager();
    let (kp, _) = m.create_wallet().expect("creation succeeds");
    let bytes = kp.to_bytes();

    let short = bs58::encode(&bytes[..63]).into_string();
    assert!(matches!(m.import_wallet(&short), Err(SentinelError::Encoding)));

    let mut long = bytes.clone();
    long.push(0);
    let long = bs58::encode(&long).into_string();
    assert!(matches!(m.import_wallet(&long), Err(SentinelError::Encoding)));
}

#[test]
fn import_rejects_invalid_characters() {
    let m = manager();
    assert!(matches!(m.import_wallet("not base58: 0OIl"), Err(SentinelError::Encoding)));
}

#[test]
fn import_rejects_inconsistent_halves() {
    let m = manager();
    let (kp, _) = m.create_wallet().expect("creation succeeds");
    let mut bytes = kp.to_bytes();
    // corrupt the public half so it no longer matches the secret half
    bytes[40] ^= 0x01;
    let corrupted = bs58::encode(&bytes).into_string();
    assert!(matches!(m.import_wallet(&corrupted), Err(SentinelError::Encoding)));
}

#[test]
fn pubkey_string_is_base58_of_public_half() {
    let m = manager();
    let (kp, _) = m.create_wallet().expect("creation succeeds");
    let bytes = kp.to_bytes();
    let expected = bs58::encode(&bytes[32..]).into_string();
    assert_eq!(kp.pubkey_string(), expected);
}

#[test]
fn envelope_blob_round_trip() {
    let m = manager();
    let (kp, _) = m.create_wallet().expect("creation succeeds");
    let env = m.seal_for_storage(&kp).expect("sealing succeeds");
    let blob = env.to_blob();
    let rebuilt = Envelope::from_blob(&blob).expect("well-formed blob");
    assert_eq!(rebuilt, env);
    let opened = m.open_from_storage(&rebuilt).expect("opening succeeds");
    assert_eq!(opened.to_bytes(), kp.to_bytes());
}

#[test]
fn envelope_blob_too_short_rejected() {
    assert!(Envelope::from_blob(&[0u8; 27]).is_none());
    assert!(Envelope::from_blob(&[0u8; 28]).is_some());
}

fn record(m: &WalletManager, label: Option<&str>) -> WalletRecord {
    let (kp, _) = m.create_wallet().expect("creation succeeds");
    WalletRecord {
        pubkey: kp.pubkey_string(),
        envelope: m.seal_for_storage(&kp).expect("sealing succeeds"),
        label: label.map(|l| l.to_string()),
        created_at: 1_700_000_000,
    }
}

#[test]
fn duplicate_save_is_a_conflict_not_an_overwrite() {
    let m = manager();
    let mut store = CredentialStore::new();
    let first = record(&m, Some("main"));
    let mut second = record(&m, Some("other"));
    second.pubkey = first.pubkey.clone();

    assert_eq!(store.save_wallet(first.clone()), Ok(()));
    assert_eq!(store.save_wallet(second), Err(SentinelError::Conflict));
    let stored = store.get(&first.pubkey).expect("record is present");
    assert_eq!(*stored, first);
    assert_eq!(store.list().len(), 1);
}

#[test]
fn store_get_and_insertion_order() {
    let m = manager();
    let mut store = CredentialStore::new();
    assert!(store.get(&"missing".to_string()).is_none());

    let a = record(&m, None);
    let b = record(&m, Some("second"));
    assert_eq!(store.save_wallet(a.clone()), Ok(()));
    assert_eq!(store.save_wallet(b.clone()), Ok(()));

    assert_eq!(store.get(&a.pubkey), Some(&a));
    assert_eq!(store.get(&b.pubkey), Some(&b));
    assert_eq!(store.list().as_slice(), &[a, b]);
}
