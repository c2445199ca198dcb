use chatr::identity::{load_or_generate, local_identity, peer_id_of, SECRET_KEY_LENGTH};

fn expected_peer_id(secret: &[u8]) -> String {
    let keypair = libp2p::identity::Keypair::ed25519_from_bytes(secret.to_vec()).unwrap();
    libp2p::PeerId::from(keypair.public()).to_string()
}

#[test]
fn peer_id_is_derived_from_the_secret_key() {
    let secret = [7u8; 32];
    let id = peer_id_of(&secret).unwrap();
    assert_eq!(id, expected_peer_id(&secret));
    assert!(id.starts_with("12D3KooW"));
    assert_eq!(peer_id_of(&secret), Some(id));
}

#[test]
fn different_keys_have_different_peer_ids() {
    assert_ne!(peer_id_of(&[1u8; 32]), peer_id_of(&[2u8; 32]));
}

#[test]
fn peer_id_needs_a_key_of_32_bytes() {
    assert_eq!(SECRET_KEY_LENGTH, 32);
    assert_eq!(peer_id_of(&[]), None);
    assert_eq!(peer_id_of(&[0u8; 31]), None);
    assert_eq!(peer_id_of(&[0u8; 33]), None);
    assert_eq!(peer_id_of(&[0u8; 64]), None);
    assert!(peer_id_of(&[0u8; 32]).is_some());
}

#[test]
fn a_stored_key_is_kept() {
    let key = load_or_generate(Some(vec![9u8; 32]));
    assert!(!key.fresh);
    assert_eq!(key.secret, vec![9u8; 32]);
}

#[test]
fn a_new_key_is_drawn_where_the_store_holds_none() {
    let a = load_or_generate(None);
    let b = load_or_generate(None);
    assert!(a.fresh && b.fresh);
    assert_eq!(a.secret.len(), 32);
    assert_eq!(b.secret.len(), 32);
    assert_ne!(a.secret, b.secret);
}

#[test]
fn a_new_key_is_drawn_where_the_store_holds_no_key() {
    let key = load_or_generate(Some(vec![1, 2, 3]));
    assert!(key.fresh);
    assert_eq!(key.secret.len(), 32);
}

#[test]
fn the_same_stored_key_gives_the_same_identity() {
    let first = local_identity(Some(vec![5u8; 32]));
    let second = local_identity(Some(vec![5u8; 32]));
    assert_eq!(first.peer_id, second.peer_id);
    assert_eq!(first.peer_id, expected_peer_id(&[5u8; 32]));
    assert!(!first.fresh);
    let fresh = local_identity(None);
    assert!(fresh.fresh);
    assert_eq!(fresh.peer_id, expected_peer_id(&fresh.secret));
}
