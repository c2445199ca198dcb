//! The identity of the node: a long-lived Ed25519 secret key, kept in the
//! store as its 32 raw bytes, and the peer id that follows from it.

use vstd::prelude::*;
use crate::outside::{derive_peer_id, ed25519_peer_id, generate_secret};
use crate::text::opt_text;

verus! {

/// The length of an Ed25519 secret key in bytes.
pub const SECRET_KEY_LENGTH: usize = 32;

/// Whether bytes from the store can serve as the secret key.
pub open spec fn is_secret_key(bytes: Seq<u8>) -> bool {
    bytes.len() == SECRET_KEY_LENGTH
}

/// The peer id of a secret key. It is a function of the key alone: the same
/// key gives the same id, in every run and on every machine.
pub fn peer_id_of(secret: &[u8]) -> (id: Option<String>)
    ensures
        id.is_some() == is_secret_key(secret@),
        opt_text(id) == (if is_secret_key(secret@) {
            Some(ed25519_peer_id(secret@))
        } else {
            None
        }),
{
    derive_peer_id(secret)
}

/// The secret key of the node, and whether it is new and has to be stored.
#[derive(Debug, PartialEq, Eq)]
pub struct LoadedKey {
    pub secret: Vec<u8>,
    pub fresh: bool,
}

/// The secret key to go on with, given what the store holds. A stored key of
/// the right length is kept. Where the store holds none, or something that
/// is no key, a new key is drawn, which makes a new identity.
pub fn load_or_generate(stored: Option<Vec<u8>>) -> (key: LoadedKey)
    ensures
        is_secret_key(key.secret@),
        key.fresh == !(stored is Some && is_secret_key(stored->0@)),
        !key.fresh ==> key.secret@ == stored->0@,
{
    match stored {
        Some(bytes) => {
            if bytes.len() == SECRET_KEY_LENGTH {
                LoadedKey { secret: bytes, fresh: false }
            } else {
                LoadedKey { secret: generate_secret(), fresh: true }
            }
        },
        None => LoadedKey { secret: generate_secret(), fresh: true },
    }
}

/// The identity that the node starts with: its key and its peer id.
#[derive(Debug, PartialEq, Eq)]
pub struct LocalIdentity {
    pub secret: Vec<u8>,
    pub peer_id: String,
    pub fresh: bool,
}

/// Loads the key from what the store holds, or draws a new one, and derives
/// the peer id.
pub fn local_identity(stored: Option<Vec<u8>>) -> (identity: LocalIdentity)
    ensures
        is_secret_key(identity.secret@),
        identity.peer_id@ == ed25519_peer_id(identity.secret@),
        identity.fresh == !(stored is Some && is_secret_key(stored->0@)),
        !identity.fresh ==> identity.secret@ == stored->0@,
{
    let key = load_or_generate(stored);
    let peer_id = match peer_id_of(key.secret.as_slice()) {
        Some(id) => id,
        None => String::new(),
    };
    LocalIdentity { secret: key.secret, peer_id, fresh: key.fresh }
}

/// A node that starts twice on the same stored key has the same peer id both
/// times.
pub proof fn lemma_same_key_same_peer(first: Seq<u8>, second: Seq<u8>)
    requires
        first == second,
    ensures
        ed25519_peer_id(first) == ed25519_peer_id(second),
{
}

} // verus!
