//! The calls into other crates. Nothing here is proved: each function states
//! what the crate's own source shows of the call it makes, and the rest of
//! the library is proved from these statements.

use vstd::prelude::*;

verus! {

/// Whether `c` is one of `0`-`9`, `a`-`f`.
pub open spec fn is_lower_hex(c: char) -> bool {
    ('0' <= c && c <= '9') || ('a' <= c && c <= 'f')
}

/// The shape of a hyphenated lower-case UUID: 36 characters, hyphens after
/// the 8th, 12th, 16th and 20th hex digit.
pub open spec fn is_uuid_text(s: Seq<char>) -> bool {
    &&& s.len() == 36
    &&& forall|i: int|
        0 <= i < 36 ==> if i == 8 || i == 13 || i == 18 || i == 23 {
            s[i] == '-'
        } else {
            is_lower_hex(#[trigger] s[i])
        }
}

/// A new random identifier, from `uuid::Uuid::new_v4` and its `Display`.
/// Claimed: the text has the hyphenated lower-case shape. Which identifier
/// comes out is left open.
#[verifier::external_body]
pub(crate) fn fresh_id() -> (id: String)
    ensures
        is_uuid_text(id@),
{
    uuid::Uuid::new_v4().to_string()
}

/// The current time as an RFC 3339 text: `std::time::SystemTime::now`,
/// turned into a `chrono::DateTime<Utc>` by its `From<SystemTime>` and
/// written by `DateTime::to_rfc3339`. Nothing is claimed of the text. The
/// conversion takes a clock that stands before 1970 too; it gives up only
/// on a time more than 262 000 years away, which no system clock holds.
#[verifier::external_body]
pub(crate) fn now_rfc3339() -> (now: String) {
    chrono::DateTime::<chrono::Utc>::from(std::time::SystemTime::now()).to_rfc3339()
}

/// A random index below `n`, from `rand::Rng::gen_range` on the thread's
/// generator. Claimed: the index is below `n`. The call panics on an empty
/// range, which `requires` leaves out.
#[verifier::external_body]
pub(crate) fn random_index(n: usize) -> (i: usize)
    requires
        n > 0,
    ensures
        i < n,
{
    rand::Rng::gen_range(&mut rand::thread_rng(), 0..n)
}

/// The JSON text of an object with three keys that each hold a string, as
/// `serde_json` writes it.
pub uninterp spec fn json_object_text(
    first: (Seq<char>, Seq<char>),
    second: (Seq<char>, Seq<char>),
    third: (Seq<char>, Seq<char>),
) -> Seq<u8>;

/// Writes an object of three string fields with `serde_json::Map::insert`
/// and `serde_json::to_vec`. Claimed: the bytes are a function of the keys
/// and values alone.
#[verifier::external_body]
pub(crate) fn write_json_object(
    first: (&str, &str),
    second: (&str, &str),
    third: (&str, &str),
) -> (bytes: Vec<u8>)
    ensures
        bytes@ == json_object_text(
            (first.0@, first.1@),
            (second.0@, second.1@),
            (third.0@, third.1@),
        ),
{
    let mut object = serde_json::Map::new();
    object.insert(first.0.to_string(), serde_json::Value::String(first.1.to_string()));
    object.insert(second.0.to_string(), serde_json::Value::String(second.1.to_string()));
    object.insert(third.0.to_string(), serde_json::Value::String(third.1.to_string()));
    serde_json::to_vec(&serde_json::Value::Object(object)).unwrap_or_default()
}

/// What `serde_json` reads out of bytes under two keys: `None` where the
/// bytes are not UTF-8 or not JSON, else the string values under the keys,
/// each `None` where the key is missing or holds no string.
pub uninterp spec fn json_string_pair(bytes: Seq<u8>, first: Seq<char>, second: Seq<char>) -> Option<
    (Option<Seq<char>>, Option<Seq<char>>),
>;

/// Reads two string fields with `String::from_utf8`, `serde_json::from_str`,
/// indexing by key and `Value::as_str`. Claimed: the result is a function of
/// the bytes and the keys alone.
#[verifier::external_body]
pub(crate) fn read_json_strings(bytes: &[u8], first: &str, second: &str) -> (r: Option<
    (Option<String>, Option<String>),
>)
    ensures
        match (r, json_string_pair(bytes@, first@, second@)) {
            (Some(f), Some(g)) => crate::text::opt_text(f.0) == g.0 && crate::text::opt_text(f.1)
                == g.1,
            (None, None) => true,
            _ => false,
        },
{
    let text = String::from_utf8(bytes.to_vec()).ok()?;
    let value: serde_json::Value = serde_json::from_str(&text).ok()?;
    Some((value[first].as_str().map(String::from), value[second].as_str().map(String::from)))
}

/// The peer id that belongs to an Ed25519 secret key of 32 bytes: the
/// base-58 text of the multihash of the public key.
pub uninterp spec fn ed25519_peer_id(secret: Seq<u8>) -> Seq<char>;

/// Derives the peer id of a secret key with `Keypair::ed25519_from_bytes`,
/// `Keypair::public`, `PeerId::from` and its `Display`. Claimed: the call
/// succeeds exactly on keys of 32 bytes, and the id is a function of the key
/// alone.
#[verifier::external_body]
pub(crate) fn derive_peer_id(secret: &[u8]) -> (id: Option<String>)
    ensures
        id.is_some() == (secret@.len() == 32),
        id matches Some(text) ==> text@ == ed25519_peer_id(secret@),
{
    let keypair = libp2p::identity::Keypair::ed25519_from_bytes(secret.to_vec()).ok()?;
    Some(libp2p::PeerId::from(keypair.public()).to_string())
}

/// A new random Ed25519 secret key, from `ed25519::SecretKey::generate`.
/// Claimed: the key has 32 bytes. Which key comes out is left open.
#[verifier::external_body]
pub(crate) fn generate_secret() -> (secret: Vec<u8>)
    ensures
        secret@.len() == 32,
{
    libp2p::identity::ed25519::SecretKey::generate().as_ref().to_vec()
}

} // verus!
