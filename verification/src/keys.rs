//! The node's long-term identity key material.
//!
//! A key pair is 32 public-key bytes and 32 secret-key bytes. The pair is
//! well formed only when the secret key derives exactly the public key under
//! the identity algorithm; a stored pair that breaks this invariant is a
//! fatal load error, never silently accepted. The key file holds the pair as
//! 64 bytes: public key first, secret key second, no header.

use vstd::prelude::*;

verus! {

/// Bytes in a public key.
pub const PUBLIC_KEY_SIZE: usize = 32;

/// Bytes in a secret key.
pub const SECRET_KEY_SIZE: usize = 32;

/// Bytes in the key file: the public key followed by the secret key.
pub const KEY_FILE_SIZE: usize = 64;

/// The public key that the identity algorithm derives from a secret key.
/// Named, not written out: the algorithm (curve25519 scalar multiplication
/// of the base point) is the cryptographic collaborator's, and its result
/// depends on the secret key bytes alone.
pub uninterp spec fn derived_public_key(sk: Seq<u8>) -> Seq<u8>;

/// The node's identity: a public key and the secret key it was derived from.
#[derive(Clone, Debug, PartialEq, Eq)]
pub struct KeyPair {
    /// Public key bytes, advertised to peers.
    pub public: Vec<u8>,
    /// Secret key bytes, never advertised.
    pub secret: Vec<u8>,
}

impl KeyPair {
    /// Both keys have their fixed size and the secret key derives exactly
    /// the public key.
    pub open spec fn wf(self) -> bool {
        &&& self.public@.len() == PUBLIC_KEY_SIZE
        &&& self.secret@.len() == SECRET_KEY_SIZE
        &&& self.public@ == derived_public_key(self.secret@)
    }
}

/// Relies on tox's `gen_keypair` (libsodium's `crypto_box_keypair`): it draws
/// a fresh random secret key and returns it with the public key computed from
/// it by `crypto_scalarmult_base`, the same derivation `SecretKey::public_key`
/// uses. Nothing else is promised of the random bytes.
#[verifier::external_body]
fn crypto_gen_keypair() -> (r: (Vec<u8>, Vec<u8>))
    ensures
        r.0@.len() == PUBLIC_KEY_SIZE,
        r.1@.len() == SECRET_KEY_SIZE,
        r.0@ == derived_public_key(r.1@),
{
    let (pk, sk) = tox::crypto::gen_keypair();
    (pk.as_ref().to_vec(), sk.as_ref().to_vec())
}

/// Relies on tox's `SecretKey::public_key` (libsodium's
/// `crypto_scalarmult_base`): the public key computed from the secret key
/// bytes alone.
#[verifier::external_body]
fn crypto_derive_public(sk: &Vec<u8>) -> (r: Vec<u8>)
    requires
        sk@.len() == SECRET_KEY_SIZE,
    ensures
        r@ == derived_public_key(sk@),
        r@.len() == PUBLIC_KEY_SIZE,
{
    let secret = tox::crypto::SecretKey::from_slice(sk).expect("secret key has the fixed size");
    secret.public_key().as_ref().to_vec()
}

/// Generate a fresh identity. The pair is well formed: the secret key
/// derives exactly the public key.
pub fn generate_key_pair() -> (kp: KeyPair)
    ensures
        kp.wf(),
{
    let (public, secret) = crypto_gen_keypair();
    KeyPair { public, secret }
}

/// Build the node's identity from a secret key handed in directly: the
/// public key is derived from it, so the pair is well formed by
/// construction.
pub fn key_pair_from_secret(secret: Vec<u8>) -> (kp: KeyPair)
    requires
        secret@.len() == SECRET_KEY_SIZE,
    ensures
        kp.wf(),
        kp.secret@ == secret@,
{
    let public = crypto_derive_public(&secret);
    KeyPair { public, secret }
}

/// Why a stored key pair was rejected.
#[derive(Clone, Copy, Debug, PartialEq, Eq)]
pub enum KeyLoadError {
    /// The key file did not hold exactly 64 bytes.
    WrongLength,
    /// The stored public key is not the one the stored secret key derives.
    KeyMismatch,
}

/// Copy `bytes[start..end]` into a fresh vector.
fn copy_range(bytes: &Vec<u8>, start: usize, end: usize) -> (r: Vec<u8>)
    requires
        start <= end <= bytes@.len(),
    ensures
        r@ == bytes@.subrange(start as int, end as int),
{
    let mut r: Vec<u8> = Vec::new();
    let mut i: usize = start;
    while i < end
        invariant
            start <= i <= end <= bytes@.len(),
            r@ == bytes@.subrange(start as int, i as int),
        decreases end - i,
    {
        r.push(bytes[i]);
        i = i + 1;
        proof {
            assert(r@ =~= bytes@.subrange(start as int, i as int));
        }
    }
    r
}

/// True exactly when the two byte vectors hold the same bytes.
fn bytes_eq(a: &Vec<u8>, b: &Vec<u8>) -> (r: bool)
    ensures
        r == (a@ == b@),
{
    if a.len() != b.len() {
        return false;
    }
    let mut i: usize = 0;
    while i < a.len()
        invariant
            i <= a@.len(),
            a@.len() == b@.len(),
            forall|j: int| 0 <= j < i ==> a@[j] == b@[j],
        decreases a@.len() - i,
    {
        if a[i] != b[i] {
            return false;
        }
        i = i + 1;
    }
    proof {
        assert(a@ =~= b@);
    }
    true
}

/// Parse a key pair from the fixed-layout key file: bytes `[0, 32)` are the
/// public key, bytes `[32, 64)` the secret key. Succeeds exactly when the
/// file holds 64 bytes whose first half is derived from its second half;
/// a stored pair whose keys do not match is rejected, never accepted.
pub fn load_keys(bytes: &Vec<u8>) -> (r: Result<KeyPair, KeyLoadError>)
    ensures
        match r {
            Ok(kp) => {
                &&& bytes@.len() == KEY_FILE_SIZE
                &&& kp.public@ == bytes@.subrange(0, PUBLIC_KEY_SIZE as int)
                &&& kp.secret@ == bytes@.subrange(PUBLIC_KEY_SIZE as int, KEY_FILE_SIZE as int)
                &&& kp.wf()
            },
            Err(KeyLoadError::WrongLength) => bytes@.len() != KEY_FILE_SIZE,
            Err(KeyLoadError::KeyMismatch) => {
                &&& bytes@.len() == KEY_FILE_SIZE
                &&& bytes@.subrange(0, PUBLIC_KEY_SIZE as int) != derived_public_key(
                    bytes@.subrange(PUBLIC_KEY_SIZE as int, KEY_FILE_SIZE as int),
                )
            },
        },
{
    if bytes.len() != KEY_FILE_SIZE {
        return Err(KeyLoadError::WrongLength);
    }
    let public = copy_range(bytes, 0, PUBLIC_KEY_SIZE);
    let secret = copy_range(bytes, PUBLIC_KEY_SIZE, KEY_FILE_SIZE);
    let derived = crypto_derive_public(&secret);
    if !bytes_eq(&public, &derived) {
        return Err(KeyLoadError::KeyMismatch);
    }
    Ok(KeyPair { public, secret })
}

/// Serialize a key pair into the fixed key-file layout: the 32 public-key
/// bytes followed by the 32 secret-key bytes.
pub fn key_pair_to_bytes(kp: &KeyPair) -> (r: Vec<u8>)
    requires
        kp.wf(),
    ensures
        r@ == kp.public@ + kp.secret@,
        r@.len() == KEY_FILE_SIZE,
{
    let mut r = copy_range(&kp.public, 0, PUBLIC_KEY_SIZE);
    let mut secret = copy_range(&kp.secret, 0, SECRET_KEY_SIZE);
    proof {
        assert(r@ =~= kp.public@);
        assert(secret@ =~= kp.secret@);
    }
    r.append(&mut secret);
    r
}

/// The key file is lossless: the bytes serialized from a well-formed pair
/// hold exactly that pair in the fixed layout, so loading them gives the
/// pair back.
pub proof fn lemma_key_file_round_trip(public: Seq<u8>, secret: Seq<u8>)
    requires
        public.len() == PUBLIC_KEY_SIZE,
        secret.len() == SECRET_KEY_SIZE,
        public == derived_public_key(secret),
    ensures
        (public + secret).len() == KEY_FILE_SIZE,
        (public + secret).subrange(0, PUBLIC_KEY_SIZE as int) == public,
        (public + secret).subrange(PUBLIC_KEY_SIZE as int, KEY_FILE_SIZE as int) == secret,
{
    assert((public + secret).subrange(0, PUBLIC_KEY_SIZE as int) =~= public);
    assert((public + secret).subrange(PUBLIC_KEY_SIZE as int, KEY_FILE_SIZE as int) =~= secret);
}

/// What the key file gave: its bytes, or the reason there were none.
pub enum KeyFileRead {
    /// The file exists and holds these bytes.
    Found(Vec<u8>),
    /// The file does not exist.
    Missing,
    /// The file exists but could not be read.
    Unreadable,
}

/// Why the node's identity could not be set up.
#[derive(Clone, Copy, Debug, PartialEq, Eq)]
pub enum KeySetupError {
    /// The key file did not hold exactly 64 bytes.
    WrongLength,
    /// The stored public key is not the one the stored secret key derives.
    KeyMismatch,
    /// The key file exists but could not be read.
    Unreadable,
}

/// The node's identity, with the bytes to persist when the pair is fresh.
#[derive(Clone, Debug, PartialEq, Eq)]
pub struct KeySetup {
    /// The identity the node will run with.
    pub pair: KeyPair,
    /// For a freshly generated pair, the key-file bytes to write back;
    /// absent when the pair was loaded from an existing file.
    pub persist: Option<Vec<u8>>,
}

/// Decide the node's identity from the outcome of reading the key file:
/// an existing file must parse as a matching pair (any mismatch is fatal);
/// a missing file means a fresh pair is generated and handed back for
/// persisting; an unreadable file is fatal and never masked.
pub fn load_or_gen_keys(read: KeyFileRead) -> (r: Result<KeySetup, KeySetupError>)
    ensures
        match r {
            Ok(setup) => {
                &&& setup.pair.wf()
                &&& match read {
                    KeyFileRead::Found(bytes) => {
                        &&& bytes@.len() == KEY_FILE_SIZE
                        &&& setup.pair.public@ == bytes@.subrange(0, PUBLIC_KEY_SIZE as int)
                        &&& setup.pair.secret@ == bytes@.subrange(
                            PUBLIC_KEY_SIZE as int,
                            KEY_FILE_SIZE as int,
                        )
                        &&& setup.persist is None
                    },
                    KeyFileRead::Missing => {
                        setup.persist matches Some(bytes) && bytes@ == setup.pair.public@
                            + setup.pair.secret@
                    },
                    KeyFileRead::Unreadable => false,
                }
            },
            Err(KeySetupError::WrongLength) => read matches KeyFileRead::Found(bytes)
                && bytes@.len() != KEY_FILE_SIZE,
            Err(KeySetupError::KeyMismatch) => read matches KeyFileRead::Found(bytes) && {
                &&& bytes@.len() == KEY_FILE_SIZE
                &&& bytes@.subrange(0, PUBLIC_KEY_SIZE as int) != derived_public_key(
                    bytes@.subrange(PUBLIC_KEY_SIZE as int, KEY_FILE_SIZE as int),
                )
            },
            Err(KeySetupError::Unreadable) => read is Unreadable,
        },
{
    match read {
        KeyFileRead::Found(bytes) => match load_keys(&bytes) {
            Ok(pair) => Ok(KeySetup { pair, persist: None }),
            Err(KeyLoadError::WrongLength) => Err(KeySetupError::WrongLength),
            Err(KeyLoadError::KeyMismatch) => Err(KeySetupError::KeyMismatch),
        },
        KeyFileRead::Missing => {
            let pair = generate_key_pair();
            let file_bytes = key_pair_to_bytes(&pair);
            Ok(KeySetup { pair, persist: Some(file_bytes) })
        },
        KeyFileRead::Unreadable => Err(KeySetupError::Unreadable),
    }
}

} // verus!
