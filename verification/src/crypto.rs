use vstd::prelude::*;

use sodiumoxide::crypto::hash::sha256;
use sodiumoxide::crypto::sign;

use crate::error::NativeError;

verus! {

/// Length of an Ed25519 public key.
pub const PUBLIC_KEY_BYTES: usize = 32;

/// Length of an Ed25519 seed.
pub const SEED_BYTES: usize = 32;

/// Length of an Ed25519 secret key.
pub const SECRET_KEY_BYTES: usize = 64;

/// Length of an Ed25519 signature.
pub const SIGNATURE_BYTES: usize = 64;

/// Length of a SHA-256 digest.
pub const DIGEST_BYTES: usize = 32;

/// The SHA-256 digest of `data`, as libsodium computes it.
pub uninterp spec fn sha256_of(data: Seq<u8>) -> Seq<u8>;

/// Whether libsodium's detached Ed25519 check accepts `sig` as a signature of
/// `msg` under the public key `key`.
pub uninterp spec fn ed25519_verifies(key: Seq<u8>, msg: Seq<u8>, sig: Seq<u8>) -> bool;

/// The detached Ed25519 signature that libsodium computes for `msg` with the
/// secret key `secret`.
pub uninterp spec fn ed25519_signature(secret: Seq<u8>, msg: Seq<u8>) -> Seq<u8>;

/// The public key and the secret key that libsodium derives from `seed`.
pub uninterp spec fn ed25519_keypair_of_seed(seed: Seq<u8>) -> (Seq<u8>, Seq<u8>);

/// Bytes that the signature type of sodiumoxide accepts: 64 of them, with the three
/// highest bits of the last byte clear. libsodium refuses every other 64 bytes as a
/// signature, since their scalar half is not reduced.
pub open spec fn is_canonical_signature(bytes: Seq<u8>) -> bool {
    &&& bytes.len() == SIGNATURE_BYTES
    &&& bytes[63] & 0xe0u8 == 0
}

/// sodiumoxide's `sign::PublicKey::from_slice`: a key exactly when the slice holds
/// 32 bytes, and then a copy of them.
#[verifier::external_body]
fn sodium_public_key_from_slice(bytes: &[u8]) -> (res: Option<Vec<u8>>)
    ensures
        res is Some <==> bytes@.len() == PUBLIC_KEY_BYTES,
        res matches Some(v) ==> v@ == bytes@,
{
    match sign::PublicKey::from_slice(bytes) {
        Some(key) => Some(key.0.to_vec()),
        None => None,
    }
}

/// sodiumoxide's `sign::Seed::from_slice`: a seed exactly when the slice holds 32
/// bytes, and then a copy of them.
#[verifier::external_body]
fn sodium_seed_from_slice(bytes: &[u8]) -> (res: Option<Vec<u8>>)
    ensures
        res is Some <==> bytes@.len() == SEED_BYTES,
        res matches Some(v) ==> v@ == bytes@,
{
    match sign::Seed::from_slice(bytes) {
        Some(seed) => Some(seed.0.to_vec()),
        None => None,
    }
}

/// sodiumoxide's `sign::SecretKey::from_slice`: a key exactly when the slice holds
/// 64 bytes, and then a copy of them.
#[verifier::external_body]
fn sodium_secret_key_from_slice(bytes: &[u8]) -> (res: Option<Vec<u8>>)
    ensures
        res is Some <==> bytes@.len() == SECRET_KEY_BYTES,
        res matches Some(v) ==> v@ == bytes@,
{
    match sign::SecretKey::from_slice(bytes) {
        Some(key) => Some(key.0.to_vec()),
        None => None,
    }
}

/// The signature type that sodiumoxide re-exports (`ed25519::Signature::from_bytes`):
/// a signature exactly when the slice holds 64 bytes whose last byte has its three
/// highest bits clear, and then a copy of them.
#[verifier::external_body]
fn sodium_signature_from_bytes(bytes: &[u8]) -> (res: Option<Vec<u8>>)
    ensures
        res is Some <==> is_canonical_signature(bytes@),
        res matches Some(v) ==> v@ == bytes@,
{
    match sign::Signature::from_bytes(bytes) {
        Ok(sig) => Some(sig.to_bytes().to_vec()),
        Err(_) => None,
    }
}

/// sodiumoxide's `hash::sha256::Digest::from_slice`: a digest exactly when the slice
/// holds 32 bytes, and then a copy of them.
#[verifier::external_body]
fn sodium_digest_from_slice(bytes: &[u8]) -> (res: Option<Vec<u8>>)
    ensures
        res is Some <==> bytes@.len() == DIGEST_BYTES,
        res matches Some(v) ==> v@ == bytes@,
{
    match sha256::Digest::from_slice(bytes) {
        Some(d) => Some(d.0.to_vec()),
        None => None,
    }
}

/// sodiumoxide's `hash::sha256::hash`: the 32-byte SHA-256 digest of the input.
#[verifier::external_body]
fn sodium_sha256(data: &[u8]) -> (digest: Vec<u8>)
    ensures
        digest@ == sha256_of(data@),
        digest@.len() == DIGEST_BYTES,
{
    sha256::hash(data).0.to_vec()
}

/// sodiumoxide's `sign::verify_detached`, on a signature, a message and a public key
/// given as bytes; the result is libsodium's verdict.
#[verifier::external_body]
fn sodium_verify_detached(sig: &[u8], msg: &[u8], key: &[u8]) -> (ok: bool)
    requires
        is_canonical_signature(sig@),
        key@.len() == PUBLIC_KEY_BYTES,
    ensures
        ok == ed25519_verifies(key@, msg@, sig@),
{
    let sig = sign::Signature::from_bytes(sig).unwrap();
    let key = sign::PublicKey::from_slice(key).unwrap();
    sign::verify_detached(&sig, msg, &key)
}

/// sodiumoxide's `sign::sign_detached`, with the secret key given as bytes. The
/// signature it returns has passed the signature type's own check, so its last
/// byte has the three highest bits clear.
#[verifier::external_body]
fn sodium_sign_detached(msg: &[u8], secret: &[u8]) -> (sig: Vec<u8>)
    requires
        secret@.len() == SECRET_KEY_BYTES,
    ensures
        sig@ == ed25519_signature(secret@, msg@),
        is_canonical_signature(sig@),
{
    let key = sign::SecretKey::from_slice(secret).unwrap();
    sign::sign_detached(msg, &key).to_bytes().to_vec()
}

/// sodiumoxide's `sign::keypair_from_seed`, with the seed given as bytes: the
/// 32-byte public key and the 64-byte secret key derived from it.
#[verifier::external_body]
fn sodium_keypair_from_seed(seed: &[u8]) -> (keys: (Vec<u8>, Vec<u8>))
    requires
        seed@.len() == SEED_BYTES,
    ensures
        (keys.0@, keys.1@) == ed25519_keypair_of_seed(seed@),
        keys.0@.len() == PUBLIC_KEY_BYTES,
        keys.1@.len() == SECRET_KEY_BYTES,
{
    let seed = sign::Seed::from_slice(seed).unwrap();
    let (pk, sk) = sign::keypair_from_seed(&seed);
    (pk.0.to_vec(), sk.0.to_vec())
}

/// sodiumoxide's `randombytes::randombytes_into`, filling a 32-byte seed. Nothing
/// is known of the bytes but their number.
#[verifier::external_body]
fn sodium_random_seed() -> (seed: Vec<u8>)
    ensures
        seed@.len() == SEED_BYTES,
{
    let mut seed = [0u8; 32];
    sodiumoxide::randombytes::randombytes_into(&mut seed);
    seed.to_vec()
}

/// sodiumoxide's `init`: whether libsodium could be initialised. Nothing is known of
/// the outcome, which depends on the machine.
#[verifier::external_body]
fn sodium_init() -> (ok: bool)
{
    sodiumoxide::init().is_ok()
}

/// Initialises libsodium, which must happen before keys are generated.
pub fn init() -> (res: Result<(), NativeError>)
    ensures
        res matches Err(e) ==> e == NativeError::InitFailed,
{
    if sodium_init() {
        Ok(())
    } else {
        Err(NativeError::InitFailed)
    }
}

/// An Ed25519 public key.
#[derive(Debug)]
pub struct PublicKey {
    bytes: Vec<u8>,
}

impl View for PublicKey {
    type V = Seq<u8>;

    closed spec fn view(&self) -> Seq<u8> {
        self.bytes@
    }
}

impl PublicKey {
    #[verifier::type_invariant]
    spec fn inv(self) -> bool {
        self.bytes@.len() == PUBLIC_KEY_BYTES
    }


    /// Builds a key from its bytes: refused with `InvalidBufferLen` unless there are
    /// exactly 32 of them.
    pub fn from_bytes(bytes: &[u8]) -> (res: Result<PublicKey, NativeError>)
        ensures
            res is Err <==> bytes@.len() != PUBLIC_KEY_BYTES,
            res matches Err(e) ==> e == NativeError::InvalidBufferLen,
            res matches Ok(k) ==> k@ == bytes@,
    {
        if bytes.len() != PUBLIC_KEY_BYTES {
            return Err(NativeError::InvalidBufferLen);
        }
        match sodium_public_key_from_slice(bytes) {
            Some(v) => Ok(PublicKey { bytes: v }),
            None => Err(NativeError::InvalidBufferLen),
        }
    }

    /// A second key with the same bytes.
    pub fn duplicate(&self) -> (k: PublicKey)
        ensures
            k@ == self@,
    {
        proof {
            use_type_invariant(self);
        }
        PublicKey { bytes: copy_bytes(self.bytes.as_slice()) }
    }

    /// The key's bytes.
    pub fn as_bytes(&self) -> (bytes: &[u8])
        ensures
            bytes@ == self@,
            bytes@.len() == PUBLIC_KEY_BYTES,
    {
        proof {
            use_type_invariant(self);
        }
        self.bytes.as_slice()
    }

    /// Checks `sig_bytes` as a signature of `msg` under this key. Bytes of any length
    /// but 64 are refused with `InvalidSignature`; otherwise the answer is that of
    /// `verify_signature`.
    pub fn verify(&self, sig_bytes: &[u8], msg: &[u8]) -> (res: Result<bool, NativeError>)
        ensures
            res is Err <==> sig_bytes@.len() != SIGNATURE_BYTES,
            res matches Err(e) ==> e == NativeError::InvalidSignature,
            res matches Ok(b) ==> b == (is_canonical_signature(sig_bytes@)
                && ed25519_verifies(self@, msg@, sig_bytes@)),
    {
        let sig = match Signature::from_bytes(sig_bytes) {
            Some(sig) => sig,
            None => return Err(NativeError::InvalidSignature),
        };
        Ok(self.verify_signature(&sig, msg))
    }

    /// Checks a signature of `msg` under this key. A signature whose scalar half is
    /// not reduced is no valid signature and is answered `false` without asking
    /// libsodium, which would refuse it too; any other gets libsodium's verdict.
    pub fn verify_signature(&self, sig: &Signature, msg: &[u8]) -> (ok: bool)
        ensures
            ok == (is_canonical_signature(sig@) && ed25519_verifies(self@, msg@, sig@)),
    {
        proof {
            use_type_invariant(self);
            use_type_invariant(sig);
        }
        match sodium_signature_from_bytes(sig.bytes.as_slice()) {
            Some(canonical) => sodium_verify_detached(canonical.as_slice(), msg, self.bytes.as_slice()),
            None => false,
        }
    }
}

/// A detached Ed25519 signature.
#[derive(Debug)]
pub struct Signature {
    bytes: Vec<u8>,
}

impl View for Signature {
    type V = Seq<u8>;

    closed spec fn view(&self) -> Seq<u8> {
        self.bytes@
    }
}

impl Signature {
    #[verifier::type_invariant]
    spec fn inv(self) -> bool {
        self.bytes@.len() == SIGNATURE_BYTES
    }

    /// A signature from its bytes, when there are exactly 64 of them.
    pub fn from_bytes(bytes: &[u8]) -> (res: Option<Signature>)
        ensures
            res is Some <==> bytes@.len() == SIGNATURE_BYTES,
            res matches Some(s) ==> s@ == bytes@,
    {
        if bytes.len() != SIGNATURE_BYTES {
            return None;
        }
        Some(Signature { bytes: copy_bytes(bytes) })
    }

    /// A second signature with the same bytes.
    pub fn duplicate(&self) -> (s: Signature)
        ensures
            s@ == self@,
    {
        proof {
            use_type_invariant(self);
        }
        Signature { bytes: copy_bytes(self.bytes.as_slice()) }
    }

    /// The signature's bytes.
    pub fn as_bytes(&self) -> (bytes: &[u8])
        ensures
            bytes@ == self@,
            bytes@.len() == SIGNATURE_BYTES,
    {
        proof {
            use_type_invariant(self);
        }
        self.bytes.as_slice()
    }
}

/// An Ed25519 private key: the seed it was derived from and the secret key.
#[derive(Debug)]
pub struct PrivateKey {
    seed: Vec<u8>,
    secret: Vec<u8>,
}

impl PrivateKey {
    #[verifier::type_invariant]
    spec fn inv(self) -> bool {
        &&& self.seed@.len() == SEED_BYTES
        &&& self.secret@.len() == SECRET_KEY_BYTES
    }

    /// The seed's bytes.
    pub closed spec fn seed_view(self) -> Seq<u8> {
        self.seed@
    }

    /// The secret key's bytes.
    pub closed spec fn secret_view(self) -> Seq<u8> {
        self.secret@
    }


    /// Builds a key from a seed and a secret key: the seed's length is checked
    /// first (`InvalidSeedLen` unless 32 bytes), then the secret's
    /// (`InvalidSecretLen` unless 64 bytes).
    pub fn from_bytes(seed: &[u8], secret: &[u8]) -> (res: Result<PrivateKey, NativeError>)
        ensures
            seed@.len() != SEED_BYTES ==> res == Err::<PrivateKey, NativeError>(NativeError::InvalidSeedLen),
            seed@.len() == SEED_BYTES && secret@.len() != SECRET_KEY_BYTES
                ==> res == Err::<PrivateKey, NativeError>(NativeError::InvalidSecretLen),
            res is Ok <==> seed@.len() == SEED_BYTES && secret@.len() == SECRET_KEY_BYTES,
            res matches Ok(k) ==> k.seed_view() == seed@ && k.secret_view() == secret@,
    {
        if seed.len() != SEED_BYTES {
            return Err(NativeError::InvalidSeedLen);
        }
        if secret.len() != SECRET_KEY_BYTES {
            return Err(NativeError::InvalidSecretLen);
        }
        let seed_v = match sodium_seed_from_slice(seed) {
            Some(v) => v,
            None => return Err(NativeError::InvalidSeedLen),
        };
        let secret_v = match sodium_secret_key_from_slice(secret) {
            Some(v) => v,
            None => return Err(NativeError::InvalidSecretLen),
        };
        Ok(PrivateKey { seed: seed_v, secret: secret_v })
    }

    /// The seed's bytes.
    pub fn seed_bytes(&self) -> (bytes: &[u8])
        ensures
            bytes@ == self.seed_view(),
            bytes@.len() == SEED_BYTES,
    {
        proof {
            use_type_invariant(self);
        }
        self.seed.as_slice()
    }

    /// The secret key's bytes.
    pub fn secret_bytes(&self) -> (bytes: &[u8])
        ensures
            bytes@ == self.secret_view(),
            bytes@.len() == SECRET_KEY_BYTES,
    {
        proof {
            use_type_invariant(self);
        }
        self.secret.as_slice()
    }

    /// Signs `msg` with the secret key: libsodium's detached signature.
    pub fn sign(&self, msg: &[u8]) -> (sig: Signature)
        ensures
            sig@ == ed25519_signature(self.secret_view(), msg@),
            is_canonical_signature(sig@),
    {
        proof {
            use_type_invariant(self);
        }
        let bytes = sodium_sign_detached(msg, self.secret.as_slice());
        Signature { bytes }
    }
}

/// A public key with the private key it belongs to.
#[derive(Debug)]
pub struct KeyPair {
    pub public: PublicKey,
    pub private: PrivateKey,
}

impl KeyPair {
    /// The key pair that `seed` determines, as libsodium derives it.
    pub open spec fn spec_derived_from(self, seed: Seq<u8>) -> bool {
        &&& self.private.seed_view() == seed
        &&& self.public@ == ed25519_keypair_of_seed(seed).0
        &&& self.private.secret_view() == ed25519_keypair_of_seed(seed).1
    }

    /// Derives the key pair of a seed; `None` unless the seed holds 32 bytes.
    pub fn from_seed(seed: &[u8]) -> (res: Option<KeyPair>)
        ensures
            res is Some <==> seed@.len() == SEED_BYTES,
            res matches Some(kp) ==> kp.spec_derived_from(seed@),
    {
        let seed_v = match sodium_seed_from_slice(seed) {
            Some(v) => v,
            None => return None,
        };
        let (pk, sk) = sodium_keypair_from_seed(seed_v.as_slice());
        Some(KeyPair { public: PublicKey { bytes: pk }, private: PrivateKey { seed: seed_v, secret: sk } })
    }

    /// The key pair of a randomly drawn seed, as GODcoin accepts one: a seed of 32
    /// zero bytes is refused (`None`), as is a seed of any length but 32; any other
    /// seed gives the key pair libsodium derives from it.
    pub fn from_drawn_seed(seed: &[u8]) -> (res: Option<KeyPair>)
        ensures
            res is Some <==> seed@.len() == SEED_BYTES && !is_zero_seed(seed@),
            res matches Some(kp) ==> kp.spec_derived_from(seed@),
    {
        if all_zero(seed) {
            return None;
        }
        Self::from_seed(seed)
    }

    /// Generates a key pair from a seed of 32 random bytes, through
    /// `from_drawn_seed`.
    pub fn generate() -> (res: Option<KeyPair>)
        ensures
            res matches Some(kp) ==> !is_zero_seed(kp.private.seed_view())
                && kp.spec_derived_from(kp.private.seed_view()),
    {
        let seed = sodium_random_seed();
        Self::from_drawn_seed(seed.as_slice())
    }
}

/// A fresh vector holding the bytes of a slice.
pub fn copy_bytes(bytes: &[u8]) -> (v: Vec<u8>)
    ensures
        v@ == bytes@,
{
    let mut v: Vec<u8> = Vec::with_capacity(bytes.len());
    let mut i: usize = 0;
    while i < bytes.len()
        invariant
            i <= bytes@.len(),
            v@ == bytes@.subrange(0, i as int),
        decreases bytes@.len() - i,
    {
        v.push(bytes[i]);
        i = i + 1;
    }
    v
}

/// A seed made of zero bytes only.
pub open spec fn is_zero_seed(seed: Seq<u8>) -> bool {
    forall|i: int| 0 <= i < seed.len() ==> seed[i] == 0u8
}

fn all_zero(bytes: &[u8]) -> (res: bool)
    ensures
        res == is_zero_seed(bytes@),
{
    let mut i: usize = 0;
    while i < bytes.len()
        invariant
            i <= bytes@.len(),
            forall|j: int| 0 <= j < i ==> bytes@[j] == 0u8,
        decreases bytes@.len() - i,
    {
        if bytes[i] != 0 {
            return false;
        }
        i = i + 1;
    }
    true
}

/// A SHA-256 digest.
#[derive(Debug)]
pub struct Digest {
    bytes: Vec<u8>,
}

impl View for Digest {
    type V = Seq<u8>;

    closed spec fn view(&self) -> Seq<u8> {
        self.bytes@
    }
}

impl Digest {
    #[verifier::type_invariant]
    spec fn inv(self) -> bool {
        self.bytes@.len() == DIGEST_BYTES
    }


    /// A digest from its bytes, when there are exactly 32 of them.
    pub fn from_slice(bytes: &[u8]) -> (res: Option<Digest>)
        ensures
            res is Some <==> bytes@.len() == DIGEST_BYTES,
            res matches Some(d) ==> d@ == bytes@,
    {
        match sodium_digest_from_slice(bytes) {
            Some(v) => Some(Digest { bytes: v }),
            None => None,
        }
    }

    /// A second digest with the same bytes.
    pub fn duplicate(&self) -> (d: Digest)
        ensures
            d@ == self@,
    {
        proof {
            use_type_invariant(self);
        }
        Digest { bytes: copy_bytes(self.bytes.as_slice()) }
    }

    /// The digest's bytes.
    pub fn as_bytes(&self) -> (bytes: &[u8])
        ensures
            bytes@ == self@,
            bytes@.len() == DIGEST_BYTES,
    {
        proof {
            use_type_invariant(self);
        }
        self.bytes.as_slice()
    }
}

/// SHA-256 applied twice, as GODcoin hashes its transactions.
pub open spec fn spec_double_sha256(data: Seq<u8>) -> Seq<u8> {
    sha256_of(sha256_of(data))
}

/// The SHA-256 digest of the SHA-256 digest of `data`.
pub fn double_sha256(data: &[u8]) -> (d: Digest)
    ensures
        d@ == spec_double_sha256(data@),
{
    let first = sodium_sha256(data);
    let second = sodium_sha256(first.as_slice());
    Digest { bytes: second }
}



/// A seed determines its key pair: two key pairs derived from one seed hold the
/// same public key and the same secret key.
pub proof fn lemma_key_pair_determined_by_seed(a: KeyPair, b: KeyPair, seed: Seq<u8>)
    requires
        a.spec_derived_from(seed),
        b.spec_derived_from(seed),
    ensures
        a.public@ == b.public@,
        a.private.secret_view() == b.private.secret_view(),
        a.private.seed_view() == b.private.seed_view(),
{
}

} // verus!
