//! Signing keys and signed messages, as libsodium makes them.

use vstd::prelude::*;

verus! {

/// Bytes in a secret signing key.
pub const SECRET_KEY_BYTES: usize = 64;

/// Bytes in a public verification key.
pub const PUBLIC_KEY_BYTES: usize = 32;

/// Bytes that a signature adds to a message.
pub const SIGNATURE_BYTES: usize = 64;

/// The signed message that Ed25519 makes of `message` under the secret key
/// `key`: what `sodiumoxide::crypto::sign::sign` returns.
pub uninterp spec fn signed_message(message: Seq<u8>, key: Seq<u8>) -> Seq<u8>;

/// The message inside `signed` if its signature verifies under the public key
/// `key`, and `None` otherwise: what `sodiumoxide::crypto::sign::verify`
/// returns.
pub uninterp spec fn opened_message(signed: Seq<u8>, key: Seq<u8>) -> Option<Seq<u8>>;

/// A secret signing key: 64 bytes.
pub struct SigningKey {
    bytes: Vec<u8>,
}

/// A public verification key: 32 bytes.
pub struct VerifyKey {
    bytes: Vec<u8>,
}

impl View for SigningKey {
    type V = Seq<u8>;

    closed spec fn view(&self) -> Seq<u8> {
        self.bytes@
    }
}

impl View for VerifyKey {
    type V = Seq<u8>;

    closed spec fn view(&self) -> Seq<u8> {
        self.bytes@
    }
}

impl SigningKey {
    #[verifier::type_invariant]
    spec fn well_formed(self) -> bool {
        self.bytes@.len() == SECRET_KEY_BYTES
    }

    /// The key with the given bytes; `None` unless there are 64 of them.
    pub fn from_bytes(bytes: Vec<u8>) -> (r: Option<SigningKey>)
        ensures
            r is Some <==> bytes@.len() == SECRET_KEY_BYTES,
            r matches Some(k) ==> k@ == bytes@,
    {
        if bytes.len() == SECRET_KEY_BYTES {
            Some(SigningKey { bytes })
        } else {
            None
        }
    }

    /// The key's bytes.
    pub fn as_bytes(&self) -> (b: &Vec<u8>)
        ensures
            b@ == self@,
            b@.len() == SECRET_KEY_BYTES,
    {
        proof {
            use_type_invariant(self);
        }
        &self.bytes
    }
}

impl VerifyKey {
    #[verifier::type_invariant]
    spec fn well_formed(self) -> bool {
        self.bytes@.len() == PUBLIC_KEY_BYTES
    }

    /// The key with the given bytes; `None` unless there are 32 of them.
    pub fn from_bytes(bytes: Vec<u8>) -> (r: Option<VerifyKey>)
        ensures
            r is Some <==> bytes@.len() == PUBLIC_KEY_BYTES,
            r matches Some(k) ==> k@ == bytes@,
    {
        if bytes.len() == PUBLIC_KEY_BYTES {
            Some(VerifyKey { bytes })
        } else {
            None
        }
    }

    /// The key's bytes.
    pub fn as_bytes(&self) -> (b: &Vec<u8>)
        ensures
            b@ == self@,
            b@.len() == PUBLIC_KEY_BYTES,
    {
        proof {
            use_type_invariant(self);
        }
        &self.bytes
    }
}

/// Makes a `sodiumoxide` secret key of the bytes with `SecretKey::from_slice`
/// and calls `sodiumoxide::crypto::sign::sign`. `from_slice` accepts exactly
/// 64 bytes. The contract names the signed message by message and key.
#[verifier::external_body]
fn sign_with(message: &[u8], key: &[u8]) -> (r: Option<Vec<u8>>)
    ensures
        r is Some <==> key@.len() == SECRET_KEY_BYTES,
        r matches Some(signed) ==> signed@ == signed_message(message@, key@),
{
    sodiumoxide::crypto::sign::SecretKey::from_slice(key).map(
        |sk| sodiumoxide::crypto::sign::sign(message, &sk),
    )
}

/// Makes a `sodiumoxide` public key of the bytes with `PublicKey::from_slice`
/// and calls `sodiumoxide::crypto::sign::verify`. `from_slice` accepts exactly
/// 32 bytes. The contract names the outcome by signed message and key.
#[verifier::external_body]
fn open_with(signed: &[u8], key: &[u8]) -> (r: Option<Option<Vec<u8>>>)
    ensures
        r is Some <==> key@.len() == PUBLIC_KEY_BYTES,
        r matches Some(outcome) ==> bytes_view(outcome) == opened_message(signed@, key@),
{
    sodiumoxide::crypto::sign::PublicKey::from_slice(key).map(
        |pk| sodiumoxide::crypto::sign::verify(signed, &pk).ok(),
    )
}

/// Calls `sodiumoxide::crypto::sign::gen_keypair` and copies the two keys'
/// bytes. The keys are random: the contract states their lengths only.
#[verifier::external_body]
fn random_keypair() -> (r: (Vec<u8>, Vec<u8>))
    ensures
        r.0@.len() == PUBLIC_KEY_BYTES,
        r.1@.len() == SECRET_KEY_BYTES,
{
    let (pk, sk) = sodiumoxide::crypto::sign::gen_keypair();
    (pk.0.to_vec(), sk.0.to_vec())
}

/// Calls `sodiumoxide::init`, which prepares libsodium and makes its random
/// number generation safe to use from several threads.
#[verifier::external_body]
fn sodium_init() -> (ok: bool) {
    sodiumoxide::init().is_ok()
}

/// Optional bytes as a mathematical value.
pub open spec fn bytes_view(o: Option<Vec<u8>>) -> Option<Seq<u8>> {
    match o {
        Some(v) => Some(v@),
        None => None,
    }
}

/// Why a cryptographic operation failed.
#[derive(Debug, Clone, Copy, PartialEq, Eq, Structural)]
pub enum CryptoError {
    /// libsodium failed to initialise.
    InitializationFailed,
    /// A key does not have the length of its kind.
    InvalidKey,
    /// The data is too short to hold a nonce.
    TooShort,
    /// The ciphertext does not verify under the keys.
    DecryptionFailed,
}

impl CryptoError {
    /// What went wrong, in words.
    pub open spec fn text(self) -> Seq<char> {
        match self {
            CryptoError::InitializationFailed => "Failed to initialize sodium library"@,
            CryptoError::InvalidKey => "Invalid private key format"@,
            CryptoError::TooShort => "Data too short to contain nonce"@,
            CryptoError::DecryptionFailed => "Decryption failed"@,
        }
    }

    /// What went wrong, in words.
    pub fn message(&self) -> (s: String)
        ensures
            s@ == self.text(),
    {
        match self {
            CryptoError::InitializationFailed => "Failed to initialize sodium library".to_string(),
            CryptoError::InvalidKey => "Invalid private key format".to_string(),
            CryptoError::TooShort => "Data too short to contain nonce".to_string(),
            CryptoError::DecryptionFailed => "Decryption failed".to_string(),
        }
    }
}

/// What the answer of the cryptographic library to its initialisation means:
/// success if it is ready, and `InitializationFailed` otherwise.
pub fn init_outcome(ready: bool) -> (r: Result<(), CryptoError>)
    ensures
        r == (if ready {
            Ok::<(), CryptoError>(())
        } else {
            Err::<(), CryptoError>(CryptoError::InitializationFailed)
        }),
{
    if ready {
        Ok(())
    } else {
        Err(CryptoError::InitializationFailed)
    }
}

/// Prepares the cryptographic library. To be called once, before keys are
/// generated. Whether the library gets ready is the library's matter; where
/// it does not, the error is `InitializationFailed`.
pub fn init() -> (r: Result<(), CryptoError>)
    ensures
        r matches Err(e) ==> e == CryptoError::InitializationFailed,
{
    init_outcome(sodium_init())
}

/// Signs `data` with a secret key: the result is the signed message.
pub fn sign(data: &[u8], secret_key: &SigningKey) -> (signed: Vec<u8>)
    ensures
        signed@ == signed_message(data@, secret_key@),
{
    let outcome = sign_with(data, secret_key.as_bytes().as_slice());
    assert(outcome is Some);
    match outcome {
        Some(signed) => signed,
        None => Vec::new(),
    }
}

/// Checks the signature of a signed message and returns the message inside,
/// or `None` if the signature does not verify.
pub fn verify(signed_data: &[u8], public_key: &VerifyKey) -> (r: Option<Vec<u8>>)
    ensures
        bytes_view(r) == opened_message(signed_data@, public_key@),
{
    let outcome = open_with(signed_data, public_key.as_bytes().as_slice());
    assert(outcome is Some);
    match outcome {
        Some(opened) => opened,
        None => None,
    }
}

/// Generates a new random signing key pair: the public key, then the secret
/// key.
pub fn generate_keypair() -> (r: (VerifyKey, SigningKey))
    ensures
        r.0@.len() == PUBLIC_KEY_BYTES,
        r.1@.len() == SECRET_KEY_BYTES,
{
    let (public, secret) = random_keypair();
    (VerifyKey { bytes: public }, SigningKey { bytes: secret })
}

/// The two files that a generated key pair is written to: the secret key's,
/// then the public key's.
pub open spec fn key_file_names(base: Seq<char>) -> (Seq<char>, Seq<char>) {
    (base + ".private"@, base + ".public"@)
}

/// The paths of the files that hold a key pair generated under `base_path`.
pub fn key_file_paths(base_path: &str) -> (r: (String, String))
    ensures
        (r.0@, r.1@) == key_file_names(base_path@),
{
    (crate::text::joined(base_path, ".private"), crate::text::joined(base_path, ".public"))
}

/// Bytes in a key of either kind for authenticated encryption.
pub const BOX_KEY_BYTES: usize = 32;

/// Bytes in a nonce for authenticated encryption.
pub const NONCE_BYTES: usize = 24;

/// The ciphertext that libsodium's box makes of `message` under a nonce, the
/// receiver's public key and the sender's secret key: what
/// `sodiumoxide::crypto::box_::seal` returns.
pub uninterp spec fn box_sealed(
    message: Seq<u8>,
    nonce: Seq<u8>,
    public_key: Seq<u8>,
    secret_key: Seq<u8>,
) -> Seq<u8>;

/// The message inside a box ciphertext if it verifies under the nonce, the
/// sender's public key and the receiver's secret key, and `None` otherwise:
/// what `sodiumoxide::crypto::box_::open` returns.
pub uninterp spec fn box_opened(
    ciphertext: Seq<u8>,
    nonce: Seq<u8>,
    public_key: Seq<u8>,
    secret_key: Seq<u8>,
) -> Option<Seq<u8>>;

/// The digest of a message: what `sodiumoxide::crypto::hash::hash`, which is
/// SHA-512, returns.
pub uninterp spec fn sodium_digest(message: Seq<u8>) -> Seq<u8>;

/// The character of a hexadecimal digit, in lower case.
pub open spec fn hex_digit(d: int) -> char {
    if d < 10 {
        crate::text::digit_char(d)
    } else if d == 10 {
        'a'
    } else if d == 11 {
        'b'
    } else if d == 12 {
        'c'
    } else if d == 13 {
        'd'
    } else if d == 14 {
        'e'
    } else {
        'f'
    }
}

/// Bytes in hexadecimal: two lower-case digits for every byte, the high half
/// first.
pub open spec fn hex_lower(data: Seq<u8>) -> Seq<char> {
    Seq::new(
        2 * data.len(),
        |i: int|
            if i % 2 == 0 {
                hex_digit(data[i / 2] as int / 16)
            } else {
                hex_digit(data[i / 2] as int % 16)
            },
    )
}

/// Whether a nonce and two keys have the lengths of their kinds.
pub open spec fn box_lengths_fit(nonce: Seq<u8>, public_key: Seq<u8>, secret_key: Seq<u8>) -> bool {
    &&& nonce.len() == NONCE_BYTES
    &&& public_key.len() == BOX_KEY_BYTES
    &&& secret_key.len() == BOX_KEY_BYTES
}

/// A public key for authenticated encryption: 32 bytes.
#[derive(Debug)]
pub struct BoxPublicKey {
    bytes: Vec<u8>,
}

/// A secret key for authenticated encryption: 32 bytes.
pub struct BoxSecretKey {
    bytes: Vec<u8>,
}

impl View for BoxPublicKey {
    type V = Seq<u8>;

    closed spec fn view(&self) -> Seq<u8> {
        self.bytes@
    }
}

impl View for BoxSecretKey {
    type V = Seq<u8>;

    closed spec fn view(&self) -> Seq<u8> {
        self.bytes@
    }
}

impl BoxPublicKey {
    #[verifier::type_invariant]
    spec fn well_formed(self) -> bool {
        self.bytes@.len() == BOX_KEY_BYTES
    }

    /// The key with the given bytes; `None` unless there are 32 of them.
    pub fn from_bytes(bytes: Vec<u8>) -> (r: Option<BoxPublicKey>)
        ensures
            r is Some <==> bytes@.len() == BOX_KEY_BYTES,
            r matches Some(k) ==> k@ == bytes@,
    {
        if bytes.len() == BOX_KEY_BYTES {
            Some(BoxPublicKey { bytes })
        } else {
            None
        }
    }

    /// The key's bytes.
    pub fn as_bytes(&self) -> (b: &Vec<u8>)
        ensures
            b@ == self@,
            b@.len() == BOX_KEY_BYTES,
    {
        proof {
            use_type_invariant(self);
        }
        &self.bytes
    }
}

impl BoxSecretKey {
    #[verifier::type_invariant]
    spec fn well_formed(self) -> bool {
        self.bytes@.len() == BOX_KEY_BYTES
    }

    /// The key with the given bytes; `None` unless there are 32 of them.
    pub fn from_bytes(bytes: Vec<u8>) -> (r: Option<BoxSecretKey>)
        ensures
            r is Some <==> bytes@.len() == BOX_KEY_BYTES,
            r matches Some(k) ==> k@ == bytes@,
    {
        if bytes.len() == BOX_KEY_BYTES {
            Some(BoxSecretKey { bytes })
        } else {
            None
        }
    }

    /// The key's bytes.
    pub fn as_bytes(&self) -> (b: &Vec<u8>)
        ensures
            b@ == self@,
            b@.len() == BOX_KEY_BYTES,
    {
        proof {
            use_type_invariant(self);
        }
        &self.bytes
    }
}

/// A public key with a secret key for authenticated encryption.
pub struct KeyPair {
    /// The public key.
    pub public_key: BoxPublicKey,
    /// The secret key.
    pub secret_key: BoxSecretKey,
}

/// Calls `sodiumoxide::crypto::box_::gen_keypair` and copies the bytes of the
/// public key. The key is random: the contract states its length only.
#[verifier::external_body]
fn random_box_public() -> (r: Vec<u8>)
    ensures
        r@.len() == BOX_KEY_BYTES,
{
    sodiumoxide::crypto::box_::gen_keypair().0.0.to_vec()
}

/// Calls `sodiumoxide::crypto::box_::gen_nonce` and copies the nonce's bytes.
/// The nonce is random: the contract states its length only.
#[verifier::external_body]
fn random_nonce() -> (r: Vec<u8>)
    ensures
        r@.len() == NONCE_BYTES,
{
    sodiumoxide::crypto::box_::gen_nonce().0.to_vec()
}

/// Makes a `sodiumoxide` nonce and keys of the bytes with `from_slice`, which
/// accepts 24 bytes for a nonce and 32 for a key, and calls
/// `sodiumoxide::crypto::box_::seal`. The contract names the ciphertext by
/// message, nonce and keys.
#[verifier::external_body]
fn seal_with(message: &[u8], nonce: &[u8], public_key: &[u8], secret_key: &[u8]) -> (r: Option<
    Vec<u8>,
>)
    ensures
        r is Some <==> box_lengths_fit(nonce@, public_key@, secret_key@),
        r matches Some(c) ==> c@ == box_sealed(message@, nonce@, public_key@, secret_key@),
{
    let n = sodiumoxide::crypto::box_::Nonce::from_slice(nonce)?;
    let pk = sodiumoxide::crypto::box_::PublicKey::from_slice(public_key)?;
    let sk = sodiumoxide::crypto::box_::SecretKey::from_slice(secret_key)?;
    Some(sodiumoxide::crypto::box_::seal(message, &n, &pk, &sk))
}

/// Makes a `sodiumoxide` nonce and keys of the bytes with `from_slice`, which
/// accepts 24 bytes for a nonce and 32 for a key, and calls
/// `sodiumoxide::crypto::box_::open`. The contract names the outcome by
/// ciphertext, nonce and keys.
#[verifier::external_body]
fn open_box_with(ciphertext: &[u8], nonce: &[u8], public_key: &[u8], secret_key: &[u8]) -> (r:
    Option<Option<Vec<u8>>>)
    ensures
        r is Some <==> box_lengths_fit(nonce@, public_key@, secret_key@),
        r matches Some(outcome) ==> bytes_view(outcome) == box_opened(
            ciphertext@,
            nonce@,
            public_key@,
            secret_key@,
        ),
{
    let n = sodiumoxide::crypto::box_::Nonce::from_slice(nonce)?;
    let pk = sodiumoxide::crypto::box_::PublicKey::from_slice(public_key)?;
    let sk = sodiumoxide::crypto::box_::SecretKey::from_slice(secret_key)?;
    Some(sodiumoxide::crypto::box_::open(ciphertext, &n, &pk, &sk).ok())
}

/// Calls `sodiumoxide::crypto::hash::hash` and copies the digest's bytes. The
/// contract names the digest by the message.
#[verifier::external_body]
fn digest_of(message: &[u8]) -> (r: Vec<u8>)
    ensures
        r@ == sodium_digest(message@),
{
    sodiumoxide::crypto::hash::hash(message).0.to_vec()
}

/// The character of one hexadecimal digit, in lower case.
pub fn hex_digit_of(d: u8) -> (c: char)
    requires
        d < 16,
    ensures
        c == hex_digit(d as int),
{
    if d < 10 {
        crate::text::digit_of(d)
    } else if d == 10 {
        'a'
    } else if d == 11 {
        'b'
    } else if d == 12 {
        'c'
    } else if d == 13 {
        'd'
    } else if d == 14 {
        'e'
    } else {
        'f'
    }
}

/// Bytes in hexadecimal: two lower-case digits for every byte, the high half
/// first.
pub fn hex_text(data: &[u8]) -> (s: String)
    ensures
        s@ == hex_lower(data@),
{
    let mut digits: Vec<char> = Vec::new();
    let mut i: usize = 0;
    while i < data.len()
        invariant
            i <= data.len(),
            digits@ == hex_lower(data@.take(i as int)),
        decreases data.len() - i,
    {
        let byte = data[i];
        let ghost shorter = digits@;
        digits.push(hex_digit_of(byte / 16));
        digits.push(hex_digit_of(byte % 16));
        assert(digits@ =~= hex_lower(data@.take(i + 1))) by {
            assert(data@.take(i + 1).len() == i + 1);
            assert forall|k: int| 0 <= k < 2 * (i + 1) implies digits@[k] == hex_lower(
                data@.take(i + 1),
            )[k] by {
                if k < 2 * i {
                    assert(digits@[k] == shorter[k]);
                    assert(data@.take(i as int)[k / 2] == data@.take(i + 1)[k / 2]);
                } else {
                    assert(k / 2 == i);
                    assert(data@.take(i + 1)[k / 2] == byte);
                }
            }
        }
        i += 1;
    }
    assert(data@.take(i as int) =~= data@);
    crate::text::string_of(&digits)
}

/// Makes a key pair of a stored secret key. The public key is generated
/// anew at random and does not belong to the secret key.
pub fn load_keypair(key_data: Vec<u8>) -> (r: Result<KeyPair, CryptoError>)
    ensures
        match r {
            Ok(pair) => key_data@.len() == BOX_KEY_BYTES && pair.secret_key@ == key_data@,
            Err(e) => key_data@.len() != BOX_KEY_BYTES && e == CryptoError::InvalidKey,
        },
{
    let secret_key = match BoxSecretKey::from_bytes(key_data) {
        Some(k) => k,
        None => {
            return Err(CryptoError::InvalidKey);
        },
    };
    let public_key = BoxPublicKey { bytes: random_box_public() };
    Ok(KeyPair { public_key, secret_key })
}

/// The bytes of `data` from `from` on.
fn tail_of(data: &[u8], from: usize) -> (r: Vec<u8>)
    requires
        from <= data@.len(),
    ensures
        r@ == data@.skip(from as int),
{
    let mut r: Vec<u8> = Vec::new();
    let mut i: usize = from;
    while i < data.len()
        invariant
            from <= i <= data@.len(),
            r@ == data@.subrange(from as int, i as int),
        decreases data.len() - i,
    {
        r.push(data[i]);
        assert(data@.subrange(from as int, i + 1) == data@.subrange(from as int, i as int).push(
            data@[i as int],
        ));
        i += 1;
    }
    assert(data@.subrange(from as int, data@.len() as int) == data@.skip(from as int));
    r
}

/// The first `n` bytes of `data`.
fn head_of(data: &[u8], n: usize) -> (r: Vec<u8>)
    requires
        n <= data@.len(),
    ensures
        r@ == data@.take(n as int),
{
    let mut r: Vec<u8> = Vec::new();
    let mut i: usize = 0;
    while i < n
        invariant
            i <= n <= data@.len(),
            r@ == data@.take(i as int),
        decreases n - i,
    {
        r.push(data[i]);
        assert(data@.take(i + 1) == data@.take(i as int).push(data@[i as int]));
        i += 1;
    }
    r
}

/// Encrypts `data` for the recipient under a fresh random nonce. The result
/// is the nonce followed by the ciphertext.
pub fn encrypt(data: &[u8], recipient_pk: &BoxPublicKey, sender_sk: &BoxSecretKey) -> (r: Result<
    Vec<u8>,
    CryptoError,
>)
    ensures
        r matches Ok(out) && out@.len() >= NONCE_BYTES && out@.skip(NONCE_BYTES as int)
            == box_sealed(data@, out@.take(NONCE_BYTES as int), recipient_pk@, sender_sk@),
{
    let nonce = random_nonce();
    let sealed = seal_with(
        data,
        nonce.as_slice(),
        recipient_pk.as_bytes().as_slice(),
        sender_sk.as_bytes().as_slice(),
    );
    assert(sealed is Some);
    let ciphertext = match sealed {
        Some(c) => c,
        None => Vec::new(),
    };
    let mut out = nonce;
    let ghost nonce_view = out@;
    let mut i: usize = 0;
    while i < ciphertext.len()
        invariant
            i <= ciphertext.len(),
            out@ == nonce_view + ciphertext@.take(i as int),
        decreases ciphertext.len() - i,
    {
        out.push(ciphertext[i]);
        assert(ciphertext@.take(i + 1) == ciphertext@.take(i as int).push(ciphertext@[i as int]));
        i += 1;
    }
    assert(ciphertext@.take(ciphertext@.len() as int) == ciphertext@);
    assert(out@.take(NONCE_BYTES as int) == nonce_view);
    assert(out@.skip(NONCE_BYTES as int) == ciphertext@);
    Ok(out)
}

/// Decrypts what `encrypt` made: the first 24 bytes are the nonce, the rest
/// is the ciphertext.
pub fn decrypt(data: &[u8], sender_pk: &BoxPublicKey, recipient_sk: &BoxSecretKey) -> (r: Result<
    Vec<u8>,
    CryptoError,
>)
    ensures
        match r {
            Ok(plain) => data@.len() >= NONCE_BYTES && Some(plain@) == box_opened(
                data@.skip(NONCE_BYTES as int),
                data@.take(NONCE_BYTES as int),
                sender_pk@,
                recipient_sk@,
            ),
            Err(CryptoError::TooShort) => data@.len() < NONCE_BYTES,
            Err(CryptoError::DecryptionFailed) => data@.len() >= NONCE_BYTES && box_opened(
                data@.skip(NONCE_BYTES as int),
                data@.take(NONCE_BYTES as int),
                sender_pk@,
                recipient_sk@,
            ) is None,
            Err(_) => false,
        },
{
    if data.len() < NONCE_BYTES {
        return Err(CryptoError::TooShort);
    }
    let nonce = head_of(data, NONCE_BYTES);
    let ciphertext = tail_of(data, NONCE_BYTES);
    let opened = open_box_with(
        ciphertext.as_slice(),
        nonce.as_slice(),
        sender_pk.as_bytes().as_slice(),
        recipient_sk.as_bytes().as_slice(),
    );
    assert(opened is Some);
    match opened {
        Some(Some(plain)) => Ok(plain),
        _ => Err(CryptoError::DecryptionFailed),
    }
}

/// The digest of a text in lower-case hexadecimal.
pub fn hash_sha256(data: &str) -> (s: String)
    ensures
        s@ == hex_lower(sodium_digest(vstd::utf8::encode_utf8(data@))),
{
    let digest = digest_of(data.as_bytes());
    hex_text(digest.as_slice())
}

} // verus!
