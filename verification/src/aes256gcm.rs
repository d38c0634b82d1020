//! AES-256-GCM: a concrete algorithm satisfying the [`Algorithm`] contract.
//!
//! The instance wraps an imported 256-bit key and delegates the AEAD
//! computation itself to a software engine (the `aes-gcm` crate); every
//! failure mode is translated into the shared error taxonomy.

use vstd::prelude::*;
use vstd::slice::slice_to_vec;
use vstd::string::StringExecFns;

use crate::algorithm::{Algorithm, DecryptionError, EncryptionError, Nonce, NonceError};
use crate::EngineSignal;
use crate::Error;

verus! {

/// Byte length of a raw AES-256 key.
pub const KEY_SIZE: usize = 32;

/// Byte length of the nonce AES-GCM requires.
pub const NONCE_SIZE: u32 = 12;

/// Byte length of the authentication tag GCM appends to every ciphertext.
pub const TAG_SIZE: usize = 16;

/// The longest plaintext a single AES-GCM operation accepts (2^36 bytes).
pub const MAX_PAYLOAD: u64 = 0x10_0000_0000;

/// The AES-256-GCM sealing function: the ciphertext-with-tag that results
/// from encrypting `plaintext` under `key` and `nonce`. The function itself
/// is left unspecified; the engine computes it, and the contracts of
/// encryption and decryption relate their results through it.
pub uninterp spec fn gcm_seal(key: Seq<u8>, nonce: Seq<u8>, plaintext: Seq<u8>) -> Seq<u8>;

/// Relies on `aes_gcm::AesGcm`'s `encrypt` (reached through
/// `aes_gcm::KeyInit::new_from_slice` to build the cipher from the raw key):
/// the result is a pure function of key, nonce and plaintext — the
/// ciphertext with the 16-byte authentication tag appended — and the call
/// fails exactly when the plaintext is longer than 2^36 bytes.
#[verifier::external_body]
fn gcm_encrypt(key: &[u8], nonce: &[u8], plaintext: &[u8]) -> (r: Option<Vec<u8>>)
    requires
        key@.len() == KEY_SIZE as nat,
        nonce@.len() == NONCE_SIZE as nat,
    ensures
        r matches Some(c) ==> c@ == gcm_seal(key@, nonce@, plaintext@) && c@.len() == plaintext@.len()
            + TAG_SIZE as nat,
        plaintext@.len() <= MAX_PAYLOAD as nat ==> r is Some,
{
    let cipher = <aes_gcm::Aes256Gcm as aes_gcm::KeyInit>::new_from_slice(key).unwrap();
    let nonce = aes_gcm::Nonce::from_slice(nonce);
    aes_gcm::aead::Aead::encrypt(&cipher, nonce, plaintext).ok()
}

/// Relies on `aes_gcm::AesGcm`'s `decrypt` (reached through
/// `aes_gcm::KeyInit::new_from_slice` to build the cipher from the raw key):
/// it verifies the trailing 16-byte authentication tag and inverts the
/// counter-mode encryption. A returned plaintext therefore seals back to
/// exactly the given ciphertext, and is the only plaintext that does so:
/// counter mode is a length-preserving bijection on the ciphertext body, so
/// a ciphertext determines at most one plaintext. Whenever the ciphertext is
/// the sealing of some plaintext the engine accepts, the tag verifies and
/// that plaintext is returned; every other input fails.
#[verifier::external_body]
fn gcm_decrypt(key: &[u8], nonce: &[u8], ciphertext: &[u8]) -> (r: Option<Vec<u8>>)
    requires
        key@.len() == KEY_SIZE as nat,
        nonce@.len() == NONCE_SIZE as nat,
    ensures
        r matches Some(q) ==> ciphertext@ == gcm_seal(key@, nonce@, q@) && ciphertext@.len()
            == q@.len() + TAG_SIZE as nat && (forall|p: Seq<u8>|
            ciphertext@ == gcm_seal(key@, nonce@, p) && p.len() <= MAX_PAYLOAD as nat ==> p
                == q@),
        r is None ==> (forall|p: Seq<u8>|
            p.len() <= MAX_PAYLOAD as nat ==> ciphertext@ != gcm_seal(key@, nonce@, p)),
{
    let cipher = <aes_gcm::Aes256Gcm as aes_gcm::KeyInit>::new_from_slice(key).unwrap();
    let nonce = aes_gcm::Nonce::from_slice(nonce);
    aes_gcm::aead::Aead::decrypt(&cipher, nonce, ciphertext).ok()
}

/// Errors that can occur when importing cryptographic keys.
#[derive(Debug, Clone)]
pub enum ImportKeyError {
    /// The key usage list is empty although the key is of a type that
    /// requires at least one usage (such as encrypt or decrypt).
    Syntax,
    /// The key data is malformed or not suited for the requested format —
    /// for example, raw bytes whose length is not a valid AES-256 key size.
    Type,
    /// The key format selector itself is invalid or not appropriate for the
    /// key type.
    InvalidKeyFormat,
    /// Any other failure during key import.
    Generic(Error),
}

impl ImportKeyError {
    /// What [`ImportKeyError::from_signal`] returns for a given signal.
    pub open spec fn spec_from_signal(signal: EngineSignal) -> ImportKeyError {
        if signal matches EngineSignal::Dom { name, .. } && name@ == "SyntaxError"@ {
            ImportKeyError::Syntax
        } else if signal matches EngineSignal::Dom { name, .. } && name@ == "DataError"@ {
            ImportKeyError::InvalidKeyFormat
        } else if signal is HostSyntax {
            ImportKeyError::Type
        } else {
            ImportKeyError::Generic(Error::spec_from_signal(signal))
        }
    }

    /// Classifies an engine failure signal reported by a key import: a
    /// `SyntaxError` exception means the usage list was empty, a `DataError`
    /// exception means the format selector was invalid for the key data, a
    /// host syntax failure outside the exception family means the key data
    /// itself was not suited; everything else is generic.
    pub fn from_signal(signal: EngineSignal) -> (r: ImportKeyError)
        ensures
            r == ImportKeyError::spec_from_signal(signal),
    {
        match &signal {
            EngineSignal::Dom { name, .. } => {
                if *name == String::from_str("SyntaxError") {
                    return ImportKeyError::Syntax;
                }
                if *name == String::from_str("DataError") {
                    return ImportKeyError::InvalidKeyFormat;
                }
            },
            EngineSignal::HostSyntax => {
                return ImportKeyError::Type;
            },
            EngineSignal::Other => {},
        }
        ImportKeyError::Generic(Error::from_signal(signal))
    }

    /// What [`ImportKeyError::message`] renders for each kind.
    pub open spec fn spec_message(&self) -> Seq<char> {
        match self {
            ImportKeyError::Syntax => "keyUsages is empty but the unwrapped key is of type secret or private"@,
            ImportKeyError::Type => "invalid format or keyData not suited for that format"@,
            ImportKeyError::InvalidKeyFormat => "invalid key format provided"@,
            ImportKeyError::Generic(e) => e.spec_message(),
        }
    }

    /// The fixed, human-readable message for this error kind.
    pub fn message(&self) -> (r: String)
        ensures
            r@ == self.spec_message(),
    {
        match self {
            ImportKeyError::Syntax => String::from_str(
                "keyUsages is empty but the unwrapped key is of type secret or private",
            ),
            ImportKeyError::Type => String::from_str(
                "invalid format or keyData not suited for that format",
            ),
            ImportKeyError::InvalidKeyFormat => String::from_str("invalid key format provided"),
            ImportKeyError::Generic(e) => e.message(),
        }
    }
}

/// An AES-256-GCM instance: an opaque handle to imported key material, bound
/// to this one algorithm.
///
/// Construction through [`Aes256Gcm::from_key`] is the only place raw key
/// bytes enter the system; after that the instance is a pure capability
/// token, immutable and safe to share across concurrent operations.
#[derive(Debug)]
pub struct Aes256Gcm {
    key: Vec<u8>,
}

impl Clone for Aes256Gcm {
    /// A cloned instance holds the same imported key.
    fn clone(&self) -> (r: Self)
        ensures
            r.spec_key() == self.spec_key(),
    {
        Aes256Gcm { key: slice_to_vec(self.key.as_slice()) }
    }
}

impl Aes256Gcm {
    /// The raw key bytes this instance was imported from.
    pub closed spec fn spec_key(&self) -> Seq<u8> {
        self.key@
    }

    /// Creates a new AES-256-GCM instance from a raw key.
    ///
    /// The raw key must be exactly [`KEY_SIZE`] bytes; anything else is
    /// rejected as key data not suited for the raw format — never truncated
    /// or padded into a usable key. No partially-constructed instance is
    /// observable: either import succeeds or only the error exists.
    pub fn from_key(data: &[u8]) -> (r: Result<Aes256Gcm, ImportKeyError>)
        ensures
            data@.len() == KEY_SIZE as nat ==> (r matches Ok(c) && c.wf() && c.spec_key()
                == data@),
            data@.len() != KEY_SIZE as nat ==> r == Err::<Aes256Gcm, ImportKeyError>(
                ImportKeyError::Type,
            ),
    {
        if data.len() != KEY_SIZE {
            return Err(ImportKeyError::Type);
        }
        Ok(Aes256Gcm { key: slice_to_vec(data) })
    }
}

impl Algorithm for Aes256Gcm {
    /// AES-GCM uses a 96-bit (12-byte) nonce.
    open spec fn spec_nonce_size() -> u32 {
        NONCE_SIZE
    }

    open spec fn spec_tag_size() -> nat {
        TAG_SIZE as nat
    }

    open spec fn spec_max_payload() -> nat {
        MAX_PAYLOAD as nat
    }

    /// The instance holds a full-length AES-256 key.
    open spec fn wf(&self) -> bool {
        self.spec_key().len() == KEY_SIZE as nat
    }

    open spec fn spec_seal(&self, nonce: Seq<u8>, plaintext: Seq<u8>) -> Seq<u8> {
        gcm_seal(self.spec_key(), nonce, plaintext)
    }

    fn nonce_size() -> (r: u32) {
        NONCE_SIZE
    }

    fn generate_nonce() -> (r: Result<Nonce<Aes256Gcm>, NonceError>) {
        Nonce::<Aes256Gcm>::generate_with_size(NONCE_SIZE)
    }

    /// Delegates to the engine's AEAD primitive; the only failure the
    /// software engine knows is an over-long payload, reported as an
    /// operation failure.
    fn encrypt(&self, nonce: &Nonce<Aes256Gcm>, payload: &[u8]) -> (r: Result<
        Vec<u8>,
        EncryptionError,
    >)
        ensures
            r matches Err(e) ==> e == EncryptionError::Operation,
    {
        match gcm_encrypt(self.key.as_slice(), nonce.iter(), payload) {
            Some(c) => Ok(c),
            None => Err(EncryptionError::Operation),
        }
    }

    /// Delegates to the engine's AEAD primitive; every failure — a bad tag,
    /// a truncated ciphertext, a wrong nonce — surfaces as the same
    /// operation failure, deliberately revealing nothing more.
    fn decrypt(&self, nonce: &Nonce<Aes256Gcm>, payload: &[u8]) -> (r: Result<
        Vec<u8>,
        DecryptionError,
    >)
        ensures
            r matches Err(e) ==> e == DecryptionError::Operation,
    {
        match gcm_decrypt(self.key.as_slice(), nonce.iter(), payload) {
            Some(p) => Ok(p),
            None => Err(DecryptionError::Operation),
        }
    }
}

} // verus!
