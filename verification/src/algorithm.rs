//! The algorithm contract and the nonce discipline.
//!
//! An AEAD algorithm implements [`Algorithm`]: a fixed nonce size and the two
//! operations `encrypt` and `decrypt`. A [`Nonce`] is parameterized over the
//! algorithm it was constructed for, so a nonce of the wrong length cannot
//! reach an operation. The error enums here normalize the failure signals of
//! the backing engine for nonce generation, encryption and decryption.

use core::marker::PhantomData;

use vstd::prelude::*;
use vstd::slice::slice_to_vec;
use vstd::string::StringExecFns;

use crate::EngineSignal;
use crate::Error;

verus! {

/// The most bytes a single secure-random request may ask of the backing
/// engine; longer requests are refused with [`NonceError::QuotaExceeded`].
pub const RANDOM_QUOTA: u32 = 65536;

/// Errors that can occur during nonce (number used once) operations.
///
/// These cover both secure random generation failures and validation of
/// caller-supplied nonce bytes.
#[derive(Debug, Clone)]
pub enum NonceError {
    /// The requested nonce length exceeds the most an engine hands out for a
    /// single secure-random request ([`RANDOM_QUOTA`] bytes).
    QuotaExceeded,
    /// The provided nonce data does not have the length the algorithm
    /// requires: `expected` is the algorithm's nonce size, `received` the
    /// length of the data actually supplied.
    InvalidSize { expected: u32, received: u32 },
    /// Any other failure during nonce generation or handling.
    Generic(Error),
}

impl NonceError {
    /// What [`NonceError::from_signal`] returns for a given signal.
    pub open spec fn spec_from_signal(signal: EngineSignal) -> NonceError {
        if signal matches EngineSignal::Dom { name, .. } && name@ == "QuotaExceededError"@ {
            NonceError::QuotaExceeded
        } else {
            NonceError::Generic(Error::spec_from_signal(signal))
        }
    }

    /// Classifies an engine failure signal reported by a secure random
    /// source: a `QuotaExceededError` exception means the request length was
    /// refused; everything else is generic.
    pub fn from_signal(signal: EngineSignal) -> (r: NonceError)
        ensures
            r == NonceError::spec_from_signal(signal),
    {
        if let EngineSignal::Dom { name, .. } = &signal {
            if *name == String::from_str("QuotaExceededError") {
                return NonceError::QuotaExceeded;
            }
        }
        NonceError::Generic(Error::from_signal(signal))
    }

    /// What [`NonceError::message`] renders for each kind.
    pub open spec fn spec_message(&self) -> Seq<char> {
        match self {
            NonceError::QuotaExceeded => "the requested nonce length exceeds 65536"@,
            NonceError::InvalidSize { expected, received } => "invalid nonce size provided, expected "@
                + crate::spec_decimal(*expected) + ", received "@ + crate::spec_decimal(*received),
            NonceError::Generic(e) => e.spec_message(),
        }
    }

    /// The fixed, human-readable message for this error kind; the invalid
    /// size kind names the expected and the received length.
    pub fn message(&self) -> (r: String)
        ensures
            r@ == self.spec_message(),
    {
        match self {
            NonceError::QuotaExceeded => String::from_str(
                "the requested nonce length exceeds 65536",
            ),
            NonceError::InvalidSize { expected, received } => {
                let exp = crate::decimal(*expected);
                let rec = crate::decimal(*received);
                String::from_str("invalid nonce size provided, expected ").concat(
                    exp.as_str(),
                ).concat(", received ").concat(rec.as_str())
            },
            NonceError::Generic(e) => e.message(),
        }
    }
}

/// Errors that can occur during encryption operations.
#[derive(Debug, Clone)]
pub enum EncryptionError {
    /// The requested operation is not valid for the provided key: the key
    /// does not support encryption, or its algorithm does not match.
    InvalidAccess,
    /// The operation failed for an algorithm-specific reason, such as input
    /// data that is too large or invalid algorithm parameters.
    Operation,
    /// Any other failure during encryption.
    Generic(Error),
}

impl EncryptionError {
    /// What [`EncryptionError::from_signal`] returns for a given signal.
    pub open spec fn spec_from_signal(signal: EngineSignal) -> EncryptionError {
        if signal matches EngineSignal::Dom { name, .. } && name@ == "InvalidAccessError"@ {
            EncryptionError::InvalidAccess
        } else if signal matches EngineSignal::Dom { name, .. } && name@ == "OperationError"@ {
            EncryptionError::Operation
        } else {
            EncryptionError::Generic(Error::spec_from_signal(signal))
        }
    }

    /// Classifies an engine failure signal reported by an encrypt operation.
    pub fn from_signal(signal: EngineSignal) -> (r: EncryptionError)
        ensures
            r == EncryptionError::spec_from_signal(signal),
    {
        if let EngineSignal::Dom { name, .. } = &signal {
            if *name == String::from_str("InvalidAccessError") {
                return EncryptionError::InvalidAccess;
            }
            if *name == String::from_str("OperationError") {
                return EncryptionError::Operation;
            }
        }
        EncryptionError::Generic(Error::from_signal(signal))
    }

    /// What [`EncryptionError::message`] renders for each kind.
    pub open spec fn spec_message(&self) -> Seq<char> {
        match self {
            EncryptionError::InvalidAccess => "requested operation is not valid for the provided key"@,
            EncryptionError::Operation => "operation failed for an operation-specific reason"@,
            EncryptionError::Generic(e) => e.spec_message(),
        }
    }

    /// The fixed, human-readable message for this error kind.
    pub fn message(&self) -> (r: String)
        ensures
            r@ == self.spec_message(),
    {
        match self {
            EncryptionError::InvalidAccess => String::from_str(
                "requested operation is not valid for the provided key",
            ),
            EncryptionError::Operation => String::from_str(
                "operation failed for an operation-specific reason",
            ),
            EncryptionError::Generic(e) => e.message(),
        }
    }
}

/// Errors that can occur during decryption operations.
///
/// An authentication-tag failure is deliberately indistinguishable from any
/// other operation failure: decryption never reveals more than "it failed".
#[derive(Debug, Clone)]
pub enum DecryptionError {
    /// The requested operation is not valid for the provided key: the key
    /// does not support decryption, or its algorithm does not match.
    InvalidAccess,
    /// The operation failed for an algorithm-specific reason: the ciphertext
    /// is corrupted or truncated, the authentication tag does not verify, or
    /// the nonce does not match the one used for encryption.
    Operation,
    /// Any other failure during decryption.
    Generic(Error),
}

impl DecryptionError {
    /// What [`DecryptionError::from_signal`] returns for a given signal.
    pub open spec fn spec_from_signal(signal: EngineSignal) -> DecryptionError {
        if signal matches EngineSignal::Dom { name, .. } && name@ == "InvalidAccessError"@ {
            DecryptionError::InvalidAccess
        } else if signal matches EngineSignal::Dom { name, .. } && name@ == "OperationError"@ {
            DecryptionError::Operation
        } else {
            DecryptionError::Generic(Error::spec_from_signal(signal))
        }
    }

    /// Classifies an engine failure signal reported by a decrypt operation.
    pub fn from_signal(signal: EngineSignal) -> (r: DecryptionError)
        ensures
            r == DecryptionError::spec_from_signal(signal),
    {
        if let EngineSignal::Dom { name, .. } = &signal {
            if *name == String::from_str("InvalidAccessError") {
                return DecryptionError::InvalidAccess;
            }
            if *name == String::from_str("OperationError") {
                return DecryptionError::Operation;
            }
        }
        DecryptionError::Generic(Error::from_signal(signal))
    }

    /// What [`DecryptionError::message`] renders for each kind.
    pub open spec fn spec_message(&self) -> Seq<char> {
        match self {
            DecryptionError::InvalidAccess => "requested operation is not valid for the provided key"@,
            DecryptionError::Operation => "operation failed for an operation-specific reason"@,
            DecryptionError::Generic(e) => e.spec_message(),
        }
    }

    /// The fixed, human-readable message for this error kind; a failed
    /// authentication tag is rendered no differently from any other
    /// operation failure.
    pub fn message(&self) -> (r: String)
        ensures
            r@ == self.spec_message(),
    {
        match self {
            DecryptionError::InvalidAccess => String::from_str(
                "requested operation is not valid for the provided key",
            ),
            DecryptionError::Operation => String::from_str(
                "operation failed for an operation-specific reason",
            ),
            DecryptionError::Generic(e) => e.message(),
        }
    }
}

/// Relies on `getrandom::getrandom`: fills the buffer in place from the
/// operating system's secure entropy source. The buffer keeps its length
/// whether the call succeeds or fails; nothing can be promised about the
/// bytes themselves, which are random.
#[verifier::external_body]
fn fill_random(buf: &mut Vec<u8>) -> (r: Result<(), ()>)
    ensures
        final(buf)@.len() == old(buf)@.len(),
{
    getrandom::getrandom(buf.as_mut_slice()).map_err(|_| ())
}

/// An immutable byte sequence of exactly `A::spec_nonce_size()` bytes, tagged
/// with the algorithm `A` it is valid for.
///
/// A nonce is created either by secure random generation ([`Nonce::generate`])
/// or by validating externally supplied bytes ([`Nonce::from_slice`]); no
/// mutation accessor exists, so a constructed nonce stays valid for its
/// algorithm for its entire lifetime. It must never be used for two
/// encryptions under the same key — generating a fresh nonce per encryption
/// is the default, safe path.
#[derive(Debug)]
pub struct Nonce<A> {
    algo: PhantomData<A>,
    bytes: Vec<u8>,
}

impl<A> Clone for Nonce<A> {
    /// A cloned nonce holds the same bytes, so it stays valid for `A`.
    fn clone(&self) -> (r: Self)
        ensures
            r@ == self@,
    {
        Nonce { algo: PhantomData, bytes: slice_to_vec(self.bytes.as_slice()) }
    }
}

impl<A> View for Nonce<A> {
    type V = Seq<u8>;

    closed spec fn view(&self) -> Seq<u8> {
        self.bytes@
    }
}

impl<A> Nonce<A> {
    /// Read-only byte-wise view of the nonce's contents.
    pub fn iter(&self) -> (r: &[u8])
        ensures
            r@ == self@,
    {
        self.bytes.as_slice()
    }

    /// Returns the nonce bytes as a vector.
    pub fn to_vec(&self) -> (r: Vec<u8>)
        ensures
            r@ == self@,
    {
        slice_to_vec(self.bytes.as_slice())
    }

    /// Generates a nonce of `size` random bytes: the shared body behind
    /// [`Nonce::generate`] and [`Algorithm::generate_nonce`].
    pub(crate) fn generate_with_size(size: u32) -> (r: Result<Nonce<A>, NonceError>)
        ensures
            r matches Ok(n) ==> n@.len() == size as nat && size <= RANDOM_QUOTA,
            size > RANDOM_QUOTA ==> r == Err::<Nonce<A>, NonceError>(NonceError::QuotaExceeded),
            size <= RANDOM_QUOTA ==> (r matches Err(e) ==> e == NonceError::Generic(
                Error::Unknown,
            )),
    {
        if size > RANDOM_QUOTA {
            return Err(NonceError::QuotaExceeded);
        }
        let mut bytes: Vec<u8> = vec![0u8; size as usize];
        match fill_random(&mut bytes) {
            Ok(()) => Ok(Nonce { algo: PhantomData, bytes }),
            Err(()) => Err(NonceError::Generic(Error::Unknown)),
        }
    }
}

impl<A: Algorithm> Nonce<A> {
    /// A nonce is well formed when its length is the algorithm's nonce size.
    pub open spec fn wf(&self) -> bool {
        self@.len() == A::spec_nonce_size() as nat
    }

    /// Generates a new random nonce of `A`'s nonce size.
    ///
    /// Requests over [`RANDOM_QUOTA`] bytes are refused with
    /// [`NonceError::QuotaExceeded`]; any other failure of the secure random
    /// source is reported as a generic error.
    pub fn generate() -> (r: Result<Nonce<A>, NonceError>)
        ensures
            r matches Ok(n) ==> n.wf() && A::spec_nonce_size() <= RANDOM_QUOTA,
            A::spec_nonce_size() > RANDOM_QUOTA ==> r == Err::<Nonce<A>, NonceError>(
                NonceError::QuotaExceeded,
            ),
            A::spec_nonce_size() <= RANDOM_QUOTA ==> (r matches Err(e) ==> e
                == NonceError::Generic(Error::Unknown)),
    {
        Nonce::<A>::generate_with_size(A::nonce_size())
    }

    /// Creates a nonce from existing bytes, after validating that their
    /// length is exactly `A`'s nonce size. Over-long or truncated input is
    /// rejected with [`NonceError::InvalidSize`], never padded or cut down.
    pub fn from_slice(data: &[u8]) -> (r: Result<Nonce<A>, NonceError>)
        ensures
            data@.len() == A::spec_nonce_size() as nat ==> (r matches Ok(n) && n@ == data@),
            data@.len() != A::spec_nonce_size() as nat ==> r == Err::<Nonce<A>, NonceError>(
                NonceError::InvalidSize {
                    expected: A::spec_nonce_size(),
                    received: data@.len() as u32,
                },
            ),
    {
        let expected = A::nonce_size();
        if data.len() != expected as usize {
            let received = #[verifier::truncate] (data.len() as u32);
            return Err(NonceError::InvalidSize { expected, received });
        }
        Ok(Nonce { algo: PhantomData, bytes: slice_to_vec(data) })
    }
}

/// The capability contract every AEAD algorithm implements: a fixed nonce
/// size, and authenticated `encrypt` and `decrypt` operations that may only
/// be called with a [`Nonce`] constructed for this very algorithm.
pub trait Algorithm: Sized {
    /// The required nonce length in bytes for this algorithm.
    spec fn spec_nonce_size() -> u32;

    /// The length in bytes of the authentication tag the algorithm appends
    /// to every ciphertext.
    spec fn spec_tag_size() -> nat;

    /// The longest payload a single operation accepts.
    spec fn spec_max_payload() -> nat;

    /// Whether this instance holds a well-formed key handle.
    spec fn wf(&self) -> bool;

    /// The sealing function of this instance: the ciphertext-with-tag that
    /// results from encrypting `plaintext` under the instance's key and the
    /// given nonce. `encrypt` computes it; `decrypt` inverts it and accepts
    /// no other input.
    spec fn spec_seal(&self, nonce: Seq<u8>, plaintext: Seq<u8>) -> Seq<u8>;

    /// Required nonce size in bytes for this algorithm.
    fn nonce_size() -> (r: u32)
        ensures
            r == Self::spec_nonce_size(),
    ;

    /// Generates a new random nonce suitable for this algorithm by
    /// requesting `Self::spec_nonce_size()` secure random bytes, as
    /// [`Nonce::generate`] does.
    fn generate_nonce() -> (r: Result<Nonce<Self>, NonceError>)
        ensures
            r matches Ok(n) ==> n@.len() == Self::spec_nonce_size() as nat
                && Self::spec_nonce_size() <= RANDOM_QUOTA,
            Self::spec_nonce_size() > RANDOM_QUOTA ==> r == Err::<Nonce<Self>, NonceError>(
                NonceError::QuotaExceeded,
            ),
            Self::spec_nonce_size() <= RANDOM_QUOTA ==> (r matches Err(e) ==> e
                == NonceError::Generic(Error::Unknown)),
    ;

    /// Authenticates and encrypts `payload` under this instance's key and
    /// the given nonce.
    ///
    /// On success the result is exactly `spec_seal` of the payload: the
    /// ciphertext with the authentication tag appended, longer than the
    /// payload by the tag size. Success is owed whenever the payload is no
    /// longer than `spec_max_payload()`.
    fn encrypt(&self, nonce: &Nonce<Self>, payload: &[u8]) -> (r: Result<Vec<u8>, EncryptionError>)
        requires
            self.wf(),
            nonce@.len() == Self::spec_nonce_size() as nat,
        ensures
            r matches Ok(c) ==> c@ == self.spec_seal(nonce@, payload@) && c@.len() == payload@.len()
                + Self::spec_tag_size(),
            payload@.len() <= Self::spec_max_payload() ==> r is Ok,
    ;

    /// Verifies the authentication tag and decrypts `payload` under this
    /// instance's key and the given nonce.
    ///
    /// Decryption succeeds exactly on the outputs of `spec_seal`: when it
    /// returns a plaintext, the payload is that plaintext's sealing under
    /// this key and nonce (never silently corrupted data); and whenever the
    /// payload is the sealing of some plaintext within the size limit,
    /// decryption returns it.
    fn decrypt(&self, nonce: &Nonce<Self>, payload: &[u8]) -> (r: Result<Vec<u8>, DecryptionError>)
        requires
            self.wf(),
            nonce@.len() == Self::spec_nonce_size() as nat,
        ensures
            r matches Ok(p) ==> payload@ == self.spec_seal(nonce@, p@) && payload@.len() == p@.len()
                + Self::spec_tag_size(),
            forall|p: Seq<u8>|
                payload@ == self.spec_seal(nonce@, p) && p.len() <= Self::spec_max_payload()
                    ==> (r matches Ok(q) && q@ == p),
    ;
}

/// The packaged wire form of an encrypted message: the nonce bytes followed
/// directly by the ciphertext-with-tag — no length prefix, no version byte.
pub open spec fn spec_package(nonce: Seq<u8>, sealed: Seq<u8>) -> Seq<u8> {
    nonce + sealed
}

/// Packages a nonce and the sealed bytes (ciphertext plus tag) into the wire
/// form for transport or storage.
pub fn package<A>(nonce: &Nonce<A>, sealed: &[u8]) -> (r: Vec<u8>)
    ensures
        r@ == spec_package(nonce@, sealed@),
{
    let mut out = nonce.to_vec();
    out.extend_from_slice(sealed);
    proof {
        assert(out@ =~= spec_package(nonce@, sealed@));
    }
    out
}

/// Splits packaged data back into its nonce and its sealed bytes: the first
/// `A::spec_nonce_size()` bytes are the nonce, the remainder is the
/// ciphertext-with-tag. Data too short to hold a nonce is rejected with
/// [`NonceError::InvalidSize`].
pub fn unpack<A: Algorithm>(data: &[u8]) -> (r: Result<(Nonce<A>, Vec<u8>), NonceError>)
    ensures
        data@.len() >= A::spec_nonce_size() as nat ==> (r matches Ok((nonce, sealed))
            && nonce@ == data@.subrange(0, A::spec_nonce_size() as int) && sealed@ == data@.skip(
            A::spec_nonce_size() as int,
        )),
        data@.len() < A::spec_nonce_size() as nat ==> r == Err::<(Nonce<A>, Vec<u8>), NonceError>(
            NonceError::InvalidSize { expected: A::spec_nonce_size(), received: data@.len() as u32 },
        ),
{
    let size_u32 = A::nonce_size();
    let size = size_u32 as usize;
    if data.len() < size {
        let received = #[verifier::truncate] (data.len() as u32);
        return Err(NonceError::InvalidSize { expected: size_u32, received });
    }
    let head = vstd::slice::slice_subrange(data, 0, size);
    let rest = vstd::slice::slice_subrange(data, size, data.len());
    match Nonce::<A>::from_slice(head) {
        Ok(nonce) => Ok((nonce, slice_to_vec(rest))),
        Err(e) => Err(e),
    }
}

/// Law: the wire form splits back into exactly what was packaged — taking
/// the first `nonce.len()` bytes recovers the nonce and the remainder
/// recovers the sealed bytes.
pub proof fn lemma_package_unpack(nonce: Seq<u8>, sealed: Seq<u8>)
    ensures
        spec_package(nonce, sealed).len() == nonce.len() + sealed.len(),
        spec_package(nonce, sealed).subrange(0, nonce.len() as int) == nonce,
        spec_package(nonce, sealed).skip(nonce.len() as int) == sealed,
{
    assert(spec_package(nonce, sealed).subrange(0, nonce.len() as int) =~= nonce);
    assert(spec_package(nonce, sealed).skip(nonce.len() as int) =~= sealed);
}

} // verus!
