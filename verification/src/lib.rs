//! A type-safe abstraction layer for authenticated symmetric encryption
//! (AES-256-GCM).
//!
//! The library is built around three pieces:
//!
//! - an algorithm contract ([`algorithm::Algorithm`]) that every AEAD
//!   algorithm implements: a fixed nonce size, `encrypt` and `decrypt`;
//! - a nonce type ([`algorithm::Nonce`]) parameterized over the algorithm it
//!   is valid for, so a nonce of the wrong size can never reach an operation;
//! - a closed error taxonomy that normalizes the failure signals of the
//!   backing cryptographic engine into a small set of kinds a caller can
//!   branch on.
//!
//! The concrete algorithm, [`aes256gcm::Aes256Gcm`], performs the AEAD
//! computation through a software engine; a host-provided engine (such as a
//! platform crypto API) can drive the same nonce discipline and error
//! taxonomy from the outside, feeding its failure signals in as
//! [`EngineSignal`] values.

use vstd::prelude::*;
use vstd::string::StringExecFns;

pub mod aes256gcm;
pub mod algorithm;

verus! {

/// The decimal digit character for a value below ten.
pub open spec fn spec_digit(v: u32) -> Seq<char> {
    if v == 0 {
        "0"@
    } else if v == 1 {
        "1"@
    } else if v == 2 {
        "2"@
    } else if v == 3 {
        "3"@
    } else if v == 4 {
        "4"@
    } else if v == 5 {
        "5"@
    } else if v == 6 {
        "6"@
    } else if v == 7 {
        "7"@
    } else if v == 8 {
        "8"@
    } else {
        "9"@
    }
}

/// The decimal rendering of `v`, most significant digit first.
pub open spec fn spec_decimal(v: u32) -> Seq<char>
    decreases v,
{
    if v < 10 {
        spec_digit(v)
    } else {
        spec_decimal(v / 10) + spec_digit(v % 10)
    }
}

fn digit_str(v: u32) -> (r: &'static str)
    requires
        v < 10,
    ensures
        r@ == spec_digit(v),
{
    if v == 0 {
        "0"
    } else if v == 1 {
        "1"
    } else if v == 2 {
        "2"
    } else if v == 3 {
        "3"
    } else if v == 4 {
        "4"
    } else if v == 5 {
        "5"
    } else if v == 6 {
        "6"
    } else if v == 7 {
        "7"
    } else if v == 8 {
        "8"
    } else {
        "9"
    }
}

/// Renders `v` in decimal, for embedding values into error messages.
pub fn decimal(v: u32) -> (r: String)
    ensures
        r@ == spec_decimal(v),
    decreases v,
{
    if v < 10 {
        String::from_str(digit_str(v))
    } else {
        decimal(v / 10).concat(digit_str(v % 10))
    }
}

/// A failure signal reported by a cryptographic engine, reduced to the plain
/// values the error taxonomy inspects.
///
/// Engines report failures as name-tagged exception-like values. Only three
/// shapes matter to classification: a DOM-style exception carrying a name and
/// a message, a host syntax failure outside the DOM exception family, and
/// anything else.
#[derive(Debug, Clone)]
pub enum EngineSignal {
    /// A DOM-style exception with its name (for example `"OperationError"`)
    /// and human-readable message.
    Dom { name: String, message: String },
    /// A host syntax failure that is not a DOM-style exception.
    HostSyntax,
    /// Any other failure value.
    Other,
}

/// General errors that can occur when interacting with a cryptographic
/// engine.
#[derive(Debug, Clone)]
pub enum Error {
    /// The global scope (window or worker context) could not be accessed.
    GlobalScopeNotFound,
    /// The crypto interface is not available in the current environment.
    CryptoUnreachable,
    /// A DOM-style exception with a name and message, giving more detailed
    /// information about an engine-specific failure.
    DomException(String, String),
    /// An unknown or unexpected failure that could not be classified.
    Unknown,
}

impl Error {
    /// What [`Error::from_signal`] returns for a given signal.
    pub open spec fn spec_from_signal(signal: EngineSignal) -> Error {
        match signal {
            EngineSignal::Dom { name, message } => Error::DomException(name, message),
            _ => Error::Unknown,
        }
    }

    /// Classifies an engine failure signal as a general error: a DOM-style
    /// exception keeps its name and message, everything else collapses into
    /// [`Error::Unknown`].
    pub fn from_signal(signal: EngineSignal) -> (r: Error)
        ensures
            r == Error::spec_from_signal(signal),
    {
        match signal {
            EngineSignal::Dom { name, message } => Error::DomException(name, message),
            _ => Error::Unknown,
        }
    }

    /// What [`Error::message`] renders for each kind.
    pub open spec fn spec_message(&self) -> Seq<char> {
        match self {
            Error::GlobalScopeNotFound => "unable to read global scope"@,
            Error::CryptoUnreachable => "unable to access crypto interface"@,
            Error::DomException(name, message) => "DOMException "@ + name@ + ": "@ + message@,
            Error::Unknown => "unknown exception"@,
        }
    }

    /// The fixed, human-readable message for this error kind. Only the
    /// catch-all exception kind carries anything beyond a constant: the name
    /// and message of the low-level signal it retains.
    pub fn message(&self) -> (r: String)
        ensures
            r@ == self.spec_message(),
    {
        match self {
            Error::GlobalScopeNotFound => String::from_str("unable to read global scope"),
            Error::CryptoUnreachable => String::from_str("unable to access crypto interface"),
            Error::DomException(name, message) => String::from_str("DOMException ").concat(
                name.as_str(),
            ).concat(": ").concat(message.as_str()),
            Error::Unknown => String::from_str("unknown exception"),
        }
    }
}

} // verus!
