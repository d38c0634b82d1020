//! Classification of engine failure signals and the rendered messages.

use browser_crypto::aes256gcm::ImportKeyError;
use browser_crypto::algorithm::{DecryptionError, EncryptionError, NonceError};
use browser_crypto::{decimal, EngineSignal, Error};

fn dom(name: &str, message: &str) -> EngineSignal {
    EngineSignal::Dom { name: name.to_string(), message: message.to_string() }
}

#[test]
fn general_error_keeps_exception_details() {
    match Error::from_signal(dom("NotAllowedError", "denied")) {
        Error::DomException(name, message) => {
            assert_eq!(name, "NotAllowedError");
            assert_eq!(message, "denied");
        },
        other => panic!("expected an exception kind, got {:?}", other),
    }
    assert!(matches!(Error::from_signal(EngineSignal::HostSyntax), Error::Unknown));
    assert!(matches!(Error::from_signal(EngineSignal::Other), Error::Unknown));
}

#[test]
fn nonce_error_classification() {
    assert!(matches!(
        NonceError::from_signal(dom("QuotaExceededError", "too much")),
        NonceError::QuotaExceeded
    ));
    assert!(matches!(
        NonceError::from_signal(dom("SomethingElse", "boom")),
        NonceError::Generic(Error::DomException(_, _))
    ));
    assert!(matches!(
        NonceError::from_signal(EngineSignal::Other),
        NonceError::Generic(Error::Unknown)
    ));
}

#[test]
fn encryption_error_classification() {
    assert!(matches!(
        EncryptionError::from_signal(dom("InvalidAccessError", "bad key")),
        EncryptionError::InvalidAccess
    ));
    assert!(matches!(
        EncryptionError::from_signal(dom("OperationError", "failed")),
        EncryptionError::Operation
    ));
    assert!(matches!(
        EncryptionError::from_signal(EngineSignal::Other),
        EncryptionError::Generic(Error::Unknown)
    ));
}

#[test]
fn decryption_error_classification() {
    assert!(matches!(
        DecryptionError::from_signal(dom("InvalidAccessError", "bad key")),
        DecryptionError::InvalidAccess
    ));
    assert!(matches!(
        DecryptionError::from_signal(dom("OperationError", "failed")),
        DecryptionError::Operation
    ));
    assert!(matches!(
        DecryptionError::from_signal(dom("QuotaExceededError", "unrelated")),
        DecryptionError::Generic(Error::DomException(_, _))
    ));
}

#[test]
fn empty_usages_import_signal() {
    // An engine refuses a secret-key import with an empty usage list by a
    // SyntaxError signal; the taxonomy keeps that distinguishable.
    assert!(matches!(
        ImportKeyError::from_signal(dom("SyntaxError", "empty keyUsages")),
        ImportKeyError::Syntax
    ));
}

#[test]
fn import_key_error_classification() {
    assert!(matches!(
        ImportKeyError::from_signal(dom("DataError", "bad format")),
        ImportKeyError::InvalidKeyFormat
    ));
    assert!(matches!(
        ImportKeyError::from_signal(EngineSignal::HostSyntax),
        ImportKeyError::Type
    ));
    assert!(matches!(
        ImportKeyError::from_signal(dom("OperationError", "other")),
        ImportKeyError::Generic(Error::DomException(_, _))
    ));
    assert!(matches!(
        ImportKeyError::from_signal(EngineSignal::Other),
        ImportKeyError::Generic(Error::Unknown)
    ));
}

#[test]
fn decimal_renders_values() {
    assert_eq!(decimal(0), "0");
    assert_eq!(decimal(7), "7");
    assert_eq!(decimal(12), "12");
    assert_eq!(decimal(120), "120");
    assert_eq!(decimal(65536), "65536");
    assert_eq!(decimal(u32::MAX), "4294967295");
}

#[test]
fn general_error_messages() {
    assert_eq!(Error::GlobalScopeNotFound.message(), "unable to read global scope");
    assert_eq!(Error::CryptoUnreachable.message(), "unable to access crypto interface");
    assert_eq!(Error::Unknown.message(), "unknown exception");
    let e = Error::DomException("OperationError".to_string(), "it broke".to_string());
    assert_eq!(e.message(), "DOMException OperationError: it broke");
}

#[test]
fn nonce_error_messages() {
    assert_eq!(NonceError::QuotaExceeded.message(), "the requested nonce length exceeds 65536");
    let e = NonceError::InvalidSize { expected: 12, received: 10 };
    assert_eq!(e.message(), "invalid nonce size provided, expected 12, received 10");
    assert_eq!(NonceError::Generic(Error::Unknown).message(), "unknown exception");
}

#[test]
fn operation_error_messages() {
    assert_eq!(
        EncryptionError::InvalidAccess.message(),
        "requested operation is not valid for the provided key"
    );
    assert_eq!(
        EncryptionError::Operation.message(),
        "operation failed for an operation-specific reason"
    );
    assert_eq!(
        DecryptionError::InvalidAccess.message(),
        "requested operation is not valid for the provided key"
    );
    assert_eq!(
        DecryptionError::Operation.message(),
        "operation failed for an operation-specific reason"
    );
}

#[test]
fn import_key_error_messages() {
    assert_eq!(
        ImportKeyError::Syntax.message(),
        "keyUsages is empty but the unwrapped key is of type secret or private"
    );
    assert_eq!(
        ImportKeyError::Type.message(),
        "invalid format or keyData not suited for that format"
    );
    assert_eq!(ImportKeyError::InvalidKeyFormat.message(), "invalid key format provided");
    assert_eq!(
        ImportKeyError::Generic(Error::CryptoUnreachable).message(),
        "unable to access crypto interface"
    );
}
