//! Declarations of the outside crates' types that cross the library's
//! signatures.  Each declared type is opaque: the library carries its
//! values through and reads them only via the trusted wrappers beside the
//! credential logic.

use vstd::prelude::*;

verus! {

/// The certificate container an encoded credential decodes to.
#[verifier::external_type_specification]
#[verifier::external_body]
pub struct ExPkcs12(openssl::pkcs12::Pkcs12);

/// The parsed certificate container: certificate, key, and chain.
#[verifier::external_type_specification]
#[verifier::external_body]
pub struct ExParsedPkcs12(openssl::pkcs12::ParsedPkcs12_2);

/// An X.509 certificate.
#[verifier::external_type_specification]
#[verifier::external_body]
pub struct ExX509(openssl::x509::X509);

/// A cryptographic key.
#[verifier::external_type_specification]
#[verifier::external_body]
#[verifier::reject_recursive_types(T)]
pub struct ExPKey<T>(openssl::pkey::PKey<T>);

/// The marker for keys with a private part.
#[verifier::external_type_specification]
#[verifier::external_body]
pub struct ExPrivate(openssl::pkey::Private);

/// The cryptographic library's error report.
#[verifier::external_type_specification]
#[verifier::external_body]
pub struct ExErrorStack(openssl::error::ErrorStack);

/// A parsed JSON document.
#[verifier::external_type_specification]
#[verifier::external_body]
pub struct ExJsonValue(serde_json::Value);

} // verus!
