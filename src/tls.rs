//! The client identity for mutual TLS: a certificate and a private key, both
//! PEM-encoded, packed into a PKCS#12 archive.

use vstd::prelude::*;

verus! {

/// `openssl::x509::X509`, a parsed certificate.
#[verifier::external_type_specification]
#[verifier::external_body]
pub struct ExX509(openssl::x509::X509);

/// `openssl::pkey::Private`, the marker of a key that holds its private part.
#[verifier::external_type_specification]
#[verifier::external_body]
pub struct ExPrivate(openssl::pkey::Private);

/// `openssl::pkey::PKey`, a parsed key.
#[verifier::external_type_specification]
#[verifier::external_body]
#[verifier::reject_recursive_types(T)]
pub struct ExPKey<T>(openssl::pkey::PKey<T>);

/// Relies on `openssl::x509::X509::from_pem`: it reads the first certificate
/// of the PEM bytes. Whether it succeeds is up to the OpenSSL build and its
/// configuration, so nothing is said of it.
/// The bytes go through a memory BIO, which takes at most `i32::MAX` bytes.
#[verifier::external_body]
fn parse_certificate(pem: &[u8]) -> (r: Option<openssl::x509::X509>)
    requires
        pem@.len() <= i32::MAX,
{
    openssl::x509::X509::from_pem(pem).ok()
}

/// Relies on `openssl::pkey::PKey::private_key_from_pem`: it reads the first
/// private key of the PEM bytes. Which key types it can decode is up to the
/// OpenSSL build and its providers, so nothing is said of whether it succeeds.
/// The bytes go through a memory BIO, which takes at most `i32::MAX` bytes.
#[verifier::external_body]
fn parse_private_key(pem: &[u8]) -> (r: Option<openssl::pkey::PKey<openssl::pkey::Private>>)
    requires
        pem@.len() <= i32::MAX,
{
    openssl::pkey::PKey::private_key_from_pem(pem).ok()
}

/// Relies on `openssl::pkcs12::Pkcs12Builder::build2` and
/// `Pkcs12Ref::to_der`: the DER encoding of a password-less archive holding
/// `key` and `cert` under `friendly_name`. The archive is salted at random,
/// so nothing is said of the bytes, nor of whether it succeeds. The name is
/// handed to OpenSSL as a C string, so it holds no NUL character.
#[verifier::external_body]
fn pkcs12_der(
    friendly_name: &str,
    key: &openssl::pkey::PKey<openssl::pkey::Private>,
    cert: &openssl::x509::X509,
) -> (r: Option<Vec<u8>>)
    requires
        !friendly_name@.contains('\0'),
{
    let mut builder = openssl::pkcs12::Pkcs12::builder();
    builder.name(friendly_name);
    builder.pkey(key);
    builder.cert(cert);
    match builder.build2("") {
        Ok(archive) => archive.to_der().ok(),
        Err(_) => None,
    }
}

/// Why the client identity could not be built.
#[derive(Clone, Copy, Debug, PartialEq, Eq)]
pub enum TlsSetupError {
    /// The certificate file holds no readable PEM certificate.
    Certificate,
    /// The key file holds no readable PEM private key.
    PrivateKey,
    /// The archive of the two could not be built.
    Archive,
}

/// The result of building the identity from what each step gave: whether the
/// certificate was read, whether the key was read, and the archive's bytes if
/// it was built. The first step that failed gives the error.
pub open spec fn identity_outcome_spec(cert_read: bool, key_read: bool, archive: Option<Vec<u8>>) -> Result<
    Vec<u8>,
    TlsSetupError,
> {
    if !cert_read {
        Err(TlsSetupError::Certificate)
    } else if !key_read {
        Err(TlsSetupError::PrivateKey)
    } else {
        match archive {
            Some(der) => Ok(der),
            None => Err(TlsSetupError::Archive),
        }
    }
}

/// Maps what the steps of building the identity gave to the result.
pub fn identity_outcome(cert_read: bool, key_read: bool, archive: Option<Vec<u8>>) -> (r: Result<
    Vec<u8>,
    TlsSetupError,
>)
    ensures
        r == identity_outcome_spec(cert_read, key_read, archive),
{
    if !cert_read {
        Err(TlsSetupError::Certificate)
    } else if !key_read {
        Err(TlsSetupError::PrivateKey)
    } else {
        match archive {
            Some(der) => Ok(der),
            None => Err(TlsSetupError::Archive),
        }
    }
}

/// Packs a PEM certificate and a PEM private key into the DER bytes of a
/// password-less PKCS#12 archive named "identity". The certificate is read
/// first, then the key, then the archive is built; the result is what
/// `identity_outcome` makes of those steps, so a step that fails gives an
/// error. Whether a step fails is OpenSSL's to decide, so the contract leaves
/// that open. Each file is handed to OpenSSL whole, which takes at most
/// `i32::MAX` bytes.
pub fn client_identity_der(cert_pem: &[u8], key_pem: &[u8]) -> (r: Result<Vec<u8>, TlsSetupError>)
    requires
        cert_pem@.len() <= i32::MAX,
        key_pem@.len() <= i32::MAX,
    ensures
        exists|cert_read: bool, key_read: bool, archive: Option<Vec<u8>>|
            r == identity_outcome_spec(cert_read, key_read, archive) && (archive is Some ==> cert_read
                && key_read),
{
    let cert = parse_certificate(cert_pem);
    let key = match &cert {
        Some(_) => parse_private_key(key_pem),
        None => None,
    };
    let name = "identity";
    proof {
        reveal_strlit("identity");
        assert(!name@.contains('\0'));
    }
    let archive = match (&cert, &key) {
        (Some(c), Some(k)) => pkcs12_der(name, k, c),
        _ => None,
    };
    let cert_read = cert.is_some();
    let key_read = key.is_some();
    let ghost built = archive;
    let r = identity_outcome(cert_read, key_read, archive);
    assert(r == identity_outcome_spec(cert_read, key_read, built));
    r
}

} // verus!
