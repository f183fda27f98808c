//! The server's TLS identity: the certificate chain and the first PKCS #8
//! private key of two PEM files, and the `rustls` configuration made of them.

use vstd::prelude::*;

verus! {

/// `rustls::ServerConfig`, carried through as an opaque value.
#[verifier::external_type_specification]
#[verifier::external_body]
pub struct ExServerConfig(rustls::ServerConfig);

/// `rustls::Error`, carried through as an opaque value.
#[verifier::external_type_specification]
#[verifier::external_body]
pub struct ExRustlsError(rustls::Error);

/// The DER contents of the certificate sections that `rustls_pemfile::certs`
/// reads from the bytes of a PEM file, in the file's order, or `None` where
/// it reports an error.
pub uninterp spec fn pem_certificates(pem: Seq<u8>) -> Option<Seq<Seq<u8>>>;

/// The DER contents of the PKCS #8 key sections that
/// `rustls_pemfile::pkcs8_private_keys` reads from the bytes of a PEM file, in
/// the file's order, or `None` where it reports an error.
pub uninterp spec fn pem_pkcs8_keys(pem: Seq<u8>) -> Option<Seq<Seq<u8>>>;

/// The contents of a list of DER documents.
pub open spec fn der_list(items: Seq<Vec<u8>>) -> Seq<Seq<u8>> {
    items.map_values(|item: Vec<u8>| item@)
}

/// Calls `rustls_pemfile::certs` on the bytes of a PEM file.
///
/// Trusted: the outcome is a function of the bytes alone, named by
/// `pem_certificates`; an error becomes `None`.
#[verifier::external_body]
pub(crate) fn read_certificates(pem: &[u8]) -> (r: Option<Vec<Vec<u8>>>)
    ensures
        match r {
            Some(found) => pem_certificates(pem@) == Some(der_list(found@)),
            None => pem_certificates(pem@) is None,
        },
{
    let mut reader = pem;
    rustls_pemfile::certs(&mut reader).ok()
}

/// Calls `rustls_pemfile::pkcs8_private_keys` on the bytes of a PEM file.
///
/// Trusted: the outcome is a function of the bytes alone, named by
/// `pem_pkcs8_keys`; an error becomes `None`.
#[verifier::external_body]
pub(crate) fn read_pkcs8_keys(pem: &[u8]) -> (r: Option<Vec<Vec<u8>>>)
    ensures
        match r {
            Some(found) => pem_pkcs8_keys(pem@) == Some(der_list(found@)),
            None => pem_pkcs8_keys(pem@) is None,
        },
{
    let mut reader = pem;
    rustls_pemfile::pkcs8_private_keys(&mut reader).ok()
}

/// Calls `rustls::ServerConfig::builder`, `with_safe_defaults`,
/// `with_no_client_auth` and `with_single_cert` with the chain and the key.
///
/// Trusted: nothing is claimed of the outcome.
#[verifier::external_body]
pub(crate) fn build_config(cert_chain: Vec<Vec<u8>>, key: Vec<u8>) -> (r: Result<
    rustls::ServerConfig,
    rustls::Error,
>) {
    rustls::ServerConfig::builder()
        .with_safe_defaults()
        .with_no_client_auth()
        .with_single_cert(
            cert_chain.into_iter().map(rustls::Certificate).collect(),
            rustls::PrivateKey(key),
        )
}

/// A certificate chain with its private key, each as DER.
#[derive(Debug, Clone, PartialEq, Eq)]
pub struct Identity {
    pub cert_chain: Vec<Vec<u8>>,
    pub key: Vec<u8>,
}

/// The mathematical value of an `Identity`.
pub struct IdentityView {
    pub cert_chain: Seq<Seq<u8>>,
    pub key: Seq<u8>,
}

impl View for Identity {
    type V = IdentityView;

    open spec fn view(&self) -> IdentityView {
        IdentityView { cert_chain: der_list(self.cert_chain@), key: self.key@ }
    }
}

/// Why there is no TLS configuration.
#[derive(Debug, Clone, Copy, PartialEq, Eq, Structural)]
pub enum TlsError {
    /// The certificate file is not well-formed PEM.
    BadCertificates,
    /// The key file is not well-formed PEM.
    BadKeys,
    /// The key file holds no PKCS #8 private key.
    NoPrivateKey,
    /// `rustls` refused the chain and the key.
    Rejected,
}

/// The identity that the two files give: all the certificates, and the
/// first key. A bad certificate file is reported before a bad key file, and
/// that before the lack of a key.
pub open spec fn identity_of(
    certificates: Option<Seq<Seq<u8>>>,
    keys: Option<Seq<Seq<u8>>>,
) -> Result<IdentityView, TlsError> {
    match certificates {
        None => Err(TlsError::BadCertificates),
        Some(cert_chain) => match keys {
            None => Err(TlsError::BadKeys),
            Some(keys) => if keys.len() == 0 {
                Err(TlsError::NoPrivateKey)
            } else {
                Ok(IdentityView { cert_chain, key: keys[0] })
            },
        },
    }
}

/// The contents of what a PEM reader handed back.
pub open spec fn read_view(read: Option<Vec<Vec<u8>>>) -> Option<Seq<Seq<u8>>> {
    match read {
        Some(items) => Some(der_list(items@)),
        None => None,
    }
}

/// Picks the identity out of what was read from the two files.
pub fn select_identity(certificates: Option<Vec<Vec<u8>>>, keys: Option<Vec<Vec<u8>>>) -> (r:
    Result<Identity, TlsError>)
    ensures
        match r {
            Ok(identity) => identity_of(read_view(certificates), read_view(keys)) == Ok::<
                IdentityView,
                TlsError,
            >(identity@),
            Err(e) => identity_of(read_view(certificates), read_view(keys)) == Err::<
                IdentityView,
                TlsError,
            >(e),
        },
{
    let cert_chain = match certificates {
        Some(cert_chain) => cert_chain,
        None => {
            return Err(TlsError::BadCertificates);
        },
    };
    let mut keys = match keys {
        Some(keys) => keys,
        None => {
            return Err(TlsError::BadKeys);
        },
    };
    if keys.len() == 0 {
        return Err(TlsError::NoPrivateKey);
    }
    let ghost all_keys = keys@;
    let key = keys.remove(0);
    assert(der_list(all_keys)[0] == key@);
    Ok(Identity { cert_chain, key })
}

/// Reads the identity from the bytes of the certificate file and of the key
/// file.
pub fn read_identity(cert_pem: &[u8], key_pem: &[u8]) -> (r: Result<Identity, TlsError>)
    ensures
        match r {
            Ok(identity) => identity_of(pem_certificates(cert_pem@), pem_pkcs8_keys(key_pem@))
                == Ok::<IdentityView, TlsError>(identity@),
            Err(e) => identity_of(pem_certificates(cert_pem@), pem_pkcs8_keys(key_pem@)) == Err::<
                IdentityView,
                TlsError,
            >(e),
        },
{
    let certificates = read_certificates(cert_pem);
    let keys = read_pkcs8_keys(key_pem);
    select_identity(certificates, keys)
}

/// Maps what `rustls` made of an identity: a configuration is handed on, an
/// error becomes `Rejected`.
pub fn config_from(built: Result<rustls::ServerConfig, rustls::Error>) -> (r: Result<
    rustls::ServerConfig,
    TlsError,
>)
    ensures
        match built {
            Ok(config) => r == Ok::<rustls::ServerConfig, TlsError>(config),
            Err(_) => r == Err::<rustls::ServerConfig, TlsError>(TlsError::Rejected),
        },
{
    match built {
        Ok(config) => Ok(config),
        Err(_) => Err(TlsError::Rejected),
    }
}

/// Makes the server's TLS configuration from the bytes of the certificate
/// file and of the key file: safe defaults, no client authentication, the
/// file's certificates with its first PKCS #8 key.
///
/// Where the files give no identity, the error says why; where they give
/// one, the configuration is what `rustls` makes of it, or `Rejected`.
pub fn load_rustls_config(cert_pem: &[u8], key_pem: &[u8]) -> (r: Result<
    rustls::ServerConfig,
    TlsError,
>)
    ensures
        match identity_of(pem_certificates(cert_pem@), pem_pkcs8_keys(key_pem@)) {
            Ok(_) => r is Ok || r == Err::<rustls::ServerConfig, TlsError>(TlsError::Rejected),
            Err(e) => r == Err::<rustls::ServerConfig, TlsError>(e),
        },
{
    match read_identity(cert_pem, key_pem) {
        Ok(identity) => config_from(build_config(identity.cert_chain, identity.key)),
        Err(e) => Err(e),
    }
}

} // verus!
