//! Certificates, keys and TLS configurations of the cluster, as far as they come from outside.
use rustls::crypto::ring::default_provider;
use rustls::pki_types::{CertificateDer, PrivateKeyDer, ServerName};
use rustls::server::WebPkiClientVerifier;
use rustls::version::TLS13;
use std::sync::Arc;
use vstd::prelude::*;

verus! {

/// A private key in one of the three encodings that PEM files hold.
#[derive(PartialEq, Eq)]
pub enum PrivateKey {
    Pkcs1(Vec<u8>),
    Sec1(Vec<u8>),
    Pkcs8(Vec<u8>),
}

/// The plain values of a private key.
pub enum PrivateKeyView {
    Pkcs1(Seq<u8>),
    Sec1(Seq<u8>),
    Pkcs8(Seq<u8>),
}

impl View for PrivateKey {
    type V = PrivateKeyView;

    open spec fn view(&self) -> PrivateKeyView {
        match self {
            PrivateKey::Pkcs1(bytes) => PrivateKeyView::Pkcs1(bytes@),
            PrivateKey::Sec1(bytes) => PrivateKeyView::Sec1(bytes@),
            PrivateKey::Pkcs8(bytes) => PrivateKeyView::Pkcs8(bytes@),
        }
    }
}

/// The contents of a list of byte strings.
pub open spec fn byte_lists(lists: Seq<Vec<u8>>) -> Seq<Seq<u8>> {
    lists.map_values(|list: Vec<u8>| list@)
}

/// `rustls::RootCertStore`, a list of trust anchors.
#[verifier::external_type_specification]
#[verifier::external_body]
pub struct ExRootCertStore(rustls::RootCertStore);

/// `rustls::ClientConfig`, what a TLS client is set up with.
#[verifier::external_type_specification]
#[verifier::external_body]
pub struct ExClientConfig(rustls::ClientConfig);

/// `rustls::ServerConfig`, what a TLS server is set up with.
#[verifier::external_type_specification]
#[verifier::external_body]
pub struct ExServerConfig(rustls::ServerConfig);

/// What a trust anchor keeps of its certificate.
pub struct TrustAnchorView {
    pub subject: Seq<u8>,
    pub subject_public_key_info: Seq<u8>,
    pub name_constraints: Option<Seq<u8>>,
}

/// The certificates that `rustls_pemfile::certs` finds in a PEM file, or `None` if it meets an
/// error.
pub uninterp spec fn pem_certificate_list(file: Seq<u8>) -> Option<Seq<Seq<u8>>>;

/// The first private key that `rustls_pemfile::private_key` finds in a PEM file, if there is one,
/// or `None` if it meets an error.
pub uninterp spec fn pem_private_key_of(file: Seq<u8>) -> Option<Option<PrivateKeyView>>;

/// The trust anchor that `rustls::RootCertStore::add` makes of a certificate, or `None` if it
/// refuses the certificate.
pub uninterp spec fn trust_anchor(certificate: Seq<u8>) -> Option<TrustAnchorView>;

/// The trust anchors in a store, in the order in which they were added.
pub uninterp spec fn root_anchors(store: rustls::RootCertStore) -> Seq<TrustAnchorView>;

/// A version of the TLS protocol.
pub enum TlsVersionView {
    Tls12,
    Tls13,
}

/// What a TLS client or server was set up with: the protocol versions that it speaks, whether a
/// peer has to show a certificate that leads to one of the anchors, the anchors, and the
/// certificate chain and the key that it shows itself.
pub struct TlsSetupView {
    pub versions: Seq<TlsVersionView>,
    pub demands_peer_certificate: bool,
    pub anchors: Seq<TrustAnchorView>,
    pub chain: Seq<Seq<u8>>,
    pub key: PrivateKeyView,
}

/// A set-up for TLS 1.3 alone, in which both sides have to show a certificate.
pub open spec fn mutual_tls_13(
    anchors: Seq<TrustAnchorView>,
    chain: Seq<Seq<u8>>,
    key: PrivateKeyView,
) -> TlsSetupView {
    TlsSetupView {
        versions: seq![TlsVersionView::Tls13],
        demands_peer_certificate: true,
        anchors,
        chain,
        key,
    }
}

/// What a client configuration was made with.
pub uninterp spec fn client_setup(config: rustls::ClientConfig) -> TlsSetupView;

/// What a server configuration was made with.
pub uninterp spec fn server_setup(config: rustls::ServerConfig) -> TlsSetupView;

/// At which step the set-up of a TLS client or server failed.
#[derive(Debug, Clone, Copy, PartialEq, Eq, Structural)]
pub enum TlsSetupFailure {
    Protocol,
    Verifier,
    Identity,
}

/// Whether `rustls::sign::CertifiedKey::from_der` with the `ring` provider refuses a certificate
/// chain and a key even when the random source of the system works.
pub uninterp spec fn is_refused_identity(chain: Seq<Seq<u8>>, key: PrivateKeyView) -> bool;

/// Whether `rustls::pki_types::ServerName::try_from` accepts a text as a server name.
pub uninterp spec fn is_server_name(text: Seq<char>) -> bool;

/// `rustls_pemfile::certs` on the contents of a file: all certificates in file order, or `None`
/// after the first error.
#[verifier::external_body]
pub(crate) fn pem_certificates(file: &[u8]) -> (r: Option<Vec<Vec<u8>>>)
    ensures
        match (r, pem_certificate_list(file@)) {
            (Some(certificates), Some(expected)) => byte_lists(certificates@) == expected,
            (None, None) => true,
            _ => false,
        },
{
    let mut reader = file;
    rustls_pemfile::certs(&mut reader)
        .map(|item| item.map(|certificate| certificate.as_ref().to_vec()))
        .collect::<Result<Vec<Vec<u8>>, std::io::Error>>()
        .ok()
}

/// `rustls_pemfile::private_key` on the contents of a file: the first private key, if the file has
/// one, or `None` after an error.
#[verifier::external_body]
pub(crate) fn pem_private_key(file: &[u8]) -> (r: Option<Option<PrivateKey>>)
    ensures
        match (r, pem_private_key_of(file@)) {
            (Some(Some(key)), Some(Some(expected))) => key@ == expected,
            (Some(None), Some(None)) => true,
            (None, None) => true,
            _ => false,
        },
{
    let mut reader = file;
    match rustls_pemfile::private_key(&mut reader) {
        Ok(Some(PrivateKeyDer::Pkcs1(key))) => {
            Some(Some(PrivateKey::Pkcs1(key.secret_pkcs1_der().to_vec())))
        },
        Ok(Some(PrivateKeyDer::Sec1(key))) => {
            Some(Some(PrivateKey::Sec1(key.secret_sec1_der().to_vec())))
        },
        Ok(Some(PrivateKeyDer::Pkcs8(key))) => {
            Some(Some(PrivateKey::Pkcs8(key.secret_pkcs8_der().to_vec())))
        },
        Ok(None) => Some(None),
        _ => None,
    }
}

/// `rustls::RootCertStore::empty`: a store without anchors.
#[verifier::external_body]
pub(crate) fn empty_roots() -> (r: rustls::RootCertStore)
    ensures
        root_anchors(r) == Seq::<TrustAnchorView>::empty(),
{
    rustls::RootCertStore::empty()
}

/// `rustls::RootCertStore::add`: append the anchor of a certificate. The result says whether the
/// certificate was accepted; the store stays as it is if it was not.
#[verifier::external_body]
pub(crate) fn add_root(roots: &mut rustls::RootCertStore, certificate: &Vec<u8>) -> (r: bool)
    ensures
        r == trust_anchor(certificate@) is Some,
        match trust_anchor(certificate@) {
            Some(anchor) => root_anchors(*final(roots)) == root_anchors(*old(roots)).push(anchor),
            None => root_anchors(*final(roots)) == root_anchors(*old(roots)),
        },
{
    roots.add(CertificateDer::from(certificate.clone())).is_ok()
}

/// `rustls::ClientConfig::builder_with_provider` with the `ring` provider, TLS 1.3 alone, `roots`
/// as trust anchors and `with_client_auth_cert`. The protocol step never fails for this provider.
/// The identity step fails on an identity that is refused. It can also fail on any other, because
/// the provider draws from the random source of the system when it loads a key. What the
/// configuration does on a connection is not stated.
#[verifier::external_body]
pub(crate) fn client_config(
    roots: &rustls::RootCertStore,
    chain: &Vec<Vec<u8>>,
    key: &PrivateKey,
) -> (r: Result<rustls::ClientConfig, TlsSetupFailure>)
    ensures
        match r {
            Ok(config) => {
                &&& !is_refused_identity(byte_lists(chain@), key@)
                &&& client_setup(config) == mutual_tls_13(
                    root_anchors(*roots),
                    byte_lists(chain@),
                    key@,
                )
            },
            Err(failure) => failure == TlsSetupFailure::Identity,
        },
{
    let key = match key {
        PrivateKey::Pkcs1(bytes) => PrivateKeyDer::Pkcs1(bytes.clone().into()),
        PrivateKey::Sec1(bytes) => PrivateKeyDer::Sec1(bytes.clone().into()),
        PrivateKey::Pkcs8(bytes) => PrivateKeyDer::Pkcs8(bytes.clone().into()),
    };
    let provider = Arc::new(default_provider());
    rustls::ClientConfig::builder_with_provider(provider)
        .with_protocol_versions(&[&TLS13])
        .map_err(|_| TlsSetupFailure::Protocol)?
        .with_root_certificates(roots.clone())
        .with_client_auth_cert(chain.iter().cloned().map(CertificateDer::from).collect(), key)
        .map_err(|_| TlsSetupFailure::Identity)
}

/// `rustls::ServerConfig::builder_with_provider` with the `ring` provider, TLS 1.3 alone, a
/// `WebPkiClientVerifier` over `roots` and `with_single_cert`. The verifier is built first, which
/// fails exactly when there is no anchor. The protocol step never fails for this provider. The
/// identity step fails on an identity that is refused. It can also fail on any other, because the
/// provider draws from the random source of the system when it loads a key. What the configuration
/// does on a connection is not stated.
#[verifier::external_body]
pub(crate) fn server_config(
    roots: &rustls::RootCertStore,
    chain: &Vec<Vec<u8>>,
    key: PrivateKey,
) -> (r: Result<rustls::ServerConfig, TlsSetupFailure>)
    ensures
        match r {
            Ok(config) => {
                &&& root_anchors(*roots).len() > 0
                &&& !is_refused_identity(byte_lists(chain@), key@)
                &&& server_setup(config) == mutual_tls_13(
                    root_anchors(*roots),
                    byte_lists(chain@),
                    key@,
                )
            },
            Err(failure) => failure == (if root_anchors(*roots).len() == 0 {
                TlsSetupFailure::Verifier
            } else {
                TlsSetupFailure::Identity
            }),
        },
{
    let key = match key {
        PrivateKey::Pkcs1(bytes) => PrivateKeyDer::Pkcs1(bytes.into()),
        PrivateKey::Sec1(bytes) => PrivateKeyDer::Sec1(bytes.into()),
        PrivateKey::Pkcs8(bytes) => PrivateKeyDer::Pkcs8(bytes.into()),
    };
    let provider = Arc::new(default_provider());
    let roots = Arc::new(roots.clone());
    let verifier = WebPkiClientVerifier::builder_with_provider(roots, provider.clone()).build();
    let verifier = verifier.map_err(|_| TlsSetupFailure::Verifier)?;
    rustls::ServerConfig::builder_with_provider(provider)
        .with_protocol_versions(&[&TLS13])
        .map_err(|_| TlsSetupFailure::Protocol)?
        .with_client_cert_verifier(verifier)
        .with_single_cert(chain.iter().cloned().map(CertificateDer::from).collect(), key)
        .map_err(|_| TlsSetupFailure::Identity)
}

/// `rustls::pki_types::ServerName::try_from` on a text: whether it is a server name.
#[verifier::external_body]
pub(crate) fn accepts_server_name(text: &str) -> (r: bool)
    ensures
        r == is_server_name(text@),
{
    ServerName::try_from(text).is_ok()
}

} // verus!
