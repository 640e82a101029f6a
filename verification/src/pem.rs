//! Certificates and private keys in PEM files.

use crate::acme::error::{AcmeError, AcmeErrorView};
use crate::text::opt_text;
use crate::tls::{TlsSetupError, TlsSetupErrorView};
use rustls::crypto::ring::default_provider;
use rustls::pki_types::{
    CertificateDer, PrivateKeyDer, PrivatePkcs1KeyDer, PrivatePkcs8KeyDer, PrivateSec1KeyDer,
    ServerName,
};
use std::sync::Arc;
use vstd::prelude::*;

verus! {

/// The form in which a private key is encoded.
#[derive(Clone, Copy, Debug, PartialEq, Eq, Structural)]
pub enum KeyForm {
    Pkcs1,
    Sec1,
    Pkcs8,
}

/// A private key.
#[derive(Debug)]
pub struct PrivateKey {
    pub form: KeyForm,
    pub der: Vec<u8>,
}

/// A certificate chain and the private key of its first certificate.
#[derive(Debug)]
pub struct KeyMaterial {
    pub chain: Vec<Vec<u8>>,
    pub key: PrivateKey,
}

/// The bytes of each certificate.
pub open spec fn chain_bytes(v: Seq<Vec<u8>>) -> Seq<Seq<u8>> {
    Seq::new(v.len(), |i: int| v[i]@)
}

/// A result of reading certificates, by its bytes and its text.
pub open spec fn certificates_view(r: Result<Vec<Vec<u8>>, String>) -> Result<
    Seq<Seq<u8>>,
    Seq<char>,
> {
    match r {
        Ok(v) => Ok(chain_bytes(v@)),
        Err(m) => Err(m@),
    }
}

/// A result of reading a key, by its bytes and its text.
pub open spec fn key_view(r: Result<Option<PrivateKey>, String>) -> Result<
    Option<(KeyForm, Seq<u8>)>,
    Seq<char>,
> {
    match r {
        Ok(Some(k)) => Ok(Some((k.form, k.der@))),
        Ok(None) => Ok(None),
        Err(m) => Err(m@),
    }
}

/// What `rustls_pemfile::certs` finds in a file; the error is its text.
pub uninterp spec fn pem_certificates(file: Seq<u8>) -> Result<Seq<Seq<u8>>, Seq<char>>;

/// `rustls_pemfile::certs`: the certificates of a file, in their order, or the text of
/// the first error. What a well-formed file is is not stated.
#[verifier::external_body]
fn read_certificates(file: &[u8]) -> (r: Result<Vec<Vec<u8>>, String>)
    ensures
        certificates_view(r) == pem_certificates(file@),
{
    let mut reader = file;
    match rustls_pemfile::certs(&mut reader).collect::<Result<Vec<_>, _>>() {
        Ok(found) => Ok(found.into_iter().map(|c| c.to_vec()).collect()),
        Err(e) => Err(e.to_string()),
    }
}

/// Reads the certificates of authorities from the contents of a PEM file.
pub fn read_authorities(file: &[u8]) -> (r: Result<Vec<Vec<u8>>, String>)
    ensures
        certificates_view(r) == pem_certificates(file@),
{
    read_certificates(file)
}

/// What `rustls_pemfile::private_key` finds in a file; the error is its text.
pub uninterp spec fn pem_private_key(file: Seq<u8>) -> Result<
    Option<(KeyForm, Seq<u8>)>,
    Seq<char>,
>;

/// `rustls_pemfile::private_key`: the first private key of a file, nothing where there
/// is none, or the text of the error. What a well-formed file is is not stated.
#[verifier::external_body]
fn read_private_key(file: &[u8]) -> (r: Result<Option<PrivateKey>, String>)
    ensures
        key_view(r) == pem_private_key(file@),
{
    let mut reader = file;
    match rustls_pemfile::private_key(&mut reader) {
        Ok(Some(PrivateKeyDer::Pkcs1(k))) => Ok(
            Some(PrivateKey { form: KeyForm::Pkcs1, der: k.secret_pkcs1_der().to_vec() }),
        ),
        Ok(Some(PrivateKeyDer::Sec1(k))) => Ok(
            Some(PrivateKey { form: KeyForm::Sec1, der: k.secret_sec1_der().to_vec() }),
        ),
        Ok(Some(k)) => Ok(Some(PrivateKey { form: KeyForm::Pkcs8, der: k.secret_der().to_vec() })),
        Ok(None) => Ok(None),
        Err(e) => Err(e.to_string()),
    }
}

/// Why `rustls::crypto::ring::sign::any_supported_type` refuses a key, where it does.
pub uninterp spec fn unsupported_key(form: KeyForm, der: Seq<u8>) -> Option<Seq<char>>;

/// `rustls::crypto::ring::sign::any_supported_type`: the text of the error where the
/// key cannot be used for signing. Which keys can is not stated.
#[verifier::external_body]
fn refusal_of_key(key: &PrivateKey) -> (r: Option<String>)
    ensures
        opt_text(r) == unsupported_key(key.form, key.der@),
{
    let der: PrivateKeyDer<'_> = match key.form {
        KeyForm::Pkcs1 => PrivatePkcs1KeyDer::from(&key.der[..]).into(),
        KeyForm::Sec1 => PrivateSec1KeyDer::from(&key.der[..]).into(),
        KeyForm::Pkcs8 => PrivatePkcs8KeyDer::from(&key.der[..]).into(),
    };
    match rustls::crypto::ring::sign::any_supported_type(&der) {
        Ok(_) => None,
        Err(e) => Some(e.to_string()),
    }
}

/// Why `rustls::RootCertStore::add` refuses a certificate, where it does.
pub uninterp spec fn refused_authority(der: Seq<u8>) -> Option<Seq<char>>;

/// `rustls::RootCertStore::add`: the text of the error where a certificate cannot be trusted
/// as that of an authority. Which can is not stated; it does not depend on what else is in
/// the store.
#[verifier::external_body]
pub(crate) fn refusal_of_authority(der: &[u8]) -> (r: Option<String>)
    ensures
        opt_text(r) == refused_authority(der@),
{
    let mut store = rustls::RootCertStore::empty();
    store.add(CertificateDer::from(der)).err().map(|e| e.to_string())
}

/// Why `rustls::pki_types::ServerName::try_from` refuses a text, where it does.
pub uninterp spec fn refused_server_name(name: Seq<char>) -> Option<Seq<char>>;

/// `rustls::pki_types::ServerName::try_from`: the text of the error where a text is neither
/// a DNS name nor an address. Which texts are is not stated.
#[verifier::external_body]
pub(crate) fn refusal_of_server_name(name: &str) -> (r: Option<String>)
    ensures
        opt_text(r) == refused_server_name(name@),
{
    ServerName::try_from(name.to_owned()).err().map(|e| e.to_string())
}

/// What is wrong with a pair of files.
pub enum MaterialFault {
    BadCertificates(Seq<char>),
    NoCertificates,
    BadKey(Seq<char>),
    NoKey,
}

/// What is found in the files with the certificates and the key, given what was read
/// from each: the certificates are looked at first.
pub open spec fn material(
    certs: Result<Seq<Seq<u8>>, Seq<char>>,
    key: Result<Option<(KeyForm, Seq<u8>)>, Seq<char>>,
) -> Result<(Seq<Seq<u8>>, KeyForm, Seq<u8>), MaterialFault> {
    match certs {
        Err(m) => Err(MaterialFault::BadCertificates(m)),
        Ok(chain) => if chain.len() == 0 {
            Err(MaterialFault::NoCertificates)
        } else {
            match key {
                Err(m) => Err(MaterialFault::BadKey(m)),
                Ok(None) => Err(MaterialFault::NoKey),
                Ok(Some((form, der))) => Ok((chain, form, der)),
            }
        },
    }
}

/// The material as plain bytes.
pub open spec fn material_bytes(m: KeyMaterial) -> (Seq<Seq<u8>>, KeyForm, Seq<u8>) {
    (chain_bytes(m.chain@), m.key.form, m.key.der@)
}

fn two(a: &str, b: &String) -> (r: String)
    ensures
        r@ == a@ + b@,
{
    let mut out = a.to_owned();
    out.push_str(b.as_str());
    out
}

/// The error that a fault is for a listener.
pub open spec fn listener_fault(f: MaterialFault) -> TlsSetupErrorView {
    match f {
        MaterialFault::BadCertificates(m) => TlsSetupErrorView::CertLoad(
            "failed to parse certificate PEM: "@ + m,
        ),
        MaterialFault::NoCertificates => TlsSetupErrorView::CertLoad(
            "certificate file contains no certificates"@,
        ),
        MaterialFault::BadKey(m) => TlsSetupErrorView::CertLoad("failed to parse key PEM: "@ + m),
        MaterialFault::NoKey => TlsSetupErrorView::CertLoad("key file contains no private key"@),
    }
}

/// The certificates and the key of a listener, given what was read from its files.
pub fn listener_material(
    certs: Result<Vec<Vec<u8>>, String>,
    key: Result<Option<PrivateKey>, String>,
) -> (r: Result<KeyMaterial, TlsSetupError>)
    ensures
        match (material(certificates_view(certs), key_view(key)), r) {
            (Ok(m), Ok(x)) => material_bytes(x) == m,
            (Err(f), Err(e)) => e@ == listener_fault(f),
            _ => false,
        },
{
    match certs {
        Err(m) => Err(TlsSetupError::CertLoad(two("failed to parse certificate PEM: ", &m))),
        Ok(chain) => {
            assert(chain_bytes(chain@).len() == chain@.len());
            if chain.len() == 0 {
                return Err(
                    TlsSetupError::CertLoad("certificate file contains no certificates".to_owned()),
                );
            }
            match key {
                Err(m) => Err(TlsSetupError::CertLoad(two("failed to parse key PEM: ", &m))),
                Ok(None) => Err(
                    TlsSetupError::CertLoad("key file contains no private key".to_owned()),
                ),
                Ok(Some(key)) => Ok(KeyMaterial { chain, key }),
            }
        },
    }
}

/// Reads the certificate chain and the private key of a listener from the contents of
/// their files.
pub fn load_listener_material(cert_file: &[u8], key_file: &[u8]) -> (r: Result<
    KeyMaterial,
    TlsSetupError,
>)
    ensures
        match (material(pem_certificates(cert_file@), pem_private_key(key_file@)), r) {
            (Ok(m), Ok(x)) => material_bytes(x) == m,
            (Err(f), Err(e)) => e@ == listener_fault(f),
            _ => false,
        },
{
    listener_material(read_certificates(cert_file), read_private_key(key_file))
}

/// A file that a listener needs.
#[derive(Clone, Copy, Debug, PartialEq, Eq, Structural)]
pub enum MaterialFile {
    Certificate,
    Key,
}

/// The error where a file that a listener needs cannot be opened.
pub fn unopened(file: MaterialFile, path: &str, error: &str) -> (r: TlsSetupError)
    ensures
        r@ == TlsSetupErrorView::CertLoad(
            (match file {
                MaterialFile::Certificate => "failed to open certificate file '"@,
                MaterialFile::Key => "failed to open key file '"@,
            }) + path@ + "': "@ + error@,
        ),
{
    let start = match file {
        MaterialFile::Certificate => "failed to open certificate file '",
        MaterialFile::Key => "failed to open key file '",
    };
    let mut m = start.to_owned();
    m.push_str(path);
    m.push_str("': ");
    m.push_str(error);
    TlsSetupError::CertLoad(m)
}

/// The settings of a TLS server in rustls.
#[verifier::external_type_specification]
#[verifier::external_body]
pub struct ExServerConfig(rustls::ServerConfig);

/// Why no settings came about.
#[derive(Debug)]
pub enum ConfigFailure {
    /// No version of the protocol can be used.
    Versions(String),
    /// The certificates or the key cannot be used.
    Material(String),
}

/// A `ConfigFailure` with its text.
pub enum ConfigFailureView {
    Versions(Seq<char>),
    Material(Seq<char>),
}

impl View for ConfigFailure {
    type V = ConfigFailureView;

    open spec fn view(&self) -> ConfigFailureView {
        match self {
            ConfigFailure::Versions(m) => ConfigFailureView::Versions(m@),
            ConfigFailure::Material(m) => ConfigFailureView::Material(m@),
        }
    }
}

/// Why rustls refuses certificates and a key for a server, where it does.
pub uninterp spec fn refused_material(chain: Seq<Seq<u8>>, form: KeyForm, der: Seq<u8>) -> Option<
    ConfigFailureView,
>;

/// The certificate chain that the settings of a server present, and the form and the bytes
/// of the key with which they sign.
pub uninterp spec fn settings_material(settings: rustls::ServerConfig) -> (
    Seq<Seq<u8>>,
    KeyForm,
    Seq<u8>,
);

/// `rustls::ServerConfig`: the settings of a server with the primitives of ring, the
/// default versions of the protocol, no certificates of clients, and a certificate chain
/// with its key (`with_single_cert`), or the text of the error. The settings present that
/// chain and sign with that key. Which chains and keys are accepted is not stated, nor what
/// else is in the settings, which hold a cache of their own.
#[verifier::external_body]
fn server_config(material: &KeyMaterial) -> (r: Result<rustls::ServerConfig, ConfigFailure>)
    ensures
        match r {
            Ok(settings) => settings_material(settings) == material_bytes(*material)
                && refused_material(
                chain_bytes(material.chain@),
                material.key.form,
                material.key.der@,
            ) is None,
            Err(f) => refused_material(
                chain_bytes(material.chain@),
                material.key.form,
                material.key.der@,
            ) == Some(f@),
        },
{
    let key: PrivateKeyDer<'static> = match material.key.form {
        KeyForm::Pkcs1 => PrivatePkcs1KeyDer::from(material.key.der.clone()).into(),
        KeyForm::Sec1 => PrivateSec1KeyDer::from(material.key.der.clone()).into(),
        KeyForm::Pkcs8 => PrivatePkcs8KeyDer::from(material.key.der.clone()).into(),
    };
    let chain = material.chain.iter().map(|c| CertificateDer::from(c.clone())).collect();
    let provider = Arc::new(default_provider());
    let builder = rustls::ServerConfig::builder_with_provider(provider).with_safe_default_protocol_versions();
    let builder = builder.map_err(|e| ConfigFailure::Versions(e.to_string()))?.with_no_client_auth();
    builder.with_single_cert(chain, key).map_err(|e| ConfigFailure::Material(e.to_string()))
}

/// The settings of a TLS server, with the certificates and the key that they were made of.
#[derive(Debug)]
pub struct ServerTls {
    pub material: KeyMaterial,
    pub settings: rustls::ServerConfig,
}

/// The error that a refusal is for a listener.
pub open spec fn config_fault(f: ConfigFailureView) -> TlsSetupErrorView {
    match f {
        ConfigFailureView::Versions(m) => TlsSetupErrorView::Config(
            "TLS protocol version error: "@ + m,
        ),
        ConfigFailureView::Material(m) => TlsSetupErrorView::Config("TLS configuration error: "@ + m),
    }
}

/// The error that a refusal is for a listener.
pub fn config_error(f: ConfigFailure) -> (r: TlsSetupError)
    ensures
        r@ == config_fault(f@),
{
    match f {
        ConfigFailure::Versions(m) => TlsSetupError::Config(
            two("TLS protocol version error: ", &m),
        ),
        ConfigFailure::Material(m) => TlsSetupError::Config(two("TLS configuration error: ", &m)),
    }
}

/// Reads the certificate chain and the private key from the contents of PEM files and
/// makes the settings of a TLS server of them.
pub fn build_tls_server_config(cert_file: &[u8], key_file: &[u8]) -> (r: Result<
    ServerTls,
    TlsSetupError,
>)
    ensures
        match material(pem_certificates(cert_file@), pem_private_key(key_file@)) {
            Err(f) => r matches Err(e) && e@ == listener_fault(f),
            Ok((chain, form, der)) => match refused_material(chain, form, der) {
                Some(f) => r matches Err(e) && e@ == config_fault(f),
                None => r matches Ok(tls) && material_bytes(tls.material) == (chain, form, der)
                    && settings_material(tls.settings) == (chain, form, der),
            },
        },
{
    match load_listener_material(cert_file, key_file) {
        Err(e) => Err(e),
        Ok(m) => match server_config(&m) {
            Ok(settings) => Ok(ServerTls { material: m, settings }),
            Err(f) => Err(config_error(f)),
        },
    }
}

/// The error that a fault is for a certificate of the authority.
pub open spec fn acme_fault(f: MaterialFault) -> AcmeErrorView {
    match f {
        MaterialFault::BadCertificates(m) => AcmeErrorView::Key(
            "failed to parse certificate PEM: "@ + m,
        ),
        MaterialFault::NoCertificates => AcmeErrorView::Key(
            "certificate PEM contains no certificates"@,
        ),
        MaterialFault::BadKey(m) => AcmeErrorView::Key("failed to parse key PEM: "@ + m),
        MaterialFault::NoKey => AcmeErrorView::Key("key PEM contains no private key"@),
    }
}

/// The certificates and the key from the authority, given what was read from the
/// texts; what is found still has to be fit for signing.
pub fn acme_material(
    certs: Result<Vec<Vec<u8>>, String>,
    key: Result<Option<PrivateKey>, String>,
) -> (r: Result<KeyMaterial, AcmeError>)
    ensures
        match (material(certificates_view(certs), key_view(key)), r) {
            (Ok(m), Ok(x)) => material_bytes(x) == m,
            (Err(f), Err(e)) => e@ == acme_fault(f),
            _ => false,
        },
{
    match certs {
        Err(m) => Err(AcmeError::Key(two("failed to parse certificate PEM: ", &m))),
        Ok(chain) => {
            assert(chain_bytes(chain@).len() == chain@.len());
            if chain.len() == 0 {
                return Err(AcmeError::Key("certificate PEM contains no certificates".to_owned()));
            }
            match key {
                Err(m) => Err(AcmeError::Key(two("failed to parse key PEM: ", &m))),
                Ok(None) => Err(AcmeError::Key("key PEM contains no private key".to_owned())),
                Ok(Some(key)) => Ok(KeyMaterial { chain, key }),
            }
        },
    }
}

/// What comes of material whose key is refused or not.
pub fn fit_for_signing(m: KeyMaterial, refusal: Option<String>) -> (r: Result<
    KeyMaterial,
    AcmeError,
>)
    ensures
        match refusal {
            None => r == Ok::<KeyMaterial, AcmeError>(m),
            Some(t) => r matches Err(e) && e@ == AcmeErrorView::Key("unsupported key type: "@ + t@),
        },
{
    match refusal {
        None => Ok(m),
        Some(t) => Err(AcmeError::Key(two("unsupported key type: ", &t))),
    }
}

/// Loads a PEM certificate chain and private key that are fit for signing.
pub fn load_certified_key_from_pem(cert_pem: &str, key_pem: &str) -> (r: Result<
    KeyMaterial,
    AcmeError,
>)
    ensures
        match (
            material(
                pem_certificates(vstd::utf8::encode_utf8(cert_pem@)),
                pem_private_key(vstd::utf8::encode_utf8(key_pem@)),
            ),
            r,
        ) {
            (Ok(m), Ok(x)) => material_bytes(x) == m && unsupported_key(m.1, m.2) is None,
            (Ok(m), Err(e)) => unsupported_key(m.1, m.2) matches Some(t) && e@ == AcmeErrorView::Key(
                "unsupported key type: "@ + t,
            ),
            (Err(f), Err(e)) => e@ == acme_fault(f),
            _ => false,
        },
{
    match acme_material(
        read_certificates(cert_pem.as_bytes()),
        read_private_key(key_pem.as_bytes()),
    ) {
        Err(e) => Err(e),
        Ok(m) => {
            let refusal = refusal_of_key(&m.key);
            fit_for_signing(m, refusal)
        },
    }
}

/// Certificates and a key are taken exactly where there is at least one certificate and a
/// key, and then as they were read; the certificates are looked at before the key.
pub proof fn law_material_is_whole(
    certs: Result<Seq<Seq<u8>>, Seq<char>>,
    key: Result<Option<(KeyForm, Seq<u8>)>, Seq<char>>,
)
    ensures
        match material(certs, key) {
            Ok((chain, form, der)) => chain.len() > 0 && certs == Ok::<Seq<Seq<u8>>, Seq<char>>(
                chain,
            ) && key == Ok::<Option<(KeyForm, Seq<u8>)>, Seq<char>>(Some((form, der))),
            Err(MaterialFault::BadCertificates(m)) => certs == Err::<Seq<Seq<u8>>, Seq<char>>(m),
            Err(MaterialFault::NoCertificates) => certs matches Ok(chain) && chain.len() == 0,
            Err(MaterialFault::BadKey(m)) => certs is Ok && key == Err::<
                Option<(KeyForm, Seq<u8>)>,
                Seq<char>,
            >(m),
            Err(MaterialFault::NoKey) => certs is Ok && key == Ok::<
                Option<(KeyForm, Seq<u8>)>,
                Seq<char>,
            >(None),
        },
        (certs matches Ok(chain) && chain.len() > 0) && (key matches Ok(Some(_))) ==> material(
            certs,
            key,
        ) is Ok,
{
}

/// What is told of a file that cannot be parsed ends with the error, for a listener as for a
/// certificate of the authority.
pub proof fn law_faults_tell_the_error(m: Seq<char>)
    ensures
        listener_fault(MaterialFault::BadCertificates(m)) matches TlsSetupErrorView::CertLoad(t)
            && m.is_suffix_of(t),
        listener_fault(MaterialFault::BadKey(m)) matches TlsSetupErrorView::CertLoad(t)
            && m.is_suffix_of(t),
        acme_fault(MaterialFault::BadCertificates(m)) matches AcmeErrorView::Key(t)
            && m.is_suffix_of(t),
        acme_fault(MaterialFault::BadKey(m)) matches AcmeErrorView::Key(t) && m.is_suffix_of(t),
        listener_fault(MaterialFault::NoCertificates) is CertLoad,
        listener_fault(MaterialFault::NoKey) is CertLoad,
        acme_fault(MaterialFault::NoCertificates) is Key,
        acme_fault(MaterialFault::NoKey) is Key,
        config_fault(ConfigFailureView::Versions(m)) matches TlsSetupErrorView::Config(t)
            && m.is_suffix_of(t),
        config_fault(ConfigFailureView::Material(m)) matches TlsSetupErrorView::Config(t)
            && m.is_suffix_of(t),
{
    let a = "failed to parse certificate PEM: "@ + m;
    let b = "failed to parse key PEM: "@ + m;
    let c = "TLS protocol version error: "@ + m;
    let d = "TLS configuration error: "@ + m;
    assert(a.subrange(a.len() - m.len(), a.len() as int) =~= m);
    assert(b.subrange(b.len() - m.len(), b.len() as int) =~= m);
    assert(c.subrange(c.len() - m.len(), c.len() as int) =~= m);
    assert(d.subrange(d.len() - m.len(), d.len() as int) =~= m);
}

} // verus!
