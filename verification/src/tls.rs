use vstd::prelude::*;

verus! {

/// The type of the TLS acceptor that the secure listener uses.
pub type Acceptor = tokio_rustls::TlsAcceptor;

#[verifier::external_type_specification]
#[verifier::external_body]
pub struct ExTlsAcceptor(tokio_rustls::TlsAcceptor);

#[verifier::external_type_specification]
#[verifier::external_body]
pub struct ExServerConfig(tokio_rustls::rustls::ServerConfig);

#[verifier::external_type_specification]
#[verifier::external_body]
pub struct ExRustlsError(tokio_rustls::rustls::Error);

#[verifier::external_type_specification]
#[verifier::external_body]
pub struct ExIoError(std::io::Error);

/// The DER certificates that `rustls_pemfile::certs` finds in a PEM text, or
/// `None` where it reports a malformed section.
pub uninterp spec fn pem_certificates(pem: Seq<u8>) -> Option<Seq<Seq<u8>>>;

/// The DER PKCS#8 keys that `rustls_pemfile::pkcs8_private_keys` finds in a
/// PEM text, or `None` where it reports a malformed section.
pub uninterp spec fn pem_pkcs8_private_keys(pem: Seq<u8>) -> Option<Seq<Seq<u8>>>;

/// Calls `rustls_pemfile::certs` on the PEM text. The contract claims that
/// what it returns is a function of the text alone: the certificates it
/// found, or an error.
#[verifier::external_body]
fn read_pem_certificates(pem: &[u8]) -> (r: Result<Vec<Vec<u8>>, std::io::Error>)
    ensures
        match r {
            Ok(certs) => pem_certificates(pem@) == Some(certs.deep_view()),
            Err(_) => pem_certificates(pem@) is None,
        },
{
    let mut reader = std::io::BufReader::new(pem);
    rustls_pemfile::certs(&mut reader)
}

/// Calls `rustls_pemfile::pkcs8_private_keys` on the PEM text. The contract
/// claims that what it returns is a function of the text alone.
#[verifier::external_body]
fn read_pem_pkcs8_private_keys(pem: &[u8]) -> (r: Result<Vec<Vec<u8>>, std::io::Error>)
    ensures
        match r {
            Ok(keys) => pem_pkcs8_private_keys(pem@) == Some(keys.deep_view()),
            Err(_) => pem_pkcs8_private_keys(pem@) is None,
        },
{
    let mut reader = std::io::BufReader::new(pem);
    rustls_pemfile::pkcs8_private_keys(&mut reader)
}

/// A rustls server configuration together with a model of what it was made
/// of: the certificate chain, the private key, the ALPN protocols in order of
/// preference, and whether it asks clients for a certificate.
pub struct TlsServerConfig {
    config: tokio_rustls::rustls::ServerConfig,
    certs: Ghost<Seq<Seq<u8>>>,
    key: Ghost<Seq<u8>>,
    alpn_protocols: Ghost<Seq<Seq<u8>>>,
    requests_client_certificate: Ghost<bool>,
}

impl TlsServerConfig {
    pub closed spec fn certs(&self) -> Seq<Seq<u8>> {
        self.certs@
    }

    pub closed spec fn key(&self) -> Seq<u8> {
        self.key@
    }

    pub closed spec fn alpn_protocols(&self) -> Seq<Seq<u8>> {
        self.alpn_protocols@
    }

    pub closed spec fn requests_client_certificate(&self) -> bool {
        self.requests_client_certificate@
    }
}

/// A `tokio_rustls::TlsAcceptor` together with the model of the configuration
/// it serves with.
pub struct ConfiguredAcceptor {
    acceptor: Acceptor,
    certs: Ghost<Seq<Seq<u8>>>,
    key: Ghost<Seq<u8>>,
    alpn_protocols: Ghost<Seq<Seq<u8>>>,
    requests_client_certificate: Ghost<bool>,
}

impl ConfiguredAcceptor {
    /// The certificate chain presented to clients, in order.
    pub closed spec fn certs(&self) -> Seq<Seq<u8>> {
        self.certs@
    }

    /// The DER private key the handshake signs with.
    pub closed spec fn key(&self) -> Seq<u8> {
        self.key@
    }

    /// The ALPN protocols offered, in order of preference.
    pub closed spec fn alpn_protocols(&self) -> Seq<Seq<u8>> {
        self.alpn_protocols@
    }

    /// Whether the handshake asks the client for a certificate.
    pub closed spec fn requests_client_certificate(&self) -> bool {
        self.requests_client_certificate@
    }

    pub closed spec fn inner(&self) -> Acceptor {
        self.acceptor
    }

    /// The acceptor itself, for the TLS listener.
    pub fn into_acceptor(self) -> (r: Acceptor)
        ensures
            r == self.inner(),
    {
        self.acceptor
    }
}

/// Calls the `rustls` server configuration builder with its safe defaults, no
/// client authentication and the given single certificate chain and private
/// key. The contract claims what its source shows of a configuration it makes:
/// it serves that chain with that key, offers no ALPN protocol and asks no
/// client certificate. Whether it fails is left open: it fails where rustls
/// cannot sign with the key, which for ECDSA keys also depends on the
/// operating system's random source.
#[verifier::external_body]
fn server_config_with_single_cert(certs: Vec<Vec<u8>>, key: Vec<u8>) -> (r: Result<
    TlsServerConfig,
    tokio_rustls::rustls::Error,
>)
    ensures
        r matches Ok(config) ==> {
            &&& config.certs() == certs.deep_view()
            &&& config.key() == key@
            &&& config.alpn_protocols() == Seq::<Seq<u8>>::empty()
            &&& !config.requests_client_certificate()
        },
{
    let ghost model = (certs.deep_view(), key@);
    let chain = certs.into_iter().map(tokio_rustls::rustls::Certificate).collect();
    match tokio_rustls::rustls::ServerConfig::builder()
        .with_safe_defaults()
        .with_no_client_auth()
        .with_single_cert(chain, tokio_rustls::rustls::PrivateKey(key))
    {
        Ok(config) => {
            let (certs, key) = (Ghost(model.0), Ghost(model.1));
            let (alpn_protocols, requests_client_certificate) = (Ghost(Seq::empty()), Ghost(false));
            Ok(TlsServerConfig { config, certs, key, alpn_protocols, requests_client_certificate })
        },
        Err(e) => Err(e),
    }
}

/// Appends the protocols to the configuration's ALPN list and turns the
/// configuration into a `tokio_rustls::TlsAcceptor` (through `From<Arc<_>>`).
/// The contract claims that the acceptor serves with that configuration.
#[verifier::external_body]
fn acceptor_with_alpn(config: TlsServerConfig, protocols: Vec<Vec<u8>>) -> (r: ConfiguredAcceptor)
    ensures
        r.certs() == config.certs(),
        r.key() == config.key(),
        r.alpn_protocols() == config.alpn_protocols() + protocols.deep_view(),
        r.requests_client_certificate() == config.requests_client_certificate(),
{
    let ghost offered = config.alpn_protocols@ + protocols.deep_view();
    let mut inner = config.config;
    inner.alpn_protocols.extend(protocols);
    ConfiguredAcceptor {
        acceptor: std::sync::Arc::new(inner).into(),
        certs: config.certs,
        key: config.key,
        alpn_protocols: Ghost(offered),
        requests_client_certificate: config.requests_client_certificate,
    }
}

/// Why no TLS acceptor could be made.
#[derive(Debug, Clone, Copy, PartialEq, Eq, Structural)]
pub enum TlsSetupError {
    /// The key file holds no PKCS#8 private key (or is malformed).
    NoPrivateKey,
    /// rustls cannot sign with the first PKCS#8 key of the key file.
    UnsupportedPrivateKey,
}

/// What the TLS acceptor is made of: the certificate chain, the private key
/// and the ALPN protocols, in order of preference.
pub struct TlsSettings {
    pub certs: Vec<Vec<u8>>,
    pub key: Vec<u8>,
    pub alpn_protocols: Vec<Vec<u8>>,
}

/// `h2`
pub open spec fn alpn_h2() -> Seq<u8> {
    seq![0x68u8, 0x32u8]
}

/// `http/1.1`
pub open spec fn alpn_http11() -> Seq<u8> {
    seq![0x68u8, 0x74u8, 0x74u8, 0x70u8, 0x2fu8, 0x31u8, 0x2eu8, 0x31u8]
}

/// The ALPN protocols offered, HTTP/2 first.
pub open spec fn spec_alpn_protocols() -> Seq<Seq<u8>> {
    seq![alpn_h2(), alpn_http11()]
}

/// The certificates taken from the certificate file: all that it holds, or
/// none where it is malformed.
pub open spec fn certificates_of(cert_pem: Seq<u8>) -> Seq<Seq<u8>> {
    match pem_certificates(cert_pem) {
        Some(certs) => certs,
        None => seq![],
    }
}

/// The key taken from the key file: its first PKCS#8 private key.
pub open spec fn private_key_of(key_pem: Seq<u8>) -> Option<Seq<u8>> {
    match pem_pkcs8_private_keys(key_pem) {
        Some(keys) => if keys.len() > 0 { Some(keys[0]) } else { None },
        None => None,
    }
}

/// The ALPN protocols that the TLS listener offers: `h2`, then `http/1.1`.
pub fn alpn_protocols() -> (r: Vec<Vec<u8>>)
    ensures
        r.deep_view() == spec_alpn_protocols(),
{
    let mut h2: Vec<u8> = Vec::new();
    h2.push(0x68u8);
    h2.push(0x32u8);
    let mut http11: Vec<u8> = Vec::new();
    http11.push(0x68u8);
    http11.push(0x74u8);
    http11.push(0x74u8);
    http11.push(0x70u8);
    http11.push(0x2fu8);
    http11.push(0x31u8);
    http11.push(0x2eu8);
    http11.push(0x31u8);
    assert(h2.deep_view() =~= alpn_h2());
    assert(http11.deep_view() =~= alpn_http11());
    let mut r: Vec<Vec<u8>> = Vec::new();
    r.push(h2);
    r.push(http11);
    assert(r.deep_view()[0] == alpn_h2());
    assert(r.deep_view()[1] == alpn_http11());
    assert(r.deep_view() =~= spec_alpn_protocols());
    r
}

/// Reads the certificate chain and the private key from their PEM files and
/// pairs them with the ALPN protocols. A malformed certificate file gives an
/// empty chain; a key file without a PKCS#8 key is an error.
pub fn tls_settings(cert_pem: &[u8], key_pem: &[u8]) -> (r: Result<TlsSettings, TlsSetupError>)
    ensures
        match r {
            Ok(settings) => {
                &&& private_key_of(key_pem@) == Some(settings.key@)
                &&& settings.certs.deep_view() == certificates_of(cert_pem@)
                &&& settings.alpn_protocols.deep_view() == spec_alpn_protocols()
            },
            Err(e) => e == TlsSetupError::NoPrivateKey && private_key_of(key_pem@) is None,
        },
{
    let certs = match read_pem_certificates(cert_pem) {
        Ok(certs) => certs,
        Err(_) => Vec::new(),
    };
    assert(certs.deep_view() =~= certificates_of(cert_pem@));
    let key = match read_pem_pkcs8_private_keys(key_pem) {
        Ok(mut keys) => {
            if keys.len() == 0 {
                return Err(TlsSetupError::NoPrivateKey);
            }
            let ghost keys_view = keys.deep_view();
            let first = keys.swap_remove(0);
            assert(first@ == keys_view[0]);
            first
        },
        Err(_) => return Err(TlsSetupError::NoPrivateKey),
    };
    Ok(TlsSettings { certs, key, alpn_protocols: alpn_protocols() })
}

/// Makes the TLS acceptor from its settings: it presents the settings' chain,
/// signs with their key, offers their ALPN protocols in order and asks no
/// client certificate. It fails where rustls cannot sign with the key.
pub fn acceptor_from_settings(settings: TlsSettings) -> (r: Result<ConfiguredAcceptor, TlsSetupError>)
    ensures
        match r {
            Ok(acceptor) => {
                &&& acceptor.certs() == settings.certs.deep_view()
                &&& acceptor.key() == settings.key@
                &&& acceptor.alpn_protocols() == settings.alpn_protocols.deep_view()
                &&& !acceptor.requests_client_certificate()
            },
            Err(e) => e == TlsSetupError::UnsupportedPrivateKey,
        },
{
    let ghost alpn = settings.alpn_protocols.deep_view();
    match server_config_with_single_cert(settings.certs, settings.key) {
        Ok(config) => {
            let acceptor = acceptor_with_alpn(config, settings.alpn_protocols);
            assert(Seq::<Seq<u8>>::empty() + alpn =~= alpn);
            Ok(acceptor)
        },
        Err(_) => Err(TlsSetupError::UnsupportedPrivateKey),
    }
}

/// Makes the TLS acceptor from a PEM certificate file and a PEM key file. The
/// acceptor presents every certificate of the certificate file in file order
/// (none where that file is malformed), signs with the first PKCS#8 key of the
/// key file, offers `h2` then `http/1.1`, and asks no client certificate.
/// Without a PKCS#8 key it fails with `NoPrivateKey`; where rustls cannot sign
/// with that key, with `UnsupportedPrivateKey`.
pub fn tls_acceptor_impl(cert_pem: &[u8], key_pem: &[u8]) -> (r: Result<ConfiguredAcceptor, TlsSetupError>)
    ensures
        match r {
            Ok(acceptor) => {
                &&& acceptor.certs() == certificates_of(cert_pem@)
                &&& private_key_of(key_pem@) == Some(acceptor.key())
                &&& acceptor.alpn_protocols() == spec_alpn_protocols()
                &&& !acceptor.requests_client_certificate()
            },
            Err(e) => e == TlsSetupError::NoPrivateKey <==> private_key_of(key_pem@) is None,
        },
        private_key_of(key_pem@) is None ==> r == Err::<ConfiguredAcceptor, TlsSetupError>(
            TlsSetupError::NoPrivateKey,
        ),
{
    match tls_settings(cert_pem, key_pem) {
        Ok(settings) => acceptor_from_settings(settings),
        Err(e) => Err(e),
    }
}

/// Keeps a TLS connection attempt exactly when its handshake succeeded.
pub fn handle_tls_connect_error<Stream, Error>(result: &Result<Stream, Error>) -> (keep: bool)
    ensures
        keep == result is Ok,
{
    result.is_ok()
}

/// The chain read from a certificate file is everything the PEM reader finds
/// there, same length and same order; a file the reader rejects gives none.
pub proof fn lemma_certificates_are_all_found(cert_pem: Seq<u8>)
    ensures
        pem_certificates(cert_pem) matches Some(found) ==> certificates_of(cert_pem) == found,
        pem_certificates(cert_pem) is None ==> certificates_of(cert_pem).len() == 0,
{
}

/// The key read from a key file is the first PKCS#8 key the PEM reader finds;
/// there is none exactly when the reader finds no key or rejects the file.
pub proof fn lemma_key_is_first_found(key_pem: Seq<u8>)
    ensures
        forall|found: Seq<Seq<u8>>|
            pem_pkcs8_private_keys(key_pem) == Some(found) && found.len() > 0 ==> private_key_of(
                key_pem,
            ) == Some(#[trigger] found[0]),
        private_key_of(key_pem) is None <==> (pem_pkcs8_private_keys(key_pem) is None
            || pem_pkcs8_private_keys(key_pem).unwrap().len() == 0),
{
}

/// The ALPN protocols offered are exactly `h2` (`68 32`), then `http/1.1`
/// (`68 74 74 70 2f 31 2e 31`), and nothing else.
pub proof fn lemma_alpn_is_h2_then_http11()
    ensures
        spec_alpn_protocols().len() == 2,
        spec_alpn_protocols()[0] =~= seq![0x68u8, 0x32u8],
        spec_alpn_protocols()[1] =~= seq![0x68u8, 0x74u8, 0x74u8, 0x70u8, 0x2fu8, 0x31u8, 0x2eu8, 0x31u8],
{
}

} // verus!
