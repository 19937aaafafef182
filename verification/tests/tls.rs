use cohosting::tls::{
    acceptor_from_settings, alpn_protocols, handle_tls_connect_error, tls_acceptor_impl, tls_settings,
    TlsSetupError,
};
use std::sync::Arc;
use tokio_rustls::rustls;

/// The DER of a throwaway self-signed end-entity test certificate for `localhost`.
const CERT_DER: [u8; 379] = [
    0x30, 0x82, 0x01, 0x77, 0x30, 0x82, 0x01, 0x1d, 0xa0, 0x03, 0x02, 0x01,
    0x02, 0x02, 0x14, 0x24, 0x98, 0x96, 0x21, 0xd5, 0x8c, 0x09, 0x6b, 0xec,
    0x12, 0x22, 0xf5, 0x4c, 0x04, 0x1e, 0x40, 0x85, 0xa5, 0x31, 0xac, 0x30,
    0x0a, 0x06, 0x08, 0x2a, 0x86, 0x48, 0xce, 0x3d, 0x04, 0x03, 0x02, 0x30,
    0x14, 0x31, 0x12, 0x30, 0x10, 0x06, 0x03, 0x55, 0x04, 0x03, 0x0c, 0x09,
    0x6c, 0x6f, 0x63, 0x61, 0x6c, 0x68, 0x6f, 0x73, 0x74, 0x30, 0x20, 0x17,
    0x0d, 0x32, 0x30, 0x30, 0x31, 0x30, 0x31, 0x30, 0x30, 0x30, 0x30, 0x30,
    0x30, 0x5a, 0x18, 0x0f, 0x32, 0x30, 0x39, 0x39, 0x30, 0x31, 0x30, 0x31,
    0x30, 0x30, 0x30, 0x30, 0x30, 0x30, 0x5a, 0x30, 0x14, 0x31, 0x12, 0x30,
    0x10, 0x06, 0x03, 0x55, 0x04, 0x03, 0x0c, 0x09, 0x6c, 0x6f, 0x63, 0x61,
    0x6c, 0x68, 0x6f, 0x73, 0x74, 0x30, 0x59, 0x30, 0x13, 0x06, 0x07, 0x2a,
    0x86, 0x48, 0xce, 0x3d, 0x02, 0x01, 0x06, 0x08, 0x2a, 0x86, 0x48, 0xce,
    0x3d, 0x03, 0x01, 0x07, 0x03, 0x42, 0x00, 0x04, 0x44, 0x6e, 0xdd, 0x4e,
    0xf5, 0x8c, 0x59, 0xe7, 0xc0, 0x6f, 0xe9, 0x8c, 0xfe, 0xe2, 0xa5, 0x58,
    0x86, 0x16, 0x83, 0xe0, 0xa6, 0x65, 0x3f, 0x3e, 0xe8, 0x70, 0xb1, 0x35,
    0xa9, 0x0d, 0xfc, 0x05, 0xa1, 0x6f, 0x85, 0x38, 0x01, 0x4b, 0x03, 0x4f,
    0xfe, 0xde, 0x57, 0xcb, 0xd8, 0x5b, 0x87, 0x5d, 0x5c, 0x89, 0xed, 0x31,
    0x71, 0xc7, 0x80, 0xb3, 0x07, 0x53, 0x73, 0x22, 0xed, 0x77, 0x6f, 0x03,
    0xa3, 0x4b, 0x30, 0x49, 0x30, 0x14, 0x06, 0x03, 0x55, 0x1d, 0x11, 0x04,
    0x0d, 0x30, 0x0b, 0x82, 0x09, 0x6c, 0x6f, 0x63, 0x61, 0x6c, 0x68, 0x6f,
    0x73, 0x74, 0x30, 0x0c, 0x06, 0x03, 0x55, 0x1d, 0x13, 0x01, 0x01, 0xff,
    0x04, 0x02, 0x30, 0x00, 0x30, 0x0e, 0x06, 0x03, 0x55, 0x1d, 0x0f, 0x01,
    0x01, 0xff, 0x04, 0x04, 0x03, 0x02, 0x07, 0x80, 0x30, 0x13, 0x06, 0x03,
    0x55, 0x1d, 0x25, 0x04, 0x0c, 0x30, 0x0a, 0x06, 0x08, 0x2b, 0x06, 0x01,
    0x05, 0x05, 0x07, 0x03, 0x01, 0x30, 0x0a, 0x06, 0x08, 0x2a, 0x86, 0x48,
    0xce, 0x3d, 0x04, 0x03, 0x02, 0x03, 0x48, 0x00, 0x30, 0x45, 0x02, 0x20,
    0x38, 0x41, 0x51, 0x04, 0xc1, 0x61, 0x59, 0x80, 0x3f, 0xa9, 0x21, 0x84,
    0xd4, 0x6f, 0x4f, 0xc8, 0xa8, 0xbd, 0xb1, 0x07, 0xf5, 0x7e, 0x5e, 0x89,
    0xa3, 0x7f, 0x63, 0x3a, 0x0a, 0xe8, 0x15, 0xf4, 0x02, 0x21, 0x00, 0xf3,
    0x99, 0x5c, 0x9e, 0x16, 0xa2, 0x38, 0xa6, 0x16, 0x22, 0xcc, 0x1b, 0xee,
    0xeb, 0xea, 0xc8, 0x39, 0xc3, 0x46, 0x9d, 0xb3, 0xff, 0xa0, 0xb0, 0x07,
    0xe2, 0xac, 0xa1, 0xe7, 0xa4, 0x49, 0x21,
];

/// The DER (PKCS#8) of the throwaway P-256 test key that matches `CERT_DER`.
const KEY_DER: [u8; 138] = [
    0x30, 0x81, 0x87, 0x02, 0x01, 0x00, 0x30, 0x13, 0x06, 0x07, 0x2a, 0x86,
    0x48, 0xce, 0x3d, 0x02, 0x01, 0x06, 0x08, 0x2a, 0x86, 0x48, 0xce, 0x3d,
    0x03, 0x01, 0x07, 0x04, 0x6d, 0x30, 0x6b, 0x02, 0x01, 0x01, 0x04, 0x20,
    0x0e, 0x14, 0xe4, 0x43, 0xb5, 0xe9, 0x16, 0x96, 0x2d, 0xc6, 0x38, 0xa2,
    0x92, 0x33, 0xf7, 0xe2, 0xe2, 0x08, 0xaf, 0xfb, 0xc5, 0xf8, 0x14, 0x6f,
    0x94, 0x27, 0x00, 0xc6, 0x60, 0xfe, 0x91, 0x4f, 0xa1, 0x44, 0x03, 0x42,
    0x00, 0x04, 0x44, 0x6e, 0xdd, 0x4e, 0xf5, 0x8c, 0x59, 0xe7, 0xc0, 0x6f,
    0xe9, 0x8c, 0xfe, 0xe2, 0xa5, 0x58, 0x86, 0x16, 0x83, 0xe0, 0xa6, 0x65,
    0x3f, 0x3e, 0xe8, 0x70, 0xb1, 0x35, 0xa9, 0x0d, 0xfc, 0x05, 0xa1, 0x6f,
    0x85, 0x38, 0x01, 0x4b, 0x03, 0x4f, 0xfe, 0xde, 0x57, 0xcb, 0xd8, 0x5b,
    0x87, 0x5d, 0x5c, 0x89, 0xed, 0x31, 0x71, 0xc7, 0x80, 0xb3, 0x07, 0x53,
    0x73, 0x22, 0xed, 0x77, 0x6f, 0x03,
];

/// Standard base64 with padding.
fn base64(data: &[u8]) -> String {
    const ALPHABET: &[u8; 64] = b"ABCDEFGHIJKLMNOPQRSTUVWXYZabcdefghijklmnopqrstuvwxyz0123456789+/";
    let mut out = String::new();
    for chunk in data.chunks(3) {
        let b = [chunk[0], *chunk.get(1).unwrap_or(&0), *chunk.get(2).unwrap_or(&0)];
        let n = ((b[0] as u32) << 16) | ((b[1] as u32) << 8) | (b[2] as u32);
        for k in 0..4 {
            if k <= chunk.len() {
                out.push(ALPHABET[((n >> (18 - 6 * k)) & 0x3f) as usize] as char);
            } else {
                out.push('=');
            }
        }
    }
    out
}

/// A PEM section of the given label around `der`.
fn pem(label: &str, der: &[u8]) -> String {
    let body = base64(der);
    let mut text = format!("-----BEGIN {}-----\n", label);
    for line in body.as_bytes().chunks(64) {
        text.push_str(std::str::from_utf8(line).unwrap());
        text.push('\n');
    }
    text.push_str(&format!("-----END {}-----\n", label));
    text
}

fn key_label() -> String {
    ["PRIVATE", "KEY"].join(" ")
}

fn cert_pem() -> String {
    pem("CERTIFICATE", &CERT_DER)
}

fn key_pem() -> String {
    pem(&key_label(), &KEY_DER)
}

fn junk_key_pem() -> String {
    pem(&key_label(), &[0u8, 0, 0])
}

#[test]
fn test_pem_encoding_round_trips_the_certificate() {
    let settings = tls_settings(cert_pem().as_bytes(), key_pem().as_bytes()).unwrap();
    assert_eq!(pem("CERTIFICATE", &settings.certs[0]), cert_pem());
}

#[test]
fn alpn_offers_h2_then_http11() {
    assert_eq!(alpn_protocols(), vec![b"h2".to_vec(), b"http/1.1".to_vec()]);
}

#[test]
fn settings_hold_der_certificate_and_key() {
    let settings = tls_settings(cert_pem().as_bytes(), key_pem().as_bytes()).unwrap();
    assert_eq!(settings.certs.len(), 1);
    assert_eq!(settings.certs[0], CERT_DER.to_vec());
    assert_eq!(settings.key, KEY_DER.to_vec());
    assert_eq!(settings.alpn_protocols, vec![b"h2".to_vec(), b"http/1.1".to_vec()]);
}

#[test]
fn malformed_certificate_file_gives_empty_chain() {
    let settings = tls_settings(b"-----BEGIN CERTIFICATE-----\n!!!!\n-----END CERTIFICATE-----\n", key_pem().as_bytes()).unwrap();
    assert!(settings.certs.is_empty());
    let settings = tls_settings(b"no pem here", key_pem().as_bytes()).unwrap();
    assert!(settings.certs.is_empty());
}

#[test]
fn failed_handshakes_are_dropped() {
    let ok: Result<u8, &str> = Ok(1);
    let err: Result<u8, &str> = Err("handshake failed");
    assert!(handle_tls_connect_error(&ok));
    assert!(!handle_tls_connect_error(&err));
}

#[test]
fn key_file_without_key_is_refused() {
    assert_eq!(tls_settings(cert_pem().as_bytes(), cert_pem().as_bytes()).err(), Some(TlsSetupError::NoPrivateKey));
    assert_eq!(tls_settings(cert_pem().as_bytes(), b"").err(), Some(TlsSetupError::NoPrivateKey));
    assert_eq!(tls_acceptor_impl(cert_pem().as_bytes(), b"").err(), Some(TlsSetupError::NoPrivateKey));
    assert_eq!(
        tls_acceptor_impl(cert_pem().as_bytes(), cert_pem().as_bytes()).err(),
        Some(TlsSetupError::NoPrivateKey)
    );
}

#[test]
fn unsupported_key_is_refused() {
    assert_eq!(
        tls_acceptor_impl(cert_pem().as_bytes(), junk_key_pem().as_bytes()).err(),
        Some(TlsSetupError::UnsupportedPrivateKey)
    );
    let settings = tls_settings(cert_pem().as_bytes(), junk_key_pem().as_bytes()).unwrap();
    assert_eq!(settings.key, vec![0u8, 0, 0]);
    assert_eq!(acceptor_from_settings(settings).err(), Some(TlsSetupError::UnsupportedPrivateKey));
}

/// Runs a TLS handshake against the acceptor made from the test files, with a
/// client that trusts the test certificate and offers `offered`; gives the
/// protocol that the handshake settled on.
fn negotiated_protocol(offered: &[&[u8]]) -> Option<Vec<u8>> {
    let acceptor = tls_acceptor_impl(cert_pem().as_bytes(), key_pem().as_bytes())
        .ok()
        .expect("the test files make an acceptor")
        .into_acceptor();
    let mut roots = rustls::RootCertStore::empty();
    roots.add(&rustls::Certificate(CERT_DER.to_vec())).unwrap();
    let mut client = rustls::ClientConfig::builder()
        .with_safe_defaults()
        .with_root_certificates(roots)
        .with_no_client_auth();
    client.alpn_protocols = offered.iter().map(|p| p.to_vec()).collect();
    let connector = tokio_rustls::TlsConnector::from(Arc::new(client));
    let runtime = tokio::runtime::Builder::new_current_thread().enable_all().build().unwrap();
    runtime.block_on(async move {
        let (client_io, server_io) = tokio::io::duplex(16 * 1024);
        let name = rustls::ServerName::try_from("localhost").unwrap();
        let (client, server) =
            futures_util::future::join(connector.connect(name, client_io), acceptor.accept(server_io))
                .await;
        let server = server.expect("the server side of the handshake succeeds");
        client.expect("the client side of the handshake succeeds");
        server.get_ref().1.alpn_protocol().map(|p| p.to_vec())
    })
}

#[test]
fn handshake_prefers_h2() {
    assert_eq!(negotiated_protocol(&[b"h2", b"http/1.1"]), Some(b"h2".to_vec()));
    assert_eq!(negotiated_protocol(&[b"http/1.1", b"h2"]), Some(b"h2".to_vec()));
    assert_eq!(negotiated_protocol(&[b"h2"]), Some(b"h2".to_vec()));
}

#[test]
fn handshake_falls_back_to_http11() {
    assert_eq!(negotiated_protocol(&[b"http/1.1"]), Some(b"http/1.1".to_vec()));
}

#[test]
fn handshake_without_alpn_succeeds() {
    assert_eq!(negotiated_protocol(&[]), None);
}
