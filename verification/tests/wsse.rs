use base64::Engine;
use rioting::wsse::{build_auth_header, digest_input, security_header, signed_header};
use rioting::{CameraConfig, Vendor};
use sha1::Digest;

fn config(user: &str, password: &str) -> CameraConfig {
    CameraConfig {
        name: "hall".to_string(),
        ip: "10.1.1.1".to_string(),
        user: user.to_string(),
        password: password.to_string(),
        vendor: Vendor::Reolink,
        onvif_port: 8000,
    }
}

fn expected_digest(nonce: &[u8], created: &str, password: &str) -> String {
    let mut hasher = sha1::Sha1::new();
    hasher.update(nonce);
    hasher.update(created.as_bytes());
    hasher.update(password.as_bytes());
    base64::prelude::BASE64_STANDARD.encode(hasher.finalize())
}

fn between<'a>(s: &'a str, open: &str, close: &str) -> &'a str {
    let start = s.find(open).unwrap() + open.len();
    let end = start + s[start..].find(close).unwrap();
    &s[start..end]
}

#[test]
fn header_text() {
    let h = security_header("alice", "DIGEST", "NONCE", "2024-05-06T07:08:09Z");
    let expected = "\n            <wsse:Security\n              xmlns:wsse=\"http://docs.oasis-open.org/wss/2004/01/oasis-200401-wss-wssecurity-secext-1.0.xsd\"\n              xmlns:wsu=\"http://docs.oasis-open.org/wss/2004/01/oasis-200401-wss-wssecurity-utility-1.0.xsd\">\n              <wsse:UsernameToken>\n                <wsse:Username>alice</wsse:Username>\n                <wsse:Password Type=\"http://docs.oasis-open.org/wss/2004/01/oasis-200401-wss-username-token-profile-1.0#PasswordDigest\">DIGEST</wsse:Password>\n                <wsse:Nonce EncodingType=\"http://docs.oasis-open.org/wss/2004/01/oasis-200401-wss-soap-message-security-1.0#Base64Binary\">NONCE</wsse:Nonce>\n                <wsu:Created>2024-05-06T07:08:09Z</wsu:Created>\n              </wsse:UsernameToken>\n            </wsse:Security>\n            ";
    assert_eq!(h, expected);
}

#[test]
fn digest_input_concatenates() {
    assert_eq!(digest_input(&[1, 2], "ab", "c"), vec![1, 2, b'a', b'b', b'c']);
    assert_eq!(digest_input(&[], "", "ü"), vec![0xc3, 0xbc]);
}

#[test]
fn signed_header_known_values() {
    let nonce = [0u8; 16];
    let h = signed_header(&config("admin", "secret"), &nonce, "2024-01-01T00:00:00Z");
    assert_eq!(between(&h, "<wsse:Nonce EncodingType", "</wsse:Nonce>").split('>').nth(1).unwrap(), "AAAAAAAAAAAAAAAAAAAAAA==");
    let digest = between(&h, "#PasswordDigest\">", "</wsse:Password>");
    assert_eq!(digest, expected_digest(&nonce, "2024-01-01T00:00:00Z", "secret"));
    assert_eq!(digest.len(), 28);
    assert_eq!(between(&h, "<wsse:Username>", "</wsse:Username>"), "admin");
    assert_eq!(between(&h, "<wsu:Created>", "</wsu:Created>"), "2024-01-01T00:00:00Z");
}

#[test]
fn signed_header_sha1_of_empty() {
    // SHA-1 of the empty string is da39a3ee5e6b4b0d3255bfef95601890afd80709.
    let h = signed_header(&config("u", ""), &[], "");
    assert_eq!(between(&h, "#PasswordDigest\">", "</wsse:Password>"), "2jmj7l5rSw0yVb/vlWAYkK/YBwk=");
}

#[test]
fn fresh_header_is_consistent() {
    let h = build_auth_header(&config("bob", "pa55"));
    assert_eq!(between(&h, "<wsse:Username>", "</wsse:Username>"), "bob");
    let nonce_b64 = between(&h, "#Base64Binary\">", "</wsse:Nonce>");
    let nonce = base64::prelude::BASE64_STANDARD.decode(nonce_b64).unwrap();
    assert_eq!(nonce.len(), 16);
    let created = between(&h, "<wsu:Created>", "</wsu:Created>");
    assert_eq!(created.len(), 20);
    assert!(created.ends_with('Z'));
    assert_eq!(&created[10..11], "T");
    let digest = between(&h, "#PasswordDigest\">", "</wsse:Password>");
    assert_eq!(digest, expected_digest(&nonce, created, "pa55"));
    assert!(!h.contains("pa55"));
}

#[test]
fn base64_known_encodings() {
    // SHA-1 of "abc" is a9993e364706816aba3e25717850c26c9cd0d89d.
    let h = signed_header(&config("u", "c"), &[], "ab");
    assert_eq!(between(&h, "#PasswordDigest\">", "</wsse:Password>"), "qZk+NkcGgWq6PiVxeFDCbJzQ2J0=");
    for (bytes, text) in [
        (&b""[..], ""),
        (&b"f"[..], "Zg=="),
        (&b"fo"[..], "Zm8="),
        (&b"foo"[..], "Zm9v"),
        (&b"foob"[..], "Zm9vYg=="),
        (&b"fooba"[..], "Zm9vYmE="),
        (&b"foobar"[..], "Zm9vYmFy"),
        (&[0xfbu8, 0xff][..], "+/8="),
    ] {
        let h = signed_header(&config("u", "p"), bytes, "t");
        assert_eq!(between(&h, "#Base64Binary\">", "</wsse:Nonce>"), text);
    }
}

#[test]
fn fresh_header_markup_free() {
    let h = build_auth_header(&config("bob", "pa55"));
    for field in [
        between(&h, "#PasswordDigest\">", "</wsse:Password>"),
        between(&h, "#Base64Binary\">", "</wsse:Nonce>"),
        between(&h, "<wsu:Created>", "</wsu:Created>"),
    ] {
        assert!(!field.contains('<') && !field.contains('>') && !field.contains('&'));
    }
    assert_eq!(h.matches("<wsse:Security").count(), 1);
    assert_eq!(h.matches("<wsse:UsernameToken>").count(), 1);
}

#[test]
fn fresh_nonce_per_header() {
    let a = build_auth_header(&config("bob", "pa55"));
    let b = build_auth_header(&config("bob", "pa55"));
    assert_ne!(between(&a, "#Base64Binary\">", "</wsse:Nonce>"), between(&b, "#Base64Binary\">", "</wsse:Nonce>"));
}
