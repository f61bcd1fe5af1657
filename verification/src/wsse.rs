//! The WS-Security `UsernameToken` header that authenticates every ONVIF request:
//! the password travels only as `Base64(SHA-1(nonce + created + password))`.

use base64::Engine;
use sha1::Digest;
use vstd::prelude::*;
use vstd::utf8::encode_utf8;

use crate::config::CameraConfig;
use crate::encoding::{base64_standard, lemma_base64_injective, lemma_base64_shape};
use crate::fresh::{random_nonce, utc_now_text, ClockTime, FreshNonce};

verus! {

/// The `strftime` pattern of the header's creation time.
pub const CREATED_FORMAT: &'static str = "%Y-%m-%dT%H:%M:%SZ";

/// Header text up to the user name.
pub const SECURITY_OPEN: &'static str = "\n            <wsse:Security\n              xmlns:wsse=\"http://docs.oasis-open.org/wss/2004/01/oasis-200401-wss-wssecurity-secext-1.0.xsd\"\n              xmlns:wsu=\"http://docs.oasis-open.org/wss/2004/01/oasis-200401-wss-wssecurity-utility-1.0.xsd\">\n              <wsse:UsernameToken>\n                <wsse:Username>";

/// Header text between the user name and the password digest.
pub const SECURITY_BEFORE_DIGEST: &'static str = "</wsse:Username>\n                <wsse:Password Type=\"http://docs.oasis-open.org/wss/2004/01/oasis-200401-wss-username-token-profile-1.0#PasswordDigest\">";

/// Header text between the password digest and the nonce.
pub const SECURITY_BEFORE_NONCE: &'static str = "</wsse:Password>\n                <wsse:Nonce EncodingType=\"http://docs.oasis-open.org/wss/2004/01/oasis-200401-wss-soap-message-security-1.0#Base64Binary\">";

/// Header text between the nonce and the creation time.
pub const SECURITY_BEFORE_CREATED: &'static str = "</wsse:Nonce>\n                <wsu:Created>";

/// Header text after the creation time.
pub const SECURITY_CLOSE: &'static str = "</wsu:Created>\n              </wsse:UsernameToken>\n            </wsse:Security>\n            ";

/// The SHA-1 digest of a byte string, as the `sha1` crate computes it.
pub uninterp spec fn sha1(data: Seq<u8>) -> Seq<u8>;

/// The character is an ASCII digit.
pub open spec fn is_digit(c: char) -> bool {
    '0' <= c <= '9'
}

/// The text is `YYYY-MM-DDThh:mm:ssZ` as `chrono` writes `%Y-%m-%dT%H:%M:%SZ`:
/// four-digit years, or `+` and more digits past 9999, then two digits each for
/// month, day, hour, minute and second, with the separators `-`, `-`, `T`, `:`, `:`
/// and a final `Z`.
pub open spec fn is_utc_created(s: Seq<char>) -> bool {
    let n = s.len() as int;
    let year = s.subrange(0, n - 16);
    &&& n >= 20
    &&& (year.len() == 4 && forall|i: int| 0 <= i < 4 ==> is_digit(#[trigger] year[i]))
        || (year.len() >= 6 && year[0] == '+' && forall|i: int|
        1 <= i < year.len() ==> is_digit(#[trigger] year[i]))
    &&& s[n - 16] == '-' && is_digit(s[n - 15]) && is_digit(s[n - 14])
    &&& s[n - 13] == '-' && is_digit(s[n - 12]) && is_digit(s[n - 11])
    &&& s[n - 10] == 'T' && is_digit(s[n - 9]) && is_digit(s[n - 8])
    &&& s[n - 7] == ':' && is_digit(s[n - 6]) && is_digit(s[n - 5])
    &&& s[n - 4] == ':' && is_digit(s[n - 3]) && is_digit(s[n - 2])
    &&& s[n - 1] == 'Z'
}

/// The text holds none of the characters that open markup or an entity in XML.
pub open spec fn markup_free(s: Seq<char>) -> bool {
    forall|i: int| 0 <= i < s.len() ==> #[trigger] s[i] != '<' && s[i] != '>' && s[i] != '&'
}

/// The security header around the given user name, password digest, Base64 nonce
/// and creation time.
pub open spec fn security_header_text(
    user: Seq<char>,
    digest: Seq<char>,
    nonce: Seq<char>,
    created: Seq<char>,
) -> Seq<char> {
    SECURITY_OPEN@ + user + SECURITY_BEFORE_DIGEST@ + digest + SECURITY_BEFORE_NONCE@ + nonce
        + SECURITY_BEFORE_CREATED@ + created + SECURITY_CLOSE@
}

/// The bytes that are hashed: the raw nonce, then the UTF-8 of the creation time,
/// then the UTF-8 of the password.
pub open spec fn digest_input_bytes(nonce: Seq<u8>, created: Seq<char>, password: Seq<char>) -> Seq<u8> {
    nonce + encode_utf8(created) + encode_utf8(password)
}

/// `Base64(SHA-1(nonce + created + password))`.
pub open spec fn password_digest(nonce: Seq<u8>, created: Seq<char>, password: Seq<char>) -> Seq<char> {
    base64_standard(sha1(digest_input_bytes(nonce, created, password)))
}

/// The complete header for a user and password, signed with the given raw nonce and
/// creation time.
pub open spec fn signed_security_header(
    user: Seq<char>,
    password: Seq<char>,
    nonce: Seq<u8>,
    created: Seq<char>,
) -> Seq<char> {
    security_header_text(user, password_digest(nonce, created, password), base64_standard(nonce), created)
}

proof fn lemma_utc_created_markup_free(s: Seq<char>)
    requires
        is_utc_created(s),
    ensures
        markup_free(s),
{
    let n = s.len() as int;
    let year = s.subrange(0, n - 16);
    assert forall|i: int| 0 <= i < s.len() implies #[trigger] s[i] != '<' && s[i] != '>' && s[i] != '&' by {
        if i < n - 16 {
            assert(s[i] == year[i]);
        }
    }
}

proof fn lemma_base64_markup_free(data: Seq<u8>)
    ensures
        markup_free(base64_standard(data)),
{
    lemma_base64_shape(data);
    let s = base64_standard(data);
    assert forall|i: int| 0 <= i < s.len() implies #[trigger] s[i] != '<' && s[i] != '>' && s[i] != '&' by {
        assert(crate::encoding::is_base64_char(s[i]));
    }
}

/// The texts that the header carries besides the user name hold no markup: the
/// digest and the nonce are Base64 and the creation time is a UTC timestamp. So
/// for a user name free of `<`, `>` and `&` the header has exactly the element
/// structure of its fixed text, and the password appears in it only as the digest.
pub proof fn lemma_signed_header_fields_markup_free(
    nonce: Seq<u8>,
    created: Seq<char>,
    password: Seq<char>,
)
    requires
        is_utc_created(created),
    ensures
        markup_free(password_digest(nonce, created, password)),
        markup_free(base64_standard(nonce)),
        markup_free(created),
{
    lemma_base64_markup_free(sha1(digest_input_bytes(nonce, created, password)));
    lemma_base64_markup_free(nonce);
    lemma_utc_created_markup_free(created);
}

/// Calls `<sha1::Sha1 as Digest>::digest`, which hashes the bytes as one `update`
/// followed by `finalize`. Claimed: the digest is a function of the bytes, named
/// `sha1`, and is 20 bytes long (SHA-1 yields 160 bits).
#[verifier::external_body]
fn sha1_digest(data: &[u8]) -> (r: Vec<u8>)
    ensures
        r@ == sha1(data@),
        r@.len() == 20,
{
    sha1::Sha1::digest(data).to_vec()
}

/// Calls `base64::prelude::BASE64_STANDARD.encode`. Claimed: the text is the standard
/// Base64 encoding with padding, `base64_standard`.
#[verifier::external_body]
fn base64_encode(data: &[u8]) -> (r: String)
    ensures
        r@ == base64_standard(data@),
{
    base64::prelude::BASE64_STANDARD.encode(data)
}

fn append_bytes(v: &mut Vec<u8>, bytes: &[u8])
    ensures
        final(v)@ == old(v)@ + bytes@,
{
    let n = bytes.len();
    for i in 0..n
        invariant
            n == bytes@.len(),
            v@ == old(v)@ + bytes@.take(i as int),
    {
        v.push(bytes[i]);
        assert(bytes@.take(i + 1) =~= bytes@.take(i as int).push(bytes@[i as int]));
    }
    assert(bytes@.take(n as int) =~= bytes@);
}

/// The bytes to hash for a nonce, a creation time and a password.
pub fn digest_input(nonce: &[u8], created: &str, password: &str) -> (r: Vec<u8>)
    ensures
        r@ == digest_input_bytes(nonce@, created@, password@),
{
    let mut v: Vec<u8> = Vec::new();
    append_bytes(&mut v, nonce);
    append_bytes(&mut v, created.as_bytes());
    append_bytes(&mut v, password.as_bytes());
    assert(v@ =~= digest_input_bytes(nonce@, created@, password@));
    v
}

/// Writes the security header around the given user name, password digest, Base64
/// nonce and creation time, each inserted as it is.
pub fn security_header(user: &str, digest: &str, nonce: &str, created: &str) -> (r: String)
    ensures
        r@ == security_header_text(user@, digest@, nonce@, created@),
{
    let mut s = String::new();
    s.append(SECURITY_OPEN);
    s.append(user);
    s.append(SECURITY_BEFORE_DIGEST);
    s.append(digest);
    s.append(SECURITY_BEFORE_NONCE);
    s.append(nonce);
    s.append(SECURITY_BEFORE_CREATED);
    s.append(created);
    s.append(SECURITY_CLOSE);
    assert(s@ =~= security_header_text(user@, digest@, nonce@, created@));
    s
}

/// The header for the camera's user, signed with the given raw nonce and creation
/// time: the digest is `Base64(SHA-1(nonce + created + password))` and the nonce is
/// sent Base64-encoded.
pub fn signed_header(camera_config: &CameraConfig, nonce: &[u8], created: &str) -> (r: String)
    ensures
        r@ == signed_security_header(camera_config.user@, camera_config.password@, nonce@, created@),
        sha1(digest_input_bytes(nonce@, created@, camera_config.password@)).len() == 20,
        password_digest(nonce@, created@, camera_config.password@).len() == 28,
{
    let input = digest_input(nonce, created, camera_config.password.as_str());
    let hash = sha1_digest(input.as_slice());
    proof {
        lemma_base64_shape(hash@);
    }
    let digest = base64_encode(hash.as_slice());
    let nonce_base64 = base64_encode(nonce);
    security_header(camera_config.user.as_str(), digest.as_str(), nonce_base64.as_str(), created)
}

/// The header for the camera's user, signed with a nonce drawn from the random
/// generator during the call and the UTC time read from the clock during the call
/// (`YYYY-MM-DDThh:mm:ssZ`): whatever the generator and the clock gave, the header
/// is signed with exactly those. The SHA-1 digest is 20 bytes, so its Base64 text is
/// 28 characters.
pub fn build_auth_header(camera_config: &CameraConfig) -> (r: String)
    ensures
        exists|nonce: FreshNonce, created: ClockTime|
            signed_with(r@, camera_config.user@, camera_config.password@, nonce, created),
{
    let raw_nonce = random_nonce();
    let created_at = utc_now_text(CREATED_FORMAT);
    let header = signed_header(camera_config, raw_nonce.as_slice(), created_at.as_str());
    assert(signed_with(header@, camera_config.user@, camera_config.password@, raw_nonce, created_at));
    header
}

/// `header` is the security header of the user, signed with the drawn nonce and the
/// clock reading: the nonce is 16 bytes, the time has the UTC timestamp shape, the
/// SHA-1 digest is 20 bytes and its Base64 text 28 characters.
pub open spec fn signed_with(
    header: Seq<char>,
    user: Seq<char>,
    password: Seq<char>,
    nonce: FreshNonce,
    created: ClockTime,
) -> bool {
    &&& nonce.bytes().len() == 16
    &&& is_utc_created(created.text())
    &&& sha1(digest_input_bytes(nonce.bytes(), created.text(), password)).len() == 20
    &&& password_digest(nonce.bytes(), created.text(), password).len() == 28
    &&& header == signed_security_header(user, password, nonce.bytes(), created.text())
}

/// A header fixes what it was signed with: equal headers of a user and password,
/// signed with nonces of one length and 20-byte digests, carry the same nonce and
/// the same creation time.
pub proof fn lemma_header_determines_signing(
    user: Seq<char>,
    password: Seq<char>,
    n1: Seq<u8>,
    c1: Seq<char>,
    n2: Seq<u8>,
    c2: Seq<char>,
)
    requires
        n1.len() == n2.len(),
        sha1(digest_input_bytes(n1, c1, password)).len() == 20,
        sha1(digest_input_bytes(n2, c2, password)).len() == 20,
        signed_security_header(user, password, n1, c1) == signed_security_header(user, password, n2, c2),
    ensures
        n1 == n2,
        c1 == c2,
{
    let h = signed_security_header(user, password, n1, c1);
    let p = SECURITY_OPEN@ + user + SECURITY_BEFORE_DIGEST@;
    let d1 = password_digest(n1, c1, password);
    let d2 = password_digest(n2, c2, password);
    let e1 = base64_standard(n1);
    let e2 = base64_standard(n2);
    lemma_base64_shape(sha1(digest_input_bytes(n1, c1, password)));
    lemma_base64_shape(sha1(digest_input_bytes(n2, c2, password)));
    lemma_base64_shape(n1);
    lemma_base64_shape(n2);
    assert(d1.len() == 28 && d2.len() == 28 && e1.len() == e2.len());
    let h1 = p + d1 + SECURITY_BEFORE_NONCE@ + e1 + SECURITY_BEFORE_CREATED@ + c1 + SECURITY_CLOSE@;
    let h2 = p + d2 + SECURITY_BEFORE_NONCE@ + e2 + SECURITY_BEFORE_CREATED@ + c2 + SECURITY_CLOSE@;
    assert(h =~= h1);
    assert(h =~= h2);
    let k: int = p.len() + 28int + SECURITY_BEFORE_NONCE@.len();
    assert(h1.subrange(k, k + e1.len()) =~= e1);
    assert(h2.subrange(k, k + e2.len()) =~= e2);
    lemma_base64_injective(n1, n2);
    let m: int = k + e1.len() + SECURITY_BEFORE_CREATED@.len();
    assert(h1.subrange(m, h.len() - SECURITY_CLOSE@.len()) =~= c1);
    assert(h2.subrange(m, h.len() - SECURITY_CLOSE@.len()) =~= c2);
}

/// Two headers signed for the same user and password are equal only where the
/// generator drew the same nonce and the clock gave the same reading: a header
/// built from a fresh draw or a later reading is a different header.
pub proof fn lemma_signed_with_determines(
    header: Seq<char>,
    user: Seq<char>,
    password: Seq<char>,
    n1: FreshNonce,
    c1: ClockTime,
    n2: FreshNonce,
    c2: ClockTime,
)
    requires
        signed_with(header, user, password, n1, c1),
        signed_with(header, user, password, n2, c2),
    ensures
        n1.bytes() == n2.bytes(),
        c1.text() == c2.text(),
{
    lemma_header_determines_signing(user, password, n1.bytes(), c1.text(), n2.bytes(), c2.text());
}

} // verus!
