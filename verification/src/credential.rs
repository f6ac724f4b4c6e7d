//! The client certificate credential: acquires an access token from the
//! token endpoint by posting a signed JWT assertion, caching the result
//! until near expiry.
//!
//! The credential's own logic — scope validation, assembly of the JWT
//! header, claims, and form body, and classification of the endpoint's
//! response — is verified here.  Certificate parsing, digesting, and
//! signing are cryptographic library work and cross into the library
//! through trusted wrappers; the HTTP exchange goes through the injectable
//! transport.

use vstd::prelude::*;
use vstd::string::StrSliceExecFns;
use vstd::string::StringExecFns;
use vstd::string::StringSliceAdditionalSpecFns;
use crate::error::{Error, ErrorKind};
use crate::http::{is_success_status, status_is_success, Method, RawResponse, Request, Url};
use crate::pipeline::Transport;
use crate::token_cache::{cache_hit, AccessToken, TokenCache, REFRESH_WINDOW_SECS};

verus! {

/// The standard-alphabet, padded encoding of a byte sequence.
pub uninterp spec fn b64_of(bytes: Seq<u8>) -> Seq<char>;

/// The URL-safe-alphabet, unpadded encoding of a byte sequence.
pub uninterp spec fn b64_url_of(bytes: Seq<u8>) -> Seq<char>;

/// The 20-byte digest of a byte sequence.
pub uninterp spec fn sha1_of(bytes: Seq<u8>) -> Seq<u8>;

/// Relies on base64's standard, padded engine: the encoding depends on the
/// bytes alone, four output characters for every three input bytes.
#[verifier::external_body]
fn b64_standard_encode(bytes: &[u8]) -> (r: String)
    requires
        bytes@.len() <= 0x0FFF_FFFF,
    ensures
        r@ == b64_of(bytes@),
        r@.len() == 4 * ((bytes@.len() + 2) / 3),
{
    base64::Engine::encode(&base64::engine::general_purpose::STANDARD, bytes)
}

/// Relies on base64's URL-safe, unpadded engine: the encoding depends on
/// the bytes alone; without padding, a trailing group of one or two bytes
/// yields two or three characters.
#[verifier::external_body]
fn b64_url_encode(bytes: &[u8]) -> (r: String)
    requires
        bytes@.len() <= 0x0FFF_FFFF,
    ensures
        r@ == b64_url_of(bytes@),
        r@.len() == (bytes@.len() * 4 + 2) / 3,
{
    base64::Engine::encode(&base64::engine::general_purpose::URL_SAFE_NO_PAD, bytes)
}

/// Relies on base64's standard engine decode: it rejects text that is not
/// a canonical encoding; nothing is assumed of the decoded bytes, which
/// feed the opaque certificate parser.
#[verifier::external_body]
fn b64_standard_decode(text: &str) -> (r: Option<Vec<u8>>)
{
    match base64::Engine::decode(&base64::engine::general_purpose::STANDARD, text.as_bytes()) {
        Ok(v) => Some(v),
        Err(_) => None,
    }
}

/// Relies on openssl's hash with the SHA-1 digest: the digest depends on
/// the bytes alone and is 20 bytes long.
#[verifier::external_body]
fn sha1_digest(bytes: &[u8]) -> (r: Result<Vec<u8>, openssl::error::ErrorStack>)
    ensures
        r matches Ok(d) ==> d@ == sha1_of(bytes@) && d@.len() == 20,
{
    match openssl::hash::hash(openssl::hash::MessageDigest::sha1(), bytes) {
        Ok(digest) => Ok(digest.to_vec()),
        Err(e) => Err(e),
    }
}

/// Relies on Pkcs12::from_der: parses the DER container or reports the
/// library's error.
#[verifier::external_body]
fn pkcs12_from_der(der: &[u8]) -> (r: Result<openssl::pkcs12::Pkcs12, openssl::error::ErrorStack>)
{
    openssl::pkcs12::Pkcs12::from_der(der)
}

/// Relies on Pkcs12::parse2: decrypts the container with the passphrase or
/// reports the library's error.
#[verifier::external_body]
fn pkcs12_parse(
    container: &openssl::pkcs12::Pkcs12,
    pass: &str,
) -> (r: Result<openssl::pkcs12::ParsedPkcs12_2, openssl::error::ErrorStack>)
{
    container.parse2(pass)
}

/// Relies on the `cert` field of the parsed container.
#[verifier::external_body]
fn parsed_cert(parsed: &openssl::pkcs12::ParsedPkcs12_2) -> (r: Option<&openssl::x509::X509>)
{
    parsed.cert.as_ref()
}

/// Relies on the `pkey` field of the parsed container.
#[verifier::external_body]
fn parsed_pkey(parsed: &openssl::pkcs12::ParsedPkcs12_2) -> (r: Option<
    &openssl::pkey::PKey<openssl::pkey::Private>,
>)
{
    parsed.pkey.as_ref()
}

/// Relies on the `ca` field of the parsed container and X509Ref::to_pem:
/// each chain certificate rendered to PEM bytes, in the container's order.
#[verifier::external_body]
fn parsed_ca_pems(parsed: &openssl::pkcs12::ParsedPkcs12_2) -> (r: Option<
    Result<Vec<Vec<u8>>, openssl::error::ErrorStack>,
>)
{
    match &parsed.ca {
        None => None,
        Some(stack) => Some(stack.iter().map(|c| c.to_pem()).collect()),
    }
}

/// Relies on X509Ref::to_der: the certificate rendered to DER bytes.
#[verifier::external_body]
fn x509_to_der(cert: &openssl::x509::X509) -> (r: Result<Vec<u8>, openssl::error::ErrorStack>)
{
    cert.to_der()
}

/// Relies on X509Ref::to_pem: the certificate rendered to PEM bytes.
#[verifier::external_body]
fn x509_to_pem(cert: &openssl::x509::X509) -> (r: Result<Vec<u8>, openssl::error::ErrorStack>)
{
    cert.to_pem()
}

/// Relies on openssl's Signer with the SHA-256 digest: signs the bytes
/// with the private key.  The signature may depend on the key type's
/// randomness, so nothing is assumed of its value.
#[verifier::external_body]
fn sign_sha256(
    pkey: &openssl::pkey::PKey<openssl::pkey::Private>,
    data: &[u8],
) -> (r: Result<Vec<u8>, openssl::error::ErrorStack>)
{
    let mut signer = match openssl::sign::Signer::new(openssl::hash::MessageDigest::sha256(), pkey)
    {
        Ok(s) => s,
        Err(e) => return Err(e),
    };
    if let Err(e) = signer.update(data) {
        return Err(e);
    }
    signer.sign_to_vec()
}

/// Relies on serde_json::from_slice: parses the bytes as one JSON
/// document, or reports that they are not one.
#[verifier::external_body]
fn json_parse(bytes: &[u8]) -> (r: Option<serde_json::Value>)
{
    match serde_json::from_slice(bytes) {
        Ok(v) => Some(v),
        Err(_) => None,
    }
}

/// Relies on Value::get: the value under a key of a JSON object.
#[verifier::external_body]
fn json_get<'a>(value: &'a serde_json::Value, key: &str) -> (r: Option<&'a serde_json::Value>)
{
    value.get(key)
}

/// Relies on Value::as_str: the text of a JSON string value, owned.
#[verifier::external_body]
fn json_as_str(value: &serde_json::Value) -> (r: Option<String>)
{
    match value.as_str() {
        Some(s) => Some(s.to_owned()),
        None => None,
    }
}

/// Relies on Value::as_i64: the value of a JSON integer.
#[verifier::external_body]
fn json_as_i64(value: &serde_json::Value) -> (r: Option<i64>)
{
    value.as_i64()
}

/// Maps a cryptographic library failure to a terminal credential failure.
fn openssl_error(err: openssl::error::ErrorStack) -> (r: Error)
    ensures
        r.kind == ErrorKind::Credential,
{
    let _ = err;
    Error::credential("certificate processing failed".to_owned())
}

/// Whether a byte passes through form encoding unchanged: the ASCII
/// alphanumerics and `* - . _`.
pub open spec fn form_unchanged_byte(b: u8) -> bool {
    b == 42 || b == 45 || b == 46 || b == 95 || (48 <= b && b <= 57) || (65 <= b && b <= 90) || (97
        <= b && b <= 122)
}

/// The upper-case hexadecimal digit for a value below sixteen.
pub open spec fn upper_hex(n: u8) -> char
    recommends
        n < 16,
{
    if n < 10 {
        ((48 + n) as u8) as char
    } else {
        ((55 + n) as u8) as char
    }
}

/// One byte under form encoding: unchanged, `+` for a space, else a
/// percent escape with upper-case hexadecimal digits.
pub open spec fn form_escaped_byte(b: u8) -> Seq<char> {
    if form_unchanged_byte(b) {
        seq![b as char]
    } else if b == 32 {
        seq!['+']
    } else {
        seq!['%', upper_hex(b / 16), upper_hex(b % 16)]
    }
}

/// A byte sequence under form encoding.
pub open spec fn form_escaped(bs: Seq<u8>) -> Seq<char>
    decreases bs.len(),
{
    if bs.len() == 0 {
        Seq::empty()
    } else {
        form_escaped_byte(bs[0]) + form_escaped(bs.skip(1))
    }
}

/// Relies on form_urlencoded::byte_serialize: percent-encodes exactly as
/// `form_escaped` states — ASCII alphanumerics and `* - . _` unchanged,
/// space as `+`, every other byte as a percent escape in upper-case hex.
#[verifier::external_body]
fn form_escape(bytes: &[u8]) -> (r: String)
    ensures
        r@ == form_escaped(bytes@),
{
    url::form_urlencoded::byte_serialize(bytes).collect()
}

/// The decimal digits of a number, as ASCII bytes, most significant
/// first.
pub open spec fn dec_bytes(n: nat) -> Seq<u8>
    decreases n,
{
    if n < 10 {
        seq![(48 + n) as u8]
    } else {
        dec_bytes(n / 10).push((48 + n % 10) as u8)
    }
}

/// The decimal digits of a number, as characters.
pub open spec fn dec_chars(n: nat) -> Seq<char> {
    dec_bytes(n).map_values(|b: u8| b as char)
}

/// Every decimal digit byte is an ASCII digit.
pub proof fn lemma_dec_bytes_ascii(n: nat)
    ensures
        forall|i: int| 0 <= i < dec_bytes(n).len() ==> 48 <= #[trigger] dec_bytes(n)[i] < 58,
    decreases n,
{
    if n < 10 {
        assert(dec_bytes(n) =~= seq![(48 + n) as u8]);
    } else {
        lemma_dec_bytes_ascii(n / 10);
        assert forall|i: int| 0 <= i < dec_bytes(n).len() implies 48 <= #[trigger] dec_bytes(
            n,
        )[i] < 58 by {
            if i < dec_bytes(n / 10).len() {
                assert(dec_bytes(n)[i] == dec_bytes(n / 10)[i]);
            } else {
                assert(dec_bytes(n)[i] == (48 + n % 10) as u8);
            }
        }
    }
}

/// Relies on String::from_utf8: bytes below 128 are ASCII and decode to
/// exactly the characters with those code points.
#[verifier::external_body]
fn ascii_string(bytes: Vec<u8>) -> (r: String)
    requires
        forall|i: int| 0 <= i < bytes@.len() ==> #[trigger] bytes@[i] < 128,
    ensures
        r@ == bytes@.map_values(|b: u8| b as char),
{
    match String::from_utf8(bytes) {
        Ok(s) => s,
        Err(_) => String::new(),
    }
}

/// The decimal digit bytes of a number, most significant first.
fn dec_bytes_exec(n: u64) -> (r: Vec<u8>)
    ensures
        r@ == dec_bytes(n as nat),
    decreases n,
{
    if n < 10 {
        let digit: u8 = 48 + (n as u8);
        let mut v: Vec<u8> = Vec::new();
        v.push(digit);
        proof {
            assert(v@ =~= dec_bytes(n as nat));
        }
        v
    } else {
        let mut v = dec_bytes_exec(n / 10);
        let digit: u8 = 48 + ((n % 10) as u8);
        v.push(digit);
        v
    }
}

/// Renders a number in decimal.
pub fn u64_to_dec(n: u64) -> (r: String)
    ensures
        r@ == dec_chars(n as nat),
{
    let bytes = dec_bytes_exec(n);
    proof {
        lemma_dec_bytes_ascii(n as nat);
    }
    ascii_string(bytes)
}

/// The JWT header for a certificate thumbprint, with the encoded
/// certificate chain when it is sent along.
pub open spec fn jwt_header_chars(x5t: Seq<char>, x5c: Option<Seq<char>>) -> Seq<char> {
    match x5c {
        Some(chain) => "{\"alg\":\"RS256\",\"typ\":\"JWT\", \"x5t\":\""@ + x5t + "\", \"x5c\":["@
            + chain + "]}"@,
        None => "{\"alg\":\"RS256\",\"typ\":\"JWT\", \"x5t\":\""@ + x5t + "\"}"@,
    }
}

/// Builds the JWT header.
pub fn build_jwt_header(x5t: &str, x5c: Option<&String>) -> (r: String)
    ensures
        r@ == jwt_header_chars(
            x5t@,
            match x5c {
                Some(chain) => Some(chain@),
                None => None,
            },
        ),
{
    match x5c {
        Some(chain) => {
            let r = "{\"alg\":\"RS256\",\"typ\":\"JWT\", \"x5t\":\"".to_owned().concat(
                x5t,
            ).concat("\", \"x5c\":[").concat(chain.as_str()).concat("]}");
            proof {
                assert(r@ =~= jwt_header_chars(x5t@, Some(chain@)));
            }
            r
        },
        None => {
            let r = "{\"alg\":\"RS256\",\"typ\":\"JWT\", \"x5t\":\"".to_owned().concat(
                x5t,
            ).concat("\"}");
            proof {
                assert(r@ =~= jwt_header_chars(x5t@, None));
            }
            r
        },
    }
}

/// The JWT claims: audience, expiry, issuer, token id, not-before, and
/// subject.
pub open spec fn jwt_payload_chars(
    aud: Seq<char>,
    exp: nat,
    iss: Seq<char>,
    jti: Seq<char>,
    nbf: nat,
    sub: Seq<char>,
) -> Seq<char> {
    "{\"aud\":\""@ + aud + "\",\"exp\":"@ + dec_chars(exp) + ",\"iss\": \""@ + iss
        + "\", \"jti\": \""@ + jti + "\", \"nbf\": "@ + dec_chars(nbf) + ", \"sub\": \""@ + sub
        + "\"}"@
}

/// Builds the JWT claims.
pub fn build_jwt_payload(
    aud: &str,
    exp: u64,
    iss: &str,
    jti: &str,
    nbf: u64,
    sub: &str,
) -> (r: String)
    ensures
        r@ == jwt_payload_chars(aud@, exp as nat, iss@, jti@, nbf as nat, sub@),
{
    let exp_text = u64_to_dec(exp);
    let nbf_text = u64_to_dec(nbf);
    let r = "{\"aud\":\"".to_owned().concat(aud).concat("\",\"exp\":").concat(
        exp_text.as_str(),
    ).concat(",\"iss\": \"").concat(iss).concat("\", \"jti\": \"").concat(jti).concat(
        "\", \"nbf\": ",
    ).concat(nbf_text.as_str()).concat(", \"sub\": \"").concat(sub).concat("\"}");
    proof {
        assert(r@ =~= jwt_payload_chars(aud@, exp as nat, iss@, jti@, nbf as nat, sub@));
    }
    r
}

/// One form pair: both the name and the value percent-encoded, joined by
/// an equals sign.
pub open spec fn form_pair_chars(name: Seq<u8>, value: Seq<u8>) -> Seq<char> {
    form_escaped(name) + "="@ + form_escaped(value)
}

/// The token request's form body: the client id, the requested scope, the
/// fixed assertion type, the signed assertion, and the fixed grant type,
/// ampersand-joined.
pub open spec fn token_form_body(cid: Seq<u8>, scope: Seq<u8>, assertion: Seq<u8>) -> Seq<char> {
    form_pair_chars("client_id".spec_bytes(), cid) + "&"@ + form_pair_chars(
        "scope".spec_bytes(),
        scope,
    ) + "&"@ + form_pair_chars(
        "client_assertion_type".spec_bytes(),
        "urn:ietf:params:oauth:client-assertion-type:jwt-bearer".spec_bytes(),
    ) + "&"@ + form_pair_chars("client_assertion".spec_bytes(), assertion) + "&"@
        + form_pair_chars("grant_type".spec_bytes(), "client_credentials".spec_bytes())
}

/// Builds one form pair.
fn build_form_pair(name: &str, value: &str) -> (r: String)
    ensures
        r@ == form_pair_chars(name.spec_bytes(), value.spec_bytes()),
{
    let r = form_escape(name.as_bytes()).concat("=").concat(
        form_escape(value.as_bytes()).as_str(),
    );
    proof {
        assert(r@ =~= form_pair_chars(name.spec_bytes(), value.spec_bytes()));
    }
    r
}

/// Builds the token request's form body.
pub fn build_token_form_body(client_id: &str, scope: &str, client_assertion: &str) -> (r: String)
    ensures
        r@ == token_form_body(
            client_id.spec_bytes(),
            scope.spec_bytes(),
            client_assertion.spec_bytes(),
        ),
{
    let r = build_form_pair("client_id", client_id).concat("&").concat(
        build_form_pair("scope", scope).as_str(),
    ).concat("&").concat(
        build_form_pair(
            "client_assertion_type",
            "urn:ietf:params:oauth:client-assertion-type:jwt-bearer",
        ).as_str(),
    ).concat("&").concat(build_form_pair("client_assertion", client_assertion).as_str()).concat(
        "&",
    ).concat(build_form_pair("grant_type", "client_credentials").as_str());
    proof {
        assert(r@ =~= token_form_body(
            client_id.spec_bytes(),
            scope.spec_bytes(),
            client_assertion.spec_bytes(),
        ));
    }
    r
}

/// A byte after ASCII lower-casing.
pub open spec fn lower_byte(b: u8) -> u8 {
    if 65 <= b && b <= 90 {
        (b + 32) as u8
    } else {
        b
    }
}

/// Whether a configuration value enables a flag: the text `1`, or `true`
/// in any ASCII case.
pub open spec fn truthy_bytes(bs: Seq<u8>) -> bool {
    bs == "1".spec_bytes() || bs.map_values(|b: u8| lower_byte(b)) == "true".spec_bytes()
}

/// Whether two byte strings are equal.
fn bytes_eq(a: &[u8], b: &[u8]) -> (r: bool)
    ensures
        r == (a@ == b@),
{
    if a.len() != b.len() {
        return false;
    }
    let mut i: usize = 0;
    while i < a.len()
        invariant
            i <= a.len(),
            a@.len() == b@.len(),
            forall|j: int| 0 <= j < i ==> a@[j] == b@[j],
        decreases a.len() - i,
    {
        if a[i] != b[i] {
            return false;
        }
        i += 1;
    }
    proof {
        assert(a@ =~= b@);
    }
    true
}

/// Whether one byte string, ASCII lower-cased, equals another.
fn lowered_eq(a: &[u8], b: &[u8]) -> (r: bool)
    ensures
        r == (a@.map_values(|x: u8| lower_byte(x)) == b@),
{
    let ghost lowered = a@.map_values(|x: u8| lower_byte(x));
    if a.len() != b.len() {
        proof {
            assert(lowered.len() == a@.len());
        }
        return false;
    }
    let mut i: usize = 0;
    while i < a.len()
        invariant
            i <= a.len(),
            a@.len() == b@.len(),
            lowered == a@.map_values(|x: u8| lower_byte(x)),
            forall|j: int| 0 <= j < i ==> lowered[j] == b@[j],
        decreases a.len() - i,
    {
        let c = a[i];
        let low: u8 = if 65 <= c && c <= 90 {
            c + 32
        } else {
            c
        };
        if low != b[i] {
            proof {
                assert(lowered[i as int] != b@[i as int]);
            }
            return false;
        }
        i += 1;
    }
    proof {
        assert(lowered =~= b@);
    }
    true
}

/// Whether a configuration value enables a flag.
pub fn is_truthy(value: &str) -> (r: bool)
    ensures
        r == truthy_bytes(value.spec_bytes()),
{
    let bs = value.as_bytes();
    bytes_eq(bs, "1".as_bytes()) || lowered_eq(bs, "true".as_bytes())
}

/// Options for how authentication requests reach the authority.
#[derive(Debug)]
pub struct TokenCredentialOptions {
    /// The authority every token request is addressed to.
    pub authority_host: String,
}

impl Clone for TokenCredentialOptions {
    /// A copy with the same authority.
    fn clone(&self) -> (r: TokenCredentialOptions)
        ensures
            r.authority_host@ == self.authority_host@,
    {
        TokenCredentialOptions { authority_host: self.authority_host.clone() }
    }
}

impl Default for TokenCredentialOptions {
    /// The public authority.
    fn default() -> (r: TokenCredentialOptions)
        ensures
            r.authority_host@ == "https://login.microsoftonline.com"@,
    {
        TokenCredentialOptions { authority_host: "https://login.microsoftonline.com".to_owned() }
    }
}

impl TokenCredentialOptions {
    /// The configured authority.
    pub fn authority_host(&self) -> (r: &String)
        ensures
            r@ == self.authority_host@,
    {
        &self.authority_host
    }
}

/// Options given to one token request.  The certificate flow takes none,
/// so this carries nothing; it exists so the request signature matches the
/// credential boundary.
#[derive(Debug)]
pub struct TokenRequestOptions {}

/// Provides options to configure how the identity library makes
/// authentication requests to the authority.
#[derive(Debug)]
pub struct ClientCertificateCredentialOptions {
    /// The underlying credential options.
    pub options: TokenCredentialOptions,
    /// Whether the certificate chain is sent in the signed assertion.
    pub send_certificate_chain: bool,
}

impl Clone for ClientCertificateCredentialOptions {
    /// A copy with the same configuration.
    fn clone(&self) -> (r: ClientCertificateCredentialOptions)
        ensures
            r.options.authority_host@ == self.options.authority_host@,
            r.send_certificate_chain == self.send_certificate_chain,
    {
        ClientCertificateCredentialOptions {
            options: self.options.clone(),
            send_certificate_chain: self.send_certificate_chain,
        }
    }
}

impl Default for ClientCertificateCredentialOptions {
    /// Default credential options, without the certificate chain.
    fn default() -> (r: ClientCertificateCredentialOptions)
        ensures
            r.options.authority_host@ == "https://login.microsoftonline.com"@,
            !r.send_certificate_chain,
    {
        ClientCertificateCredentialOptions {
            options: TokenCredentialOptions::default(),
            send_certificate_chain: false,
        }
    }
}

impl ClientCertificateCredentialOptions {
    /// Create new options from credential options and the chain flag.
    pub fn new(options: TokenCredentialOptions, send_certificate_chain: bool) -> (r:
        ClientCertificateCredentialOptions)
        ensures
            r.options.authority_host@ == options.authority_host@,
            r.send_certificate_chain == send_certificate_chain,
    {
        ClientCertificateCredentialOptions { options, send_certificate_chain }
    }

    /// Options from the environment's chain flag: the flag is on exactly
    /// when the configured value is `1` or `true` in any ASCII case.
    pub fn from_options_with_env_flag(
        options: TokenCredentialOptions,
        env_value: Option<&str>,
    ) -> (r: ClientCertificateCredentialOptions)
        ensures
            r.options.authority_host@ == options.authority_host@,
            r.send_certificate_chain == match env_value {
                Some(v) => truthy_bytes(v.spec_bytes()),
                None => false,
            },
    {
        let send_certificate_chain: bool = match env_value {
            Some(v) => is_truthy(v),
            None => false,
        };
        ClientCertificateCredentialOptions { options, send_certificate_chain }
    }

    /// The underlying credential options.
    pub fn options(&self) -> (r: &TokenCredentialOptions)
        ensures
            r == &self.options,
    {
        &self.options
    }

    /// The underlying credential options, for rewriting.
    pub fn options_mut(&mut self) -> (r: &mut TokenCredentialOptions)
        ensures
            final(self).options == *final(r),
            final(self).send_certificate_chain == old(self).send_certificate_chain,
    {
        &mut self.options
    }

    /// Enable or disable sending the certificate chain.
    pub fn set_send_certificate_chain(&mut self, send_certificate_chain: bool)
        ensures
            final(self).send_certificate_chain == send_certificate_chain,
            final(self).options == old(self).options,
    {
        self.send_certificate_chain = send_certificate_chain;
    }

    /// Whether the certificate chain is sent as part of the request.
    pub fn send_certificate_chain(&self) -> (r: bool)
        ensures
            r == self.send_certificate_chain,
    {
        self.send_certificate_chain
    }
}

/// How long the signed assertion stays valid, in seconds.
pub const ASSERTION_VALIDITY_SECS: u64 = 300;

/// The upper bound this library hands any one byte string to the encoder
/// under; far beyond any value a request carries, and low enough that
/// the encoder's output length cannot overflow.
pub const ENCODE_INPUT_LIMIT: usize = 0x0FFF_FFFF;

/// The token URL under an authority: the authority, a separating slash
/// unless it already ends with one, the tenant, and the fixed token path.
pub open spec fn joined_token_url(authority: Seq<char>, tenant: Seq<char>) -> Seq<char> {
    let rest = tenant + "/oauth2/v2.0/token"@;
    if authority.len() > 0 && authority[authority.len() - 1] == '/' {
        authority + rest
    } else {
        authority + "/"@ + rest
    }
}

/// Builds the token URL under an authority.
pub fn token_url_base(authority: &str, tenant: &str) -> (r: String)
    ensures
        r@ == joined_token_url(authority@, tenant@),
{
    let n = authority.unicode_len();
    let ends_with_slash: bool = if n == 0 {
        false
    } else {
        authority.get_char(n - 1) == '/'
    };
    if ends_with_slash {
        let r = authority.to_owned().concat(tenant).concat("/oauth2/v2.0/token");
        proof {
            assert(r@ =~= joined_token_url(authority@, tenant@));
        }
        r
    } else {
        let r = authority.to_owned().concat("/").concat(tenant).concat("/oauth2/v2.0/token");
        proof {
            assert(r@ =~= joined_token_url(authority@, tenant@));
        }
        r
    }
}

/// The expiry instant of a token that lives `expires_in` seconds from
/// now: clamped to now when the endpoint reports nothing left, and to the
/// clock's maximum when the sum cannot be represented.
pub open spec fn expiry_at(now: u64, expires_in: i64) -> u64 {
    if expires_in <= 0 {
        now
    } else if now + expires_in <= u64::MAX {
        (now + expires_in) as u64
    } else {
        u64::MAX
    }
}

/// Classifies the token endpoint's answer: a non-success status is a
/// response failure carrying that status; a success whose body did not
/// yield both the token and its lifetime is a decode failure; otherwise
/// the token, expiring `expires_in` seconds from now.
pub fn interpret_token_response(
    status: u16,
    token: Option<String>,
    expires_in: Option<i64>,
    now: u64,
) -> (r: Result<AccessToken, Error>)
    ensures
        !status_is_success(status) ==> (r is Err && r->Err_0.kind == ErrorKind::HttpResponse
            && r->Err_0.status == Some(status)),
        (status_is_success(status) && (token is None || expires_in is None)) ==> (r is Err
            && r->Err_0.kind == ErrorKind::DataConversion),
        (status_is_success(status) && token is Some && expires_in is Some) ==> (r is Ok
            && r->Ok_0.token@ == token->0@ && r->Ok_0.expires_on == expiry_at(now, expires_in->0)),
{
    if !is_success_status(status) {
        return Err(
            Error::http_response(status, "the token endpoint reported a failure".to_owned()),
        );
    }
    let secret: String = match token {
        Some(t) => t,
        None => {
            return Err(
                Error::message_error(
                    ErrorKind::DataConversion,
                    "the token response held no access token".to_owned(),
                ),
            );
        },
    };
    let lifetime: i64 = match expires_in {
        Some(v) => v,
        None => {
            return Err(
                Error::message_error(
                    ErrorKind::DataConversion,
                    "the token response held no expiry".to_owned(),
                ),
            );
        },
    };
    let expires_on: u64 = if lifetime <= 0 {
        now
    } else if (lifetime as u64) <= u64::MAX - now {
        now + (lifetime as u64)
    } else {
        u64::MAX
    };
    Ok(AccessToken::new(secret, expires_on))
}

/// Enables authentication to the authority using a client certificate
/// generated for an application registration.  The certificate is
/// expected in base64-encoded PKCS#12 form.
#[derive(Debug)]
pub struct ClientCertificateCredential {
    /// The tenant the credential authenticates under.
    pub tenant_id: String,
    /// The application (client) id.
    pub client_id: String,
    /// The base64-encoded PKCS#12 certificate container; a secret.
    pub client_certificate: String,
    /// The certificate passphrase; a secret.
    pub client_certificate_pass: String,
    /// The authority token requests are addressed to.
    pub authority_host: String,
    /// Whether the certificate chain is sent in the signed assertion.
    pub send_certificate_chain: bool,
    /// The cache serving repeat requests until near expiry.
    pub cache: TokenCache,
}

impl ClientCertificateCredential {
    /// Create a new client certificate credential; the options' authority
    /// must not be empty.
    pub fn new(
        tenant_id: String,
        client_id: String,
        client_certificate: String,
        client_certificate_pass: String,
        options: ClientCertificateCredentialOptions,
    ) -> (r: Result<ClientCertificateCredential, Error>)
        ensures
            options.options.authority_host@.len() == 0 ==> (r is Err && r->Err_0.kind
                == ErrorKind::Credential),
            options.options.authority_host@.len() > 0 ==> (r is Ok && {
                let c = r->Ok_0;
                &&& c.tenant_id@ == tenant_id@
                &&& c.client_id@ == client_id@
                &&& c.client_certificate@ == client_certificate@
                &&& c.client_certificate_pass@ == client_certificate_pass@
                &&& c.authority_host@ == options.options.authority_host@
                &&& c.send_certificate_chain == options.send_certificate_chain
                &&& c.cache.entry is None
            }),
    {
        if options.options().authority_host().as_str().is_empty() {
            return Err(Error::credential("no authority host is configured".to_owned()));
        }
        let authority_host = options.options().authority_host().clone();
        Ok(
            ClientCertificateCredential {
                tenant_id,
                client_id,
                client_certificate,
                client_certificate_pass,
                authority_host,
                send_certificate_chain: options.send_certificate_chain(),
                cache: TokenCache::new(),
            },
        )
    }

    /// Relies on the signing wrapper: signs the assertion bytes with the
    /// private key.
    fn sign(jwt: &str, pkey: &openssl::pkey::PKey<openssl::pkey::Private>) -> (r: Result<
        Vec<u8>,
        openssl::error::ErrorStack,
    >)
    {
        sign_sha256(pkey, jwt.as_bytes())
    }

    /// The certificate's thumbprint: the digest of its DER rendering.
    fn get_thumbprint(cert: &openssl::x509::X509) -> (r: Result<
        Vec<u8>,
        openssl::error::ErrorStack,
    >)
        ensures
            r matches Ok(d) ==> d@.len() == 20 && (exists|der: Seq<u8>| d@ == #[trigger] sha1_of(der)),
    {
        let der = match x509_to_der(cert) {
            Ok(d) => d,
            Err(e) => {
                return Err(e);
            },
        };
        sha1_digest(der.as_slice())
    }

    /// One part of the assertion: the URL-safe, unpadded encoding of the
    /// bytes.
    pub fn as_jwt_part(part: &[u8]) -> (r: String)
        requires
            part@.len() <= 0x0FFF_FFFF,
        ensures
            r@ == b64_url_of(part@),
    {
        b64_url_encode(part)
    }

    /// Acquires a token: serves the cached one while it is fresh, else
    /// posts a newly signed assertion to the token endpoint through the
    /// injectable client and caches what it returns.  Exactly one scope
    /// must be supplied; a fetched token never expires before the request
    /// instant, and a failed fetch leaves the cached entry untouched.
    pub fn get_token<C: Transport>(
        &mut self,
        http_client: &mut C,
        scopes: &Vec<String>,
        options: Option<TokenRequestOptions>,
        now: u64,
    ) -> (r: Result<AccessToken, Error>)
        ensures
            scopes@.len() != 1 ==> (r is Err && r->Err_0.kind == ErrorKind::Credential && final(self).cache.entry == old(self).cache.entry),
            (scopes@.len() == 1 && cache_hit(old(self).cache.entry, now)) ==> (r is Ok
                && r->Ok_0.token@ == old(self).cache.entry->0.token@ && r->Ok_0.expires_on == old(self).cache.entry->0.expires_on && r->Ok_0.expires_on > now && final(self).cache.entry
                == old(self).cache.entry),
            (scopes@.len() == 1 && !cache_hit(old(self).cache.entry, now) && r is Ok) ==> (
            r->Ok_0.expires_on >= now && final(self).cache.entry is Some && final(self).cache.entry->0.token@ == r->Ok_0.token@ && final(self).cache.entry->0.expires_on
                == r->Ok_0.expires_on),
            (scopes@.len() == 1 && !cache_hit(old(self).cache.entry, now) && r is Err) ==> final(self).cache.entry == old(self).cache.entry,
    {
        let _ = options;
        if scopes.len() != 1 {
            return Err(
                Error::credential(
                    "only one scope is supported for IMDS authentication".to_owned(),
                ),
            );
        }
        match &self.cache.entry {
            Some(t) => {
                let still_valid = t.expires_on > now && t.expires_on - now > REFRESH_WINDOW_SECS;
                if still_valid {
                    return Ok(t.clone());
                }
            },
            None => {},
        }
        let scope: &String = &scopes[0];
        match self.fetch_token(http_client, scope, now) {
            Ok(token) => {
                let served = token.clone();
                self.cache.entry = Some(token);
                Ok(served)
            },
            Err(e) => Err(e),
        }
    }

    /// One full token acquisition: decode and parse the certificate,
    /// assemble and sign the assertion, post the form to the token
    /// endpoint, and classify the answer.
    fn fetch_token<C: Transport>(
        &self,
        http_client: &mut C,
        scope: &String,
        now: u64,
    ) -> (r: Result<AccessToken, Error>)
        ensures
            r is Ok ==> r->Ok_0.expires_on >= now,
    {
        let url_base = token_url_base(self.authority_host.as_str(), self.tenant_id.as_str());
        let certificate = match b64_standard_decode(self.client_certificate.as_str()) {
            Some(c) => c,
            None => {
                return Err(Error::credential("Base64 decode failed".to_owned()));
            },
        };
        let container = match pkcs12_from_der(certificate.as_slice()) {
            Ok(p) => p,
            Err(e) => {
                return Err(openssl_error(e));
            },
        };
        let parsed = match pkcs12_parse(&container, self.client_certificate_pass.as_str()) {
            Ok(p) => p,
            Err(e) => {
                return Err(openssl_error(e));
            },
        };
        let cert = match parsed_cert(&parsed) {
            Some(c) => c,
            None => {
                return Err(Error::credential("Certificate not found".to_owned()));
            },
        };
        let pkey = match parsed_pkey(&parsed) {
            Some(k) => k,
            None => {
                return Err(Error::credential("Private key not found".to_owned()));
            },
        };
        let thumbprint = match Self::get_thumbprint(cert) {
            Ok(t) => t,
            Err(e) => {
                return Err(openssl_error(e));
            },
        };
        let x5t = b64_standard_encode(thumbprint.as_slice());
        let header_json: String = if self.send_certificate_chain {
            let base_signature = match Self::encoded_cert(cert) {
                Ok(s) => s,
                Err(e) => {
                    return Err(e);
                },
            };
            let x5c: String = match parsed_ca_pems(&parsed) {
                None => base_signature,
                Some(Err(e)) => {
                    return Err(openssl_error(e));
                },
                Some(Ok(pems)) => {
                    let mut joined = base_signature;
                    let mut i: usize = 0;
                    while i < pems.len()
                        decreases pems.len() - i,
                    {
                        let pem = &pems[i];
                        if pem.len() > ENCODE_INPUT_LIMIT {
                            return Err(
                                Error::credential("certificate chain is too large".to_owned()),
                            );
                        }
                        let quoted = "\"".to_owned().concat(
                            b64_standard_encode(pem.as_slice()).as_str(),
                        ).concat("\"");
                        joined = joined.concat(",").concat(quoted.as_str());
                        i += 1;
                    }
                    joined
                },
            };
            build_jwt_header(x5t.as_str(), Some(&x5c))
        } else {
            build_jwt_header(x5t.as_str(), None)
        };
        if header_json.as_str().unicode_len() > ENCODE_INPUT_LIMIT {
            return Err(Error::credential("assertion header is too large".to_owned()));
        }
        let jti = crate::pipeline::new_request_id();
        let expiry: u64 = if now <= u64::MAX - ASSERTION_VALIDITY_SECS {
            now + ASSERTION_VALIDITY_SECS
        } else {
            u64::MAX
        };
        let payload_json = build_jwt_payload(
            url_base.as_str(),
            expiry,
            self.client_id.as_str(),
            jti.as_str(),
            now,
            self.client_id.as_str(),
        );
        let header_bytes = header_json.as_str().as_bytes_vec();
        if header_bytes.len() > ENCODE_INPUT_LIMIT {
            return Err(Error::credential("assertion header is too large".to_owned()));
        }
        let header_part = Self::as_jwt_part(header_bytes.as_slice());
        let payload_bytes = payload_json.as_str().as_bytes_vec();
        if payload_bytes.len() > ENCODE_INPUT_LIMIT {
            return Err(Error::credential("assertion claims are too large".to_owned()));
        }
        let payload_part = Self::as_jwt_part(payload_bytes.as_slice());
        let jwt = header_part.concat(".").concat(payload_part.as_str());
        let signature = match Self::sign(jwt.as_str(), pkey) {
            Ok(s) => s,
            Err(e) => {
                return Err(openssl_error(e));
            },
        };
        if signature.len() > ENCODE_INPUT_LIMIT {
            return Err(Error::credential("assertion signature is too large".to_owned()));
        }
        let sig_part = Self::as_jwt_part(signature.as_slice());
        let client_assertion = jwt.concat(".").concat(sig_part.as_str());
        let body = build_token_form_body(
            self.client_id.as_str(),
            scope.as_str(),
            client_assertion.as_str(),
        );
        let mut request = Request::new(Url::from_parts(url_base, String::new()), Method::Post);
        request.insert_header(
            "content-type".to_owned(),
            "application/x-www-form-urlencoded".to_owned(),
        );
        request.set_body(body.as_str().as_bytes_vec());
        let response = match http_client.execute(&request) {
            Ok(r) => r,
            Err(e) => {
                return Err(e);
            },
        };
        let status = response.status();
        if !is_success_status(status) {
            return interpret_token_response(status, None, None, now);
        }
        let mut token_text: Option<String> = None;
        let mut lifetime: Option<i64> = None;
        match json_parse(response.body.as_slice()) {
            Some(document) => {
                match json_get(&document, "access_token") {
                    Some(value) => {
                        token_text = json_as_str(value);
                    },
                    None => {},
                }
                match json_get(&document, "expires_in") {
                    Some(value) => {
                        lifetime = json_as_i64(value);
                    },
                    None => {},
                }
            },
            None => {},
        }
        interpret_token_response(status, token_text, lifetime, now)
    }

    /// A chain entry for the assertion header: the quoted, base64-encoded
    /// PEM rendering of the certificate.
    fn encoded_cert(cert: &openssl::x509::X509) -> (r: Result<String, Error>)
        ensures
            r matches Err(e) ==> e.kind == ErrorKind::Credential,
            r matches Ok(s) ==> exists|pem: Seq<u8>| s@ == "\""@ + #[trigger] b64_of(pem) + "\""@,
    {
        let pem = match x509_to_pem(cert) {
            Ok(p) => p,
            Err(e) => {
                return Err(openssl_error(e));
            },
        };
        if pem.len() > ENCODE_INPUT_LIMIT {
            return Err(Error::credential("certificate rendering is too large".to_owned()));
        }
        let encoded = b64_standard_encode(pem.as_slice());
        let r = "\"".to_owned().concat(encoded.as_str()).concat("\"");
        proof {
            assert(r@ =~= "\""@ + b64_of(pem@) + "\""@);
        }
        Ok(r)
    }
}

} // verus!
