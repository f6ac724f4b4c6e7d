use std::cell::Cell;

use base64::Engine;
use openssl::asn1::Asn1Time;
use openssl::hash::MessageDigest;
use openssl::nid::Nid;
use openssl::pkcs12::Pkcs12;
use openssl::pkey::{PKey, Private};
use openssl::rsa::Rsa;
use openssl::x509::{X509NameBuilder, X509};

use pipeline_core::credential::{
    build_token_form_body, interpret_token_response, token_url_base,
    ClientCertificateCredential, ClientCertificateCredentialOptions, TokenCredentialOptions,
    u64_to_dec,
};
use pipeline_core::error::{Error, ErrorKind};
use pipeline_core::http::{Headers, RawResponse, Request};
use pipeline_core::pipeline::Transport;

struct MockHttpClient<F: FnMut(&Request) -> Result<RawResponse, Error>> {
    callback: F,
}

impl<F: FnMut(&Request) -> Result<RawResponse, Error>> Transport for MockHttpClient<F> {
    fn execute(&mut self, request: &Request) -> Result<RawResponse, Error> {
        (self.callback)(request)
    }
}

fn test_identity() -> (PKey<Private>, X509) {
    let rsa = Rsa::generate(2048).expect("key generation");
    let pkey = PKey::from_rsa(rsa).expect("key wrapping");
    let mut name = X509NameBuilder::new().expect("name builder");
    name.append_entry_by_nid(Nid::COMMONNAME, "pipeline-core-test")
        .expect("common name");
    let name = name.build();
    let mut builder = X509::builder().expect("certificate builder");
    builder.set_version(2).expect("version");
    builder.set_subject_name(&name).expect("subject");
    builder.set_issuer_name(&name).expect("issuer");
    builder.set_pubkey(&pkey).expect("public key");
    builder
        .set_not_before(Asn1Time::days_from_now(0).expect("start").as_ref())
        .expect("not before");
    builder
        .set_not_after(Asn1Time::days_from_now(1).expect("end").as_ref())
        .expect("not after");
    builder.sign(&pkey, MessageDigest::sha256()).expect("sign");
    (pkey, builder.build())
}

fn encoded_pkcs12(pkey: &PKey<Private>, cert: &X509, pass: &str) -> String {
    let p12 = Pkcs12::builder()
        .name("test")
        .pkey(pkey)
        .cert(cert)
        .build2(pass)
        .expect("pkcs12");
    let der = p12.to_der().expect("der");
    base64::engine::general_purpose::STANDARD.encode(der)
}

fn test_credential(encoded: String, pass: &str) -> ClientCertificateCredential {
    ClientCertificateCredential::new(
        "tenant-1".to_string(),
        "client-1".to_string(),
        encoded,
        pass.to_string(),
        ClientCertificateCredentialOptions::default(),
    )
    .expect("credential")
}

fn assertion_from_body(body: &str) -> String {
    let start = body
        .find("client_assertion=")
        .expect("assertion pair present")
        + "client_assertion=".len();
    let rest = &body[start..];
    let end = rest.find('&').unwrap_or(rest.len());
    rest[..end].to_string()
}

#[test]
fn a_token_is_acquired_with_a_signed_assertion() {
    let (pkey, cert) = test_identity();
    let encoded = encoded_pkcs12(&pkey, &cert, "p12pass");
    let mut credential = test_credential(encoded, "p12pass");

    let expected_x5t = {
        let der = cert.to_der().expect("der");
        let digest = openssl::hash::hash(MessageDigest::sha1(), &der).expect("sha1");
        base64::engine::general_purpose::STANDARD.encode(&*digest)
    };
    let verify_key = pkey.clone();

    let requests = Cell::new(0u32);
    let mut transport = MockHttpClient {
        callback: |req: &Request| {
            requests.set(requests.get() + 1);
            assert_eq!(
                req.url.base,
                "https://login.microsoftonline.com/tenant-1/oauth2/v2.0/token"
            );
            assert_eq!(
                req.headers
                    .get(&"content-type".to_string())
                    .expect("content type")
                    .as_str(),
                "application/x-www-form-urlencoded"
            );
            let body = String::from_utf8(req.body.clone()).expect("ascii body");
            assert!(body.starts_with("client_id=client-1&scope=scope-a&client_assertion_type="));
            assert!(body.ends_with("&grant_type=client_credentials"));

            // The assertion travels unaltered: every character of a JWT
            // passes through form encoding unchanged.
            let assertion = assertion_from_body(&body);
            let parts: Vec<&str> = assertion.split('.').collect();
            assert_eq!(parts.len(), 3, "header, claims, signature");

            let header = base64::engine::general_purpose::URL_SAFE_NO_PAD
                .decode(parts[0])
                .expect("header decodes");
            let header = String::from_utf8(header).expect("header is text");
            assert!(header.contains("\"alg\":\"RS256\""));
            assert!(header.contains(&format!("\"x5t\":\"{}\"", expected_x5t)));
            assert!(!header.contains("x5c"));

            let claims = base64::engine::general_purpose::URL_SAFE_NO_PAD
                .decode(parts[1])
                .expect("claims decode");
            let claims = String::from_utf8(claims).expect("claims are text");
            assert!(claims.contains(
                "\"aud\":\"https://login.microsoftonline.com/tenant-1/oauth2/v2.0/token\""
            ));
            assert!(claims.contains("\"exp\":1300"));
            assert!(claims.contains("\"nbf\": 1000"));
            assert!(claims.contains("\"iss\": \"client-1\""));
            assert!(claims.contains("\"sub\": \"client-1\""));

            let signature = base64::engine::general_purpose::URL_SAFE_NO_PAD
                .decode(parts[2])
                .expect("signature decodes");
            let signed = format!("{}.{}", parts[0], parts[1]);
            let mut verifier =
                openssl::sign::Verifier::new(MessageDigest::sha256(), &verify_key)
                    .expect("verifier");
            verifier.update(signed.as_bytes()).expect("data");
            assert!(
                verifier.verify(&signature).expect("verification ran"),
                "the assertion is signed by the certificate's key"
            );

            let json = "{\"access_token\":\"tok-1\",\"expires_in\":3600}";
            Ok(RawResponse::from_bytes(
                200,
                Headers::new(),
                json.as_bytes().to_vec(),
            ))
        },
    };

    let scopes = vec!["scope-a".to_string()];
    let token = credential
        .get_token(&mut transport, &scopes, None, 1_000)
        .expect("token");
    assert_eq!(token.token, "tok-1");
    assert_eq!(token.expires_on, 4_600);
    assert_eq!(requests.get(), 1);

    // A second request within the refresh window is served from the cache.
    let token = credential
        .get_token(&mut transport, &scopes, None, 1_001)
        .expect("cached token");
    assert_eq!(token.token, "tok-1");
    assert_eq!(requests.get(), 1);
}

#[test]
fn the_certificate_chain_is_sent_when_enabled() {
    let (pkey, cert) = test_identity();
    let encoded = encoded_pkcs12(&pkey, &cert, "p12pass");
    let options = ClientCertificateCredentialOptions::new(TokenCredentialOptions::default(), true);
    let mut credential = ClientCertificateCredential::new(
        "tenant-1".to_string(),
        "client-1".to_string(),
        encoded,
        "p12pass".to_string(),
        options,
    )
    .expect("credential");

    let expected_entry = {
        let pem = cert.to_pem().expect("pem");
        base64::engine::general_purpose::STANDARD.encode(pem)
    };

    let mut transport = MockHttpClient {
        callback: |req: &Request| {
            let body = String::from_utf8(req.body.clone()).expect("ascii body");
            let assertion = assertion_from_body(&body);
            let parts: Vec<&str> = assertion.split('.').collect();
            let header = base64::engine::general_purpose::URL_SAFE_NO_PAD
                .decode(parts[0])
                .expect("header decodes");
            let header = String::from_utf8(header).expect("header is text");
            assert!(
                header.contains(&format!("\"x5c\":[\"{}\"]", expected_entry)),
                "the chain carries the certificate's own encoding"
            );
            let json = "{\"access_token\":\"tok-2\",\"expires_in\":60}";
            Ok(RawResponse::from_bytes(
                200,
                Headers::new(),
                json.as_bytes().to_vec(),
            ))
        },
    };

    let scopes = vec!["scope-a".to_string()];
    let token = credential
        .get_token(&mut transport, &scopes, None, 0)
        .expect("token");
    assert_eq!(token.token, "tok-2");
}

#[test]
fn a_failing_endpoint_status_is_surfaced_with_the_status() {
    let (pkey, cert) = test_identity();
    let encoded = encoded_pkcs12(&pkey, &cert, "p12pass");
    let mut credential = test_credential(encoded, "p12pass");

    let mut transport = MockHttpClient {
        callback: |_req: &Request| {
            Ok(RawResponse::from_bytes(
                401,
                Headers::new(),
                b"denied".to_vec(),
            ))
        },
    };
    let scopes = vec!["scope-a".to_string()];
    let err = credential
        .get_token(&mut transport, &scopes, None, 1_000)
        .expect_err("endpoint refused");
    assert_eq!(err.kind, ErrorKind::HttpResponse);
    assert_eq!(err.status, Some(401));
    assert!(credential.cache.entry.is_none());
}

#[test]
fn a_wrong_passphrase_is_a_credential_failure() {
    let (pkey, cert) = test_identity();
    let encoded = encoded_pkcs12(&pkey, &cert, "right");
    let mut credential = test_credential(encoded, "wrong");
    let mut transport = MockHttpClient {
        callback: |_req: &Request| panic!("no request should be sent"),
    };
    let scopes = vec!["scope-a".to_string()];
    let err = credential
        .get_token(&mut transport, &scopes, None, 1_000)
        .expect_err("passphrase is wrong");
    assert_eq!(err.kind, ErrorKind::Credential);
}

#[test]
fn an_undecodable_certificate_is_a_credential_failure() {
    let mut credential = test_credential("!!not-base64!!".to_string(), "pass");
    let mut transport = MockHttpClient {
        callback: |_req: &Request| panic!("no request should be sent"),
    };
    let scopes = vec!["scope-a".to_string()];
    let err = credential
        .get_token(&mut transport, &scopes, None, 1_000)
        .expect_err("certificate is not base64");
    assert_eq!(err.kind, ErrorKind::Credential);
    assert_eq!(err.message, "Base64 decode failed");
}

#[test]
fn scope_cardinality_is_validated() {
    let (pkey, cert) = test_identity();
    let encoded = encoded_pkcs12(&pkey, &cert, "p");
    let mut credential = test_credential(encoded, "p");
    let mut transport = MockHttpClient {
        callback: |_req: &Request| panic!("no request should be sent"),
    };
    let scopes = vec!["a".to_string(), "b".to_string()];
    let err = credential
        .get_token(&mut transport, &scopes, None, 0)
        .expect_err("two scopes are rejected");
    assert_eq!(err.kind, ErrorKind::Credential);
    assert_eq!(
        err.message,
        "only one scope is supported for IMDS authentication"
    );
}

#[test]
fn an_empty_authority_is_rejected_at_construction() {
    let options = ClientCertificateCredentialOptions::new(
        TokenCredentialOptions {
            authority_host: String::new(),
        },
        false,
    );
    let err = ClientCertificateCredential::new(
        "t".to_string(),
        "c".to_string(),
        "cert".to_string(),
        "pass".to_string(),
        options,
    )
    .expect_err("no authority");
    assert_eq!(err.kind, ErrorKind::Credential);
}

#[test]
fn jwt_parts_are_base64_url_without_padding() {
    assert_eq!(ClientCertificateCredential::as_jwt_part(b"abc"), "YWJj");
    assert_eq!(ClientCertificateCredential::as_jwt_part(b"ab"), "YWI");
    assert_eq!(ClientCertificateCredential::as_jwt_part(b""), "");
    // 0xfb 0xff forces characters outside the standard alphabet: the
    // URL-safe alphabet uses - and _ instead of + and /.
    assert_eq!(ClientCertificateCredential::as_jwt_part(&[0xfb, 0xef]), "--8");
}

#[test]
fn the_form_body_is_percent_encoded() {
    let body = build_token_form_body("client 1", "sc&ope", "a.b=c");
    assert_eq!(
        body,
        "client_id=client+1&scope=sc%26ope&client_assertion_type=\
         urn%3Aietf%3Aparams%3Aoauth%3Aclient-assertion-type%3Ajwt-bearer&\
         client_assertion=a.b%3Dc&grant_type=client_credentials"
    );
}

#[test]
fn the_token_url_joins_authority_tenant_and_path() {
    assert_eq!(
        token_url_base("https://login.microsoftonline.com", "t1"),
        "https://login.microsoftonline.com/t1/oauth2/v2.0/token"
    );
    assert_eq!(
        token_url_base("https://login.example/", "t2"),
        "https://login.example/t2/oauth2/v2.0/token"
    );
}

#[test]
fn decimal_rendering_is_exact() {
    assert_eq!(u64_to_dec(0), "0");
    assert_eq!(u64_to_dec(7), "7");
    assert_eq!(u64_to_dec(1234567890), "1234567890");
    assert_eq!(u64_to_dec(u64::MAX), "18446744073709551615");
}

#[test]
fn token_responses_are_classified_exactly() {
    let err = interpret_token_response(503, None, None, 10).expect_err("failure status");
    assert_eq!(err.kind, ErrorKind::HttpResponse);
    assert_eq!(err.status, Some(503));

    let err = interpret_token_response(200, None, Some(60), 10).expect_err("no token");
    assert_eq!(err.kind, ErrorKind::DataConversion);

    let err =
        interpret_token_response(200, Some("t".to_string()), None, 10).expect_err("no expiry");
    assert_eq!(err.kind, ErrorKind::DataConversion);

    let token =
        interpret_token_response(204, Some("t".to_string()), Some(60), 10).expect("success");
    assert_eq!(token.token, "t");
    assert_eq!(token.expires_on, 70);

    let token = interpret_token_response(200, Some("t".to_string()), Some(-5), 10)
        .expect("expired on arrival");
    assert_eq!(token.expires_on, 10);
}

#[test]
fn options_expose_and_rewrite_their_parts() {
    let mut options = ClientCertificateCredentialOptions::new(
        TokenCredentialOptions {
            authority_host: "https://login.example".to_string(),
        },
        true,
    );
    assert!(options.send_certificate_chain());
    assert_eq!(options.options().authority_host(), "https://login.example");
    options.set_send_certificate_chain(false);
    assert!(!options.send_certificate_chain());
    options.options_mut().authority_host = "https://other.example".to_string();
    assert_eq!(options.options().authority_host(), "https://other.example");

    let defaults = ClientCertificateCredentialOptions::default();
    assert!(!defaults.send_certificate_chain());
    assert_eq!(
        defaults.options().authority_host(),
        "https://login.microsoftonline.com"
    );
}

#[test]
fn the_environment_flag_enables_the_chain() {
    for enabled in ["1", "true", "TRUE", "True", "tRuE"] {
        let options = ClientCertificateCredentialOptions::from_options_with_env_flag(
            TokenCredentialOptions::default(),
            Some(enabled),
        );
        assert!(options.send_certificate_chain(), "{} enables", enabled);
    }
    for disabled in ["0", "false", "yes", "", " true"] {
        let options = ClientCertificateCredentialOptions::from_options_with_env_flag(
            TokenCredentialOptions::default(),
            Some(disabled),
        );
        assert!(!options.send_certificate_chain(), "{} disables", disabled);
    }
    let options = ClientCertificateCredentialOptions::from_options_with_env_flag(
        TokenCredentialOptions::default(),
        None,
    );
    assert!(!options.send_certificate_chain());
}
