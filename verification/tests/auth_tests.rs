use kraken_auth::api::{FormData, Kraken, KrakenResponse};
use kraken_auth::crypto::{get_inner_sign, get_sign, sign, u64_to_string};
use kraken_auth::error::TokenError;

const DOC_SECRET: &str =
    "kQH5HW/8p1uGOVjbgWA7FunAmGO8lsSUXNsu3eow76sz84Q18fWxnyRzBHCd3pd5nE9qa99HAZtuZuj6F1huXg==";
const TOKEN_PATH: &str = "/0/private/GetWebSocketsToken";
const FIXED_NONCE: u64 = 1616492376594;
const FIXED_BODY: &str = "nonce=1616492376594&otp=123456";

#[test]
fn golden_vector_token_path() {
    let s = sign(TOKEN_PATH, FIXED_BODY.to_string(), FIXED_NONCE, DOC_SECRET).unwrap();
    assert_eq!(
        s,
        "Ar/xaIFCxoB9vYgmMdFa96Q4kobeliKYcsJVL0e/9WCP8p+91eHqwusA7xAg4PaDXeGRBOWqOD4e7jxeWmvvDQ=="
    );
}

#[test]
fn golden_vector_published_add_order() {
    let body = "nonce=1616492376594&ordertype=limit&pair=XBTUSD&price=37500&type=buy&volume=1.25";
    let s = sign("/0/private/AddOrder", body.to_string(), FIXED_NONCE, DOC_SECRET).unwrap();
    assert_eq!(
        s,
        "4/dpxb3iT4tp/ZCVEwSnEsLxx0bqyhLpdfOpc6fn7OR8+UClSV5n9E6aSS8MPtnRfp32bAb0nmbRn6H8ndwLUQ=="
    );
}

#[test]
fn sign_is_deterministic() {
    let a = sign(TOKEN_PATH, FIXED_BODY.to_string(), FIXED_NONCE, DOC_SECRET).unwrap();
    let b = sign(TOKEN_PATH, FIXED_BODY.to_string(), FIXED_NONCE, DOC_SECRET).unwrap();
    assert_eq!(a, b);
}

#[test]
fn sign_sensitive_to_path() {
    let a = sign(TOKEN_PATH, FIXED_BODY.to_string(), FIXED_NONCE, DOC_SECRET).unwrap();
    let b = sign("/0/private/GetWebSocketstoken", FIXED_BODY.to_string(), FIXED_NONCE, DOC_SECRET)
        .unwrap();
    assert_ne!(a, b);
}

#[test]
fn sign_sensitive_to_body() {
    let a = sign(TOKEN_PATH, FIXED_BODY.to_string(), FIXED_NONCE, DOC_SECRET).unwrap();
    let b = sign(TOKEN_PATH, "nonce=1616492376594&otp=123457".to_string(), FIXED_NONCE, DOC_SECRET)
        .unwrap();
    assert_ne!(a, b);
}

#[test]
fn sign_sensitive_to_nonce() {
    let a = sign(TOKEN_PATH, FIXED_BODY.to_string(), FIXED_NONCE, DOC_SECRET).unwrap();
    let b = sign(TOKEN_PATH, FIXED_BODY.to_string(), FIXED_NONCE + 1, DOC_SECRET).unwrap();
    assert_ne!(a, b);
}

#[test]
fn sign_sensitive_to_key_bit() {
    // "YWJjZGVmZ2g=" decodes to "abcdefgh"; "YWJjZGVmZ2k=" to "abcdefgi":
    // the decoded keys differ in one bit of the last byte.
    let a = sign(TOKEN_PATH, FIXED_BODY.to_string(), FIXED_NONCE, "YWJjZGVmZ2g=").unwrap();
    let b = sign(TOKEN_PATH, FIXED_BODY.to_string(), FIXED_NONCE, "YWJjZGVmZ2k=").unwrap();
    assert_ne!(a, b);
}

#[test]
fn signature_base64_round_trips() {
    let s = sign(TOKEN_PATH, FIXED_BODY.to_string(), FIXED_NONCE, DOC_SECRET).unwrap();
    let decoded = base64::decode(&s).unwrap();
    assert_eq!(base64::encode(&decoded), s);
    assert_eq!(decoded.len(), 64);
}

#[test]
fn inner_sign_is_path_then_digest() {
    let inner = get_inner_sign(TOKEN_PATH, FIXED_BODY.to_string(), FIXED_NONCE).unwrap();
    let message: Vec<u8> = format!("{}{}", FIXED_NONCE, FIXED_BODY).into_bytes();
    let digest = <sha2::Sha256 as sha2::Digest>::digest(&message);
    let mut expected: Vec<u8> = TOKEN_PATH.as_bytes().to_vec();
    expected.extend_from_slice(&digest);
    assert_eq!(inner, expected);
}

#[test]
fn get_sign_rejects_bad_base64_key() {
    let r = get_sign("!!!not-base64!!!", vec![1, 2, 3]);
    assert!(matches!(r, Err(TokenError::Encoding)));
}

#[test]
fn get_sign_rejects_empty_key() {
    let r = get_sign("", vec![1, 2, 3]);
    assert!(matches!(r, Err(TokenError::Key)));
}

#[test]
fn decimal_rendering_matches() {
    assert_eq!(u64_to_string(0), "0");
    assert_eq!(u64_to_string(7), "7");
    assert_eq!(u64_to_string(1616492376594), "1616492376594");
    assert_eq!(u64_to_string(u64::MAX), "18446744073709551615");
}

#[test]
fn body_encoding_is_canonical_form() {
    let body = Kraken::encode_body(&FormData { nonce: FIXED_NONCE, otp: "123456".to_string() })
        .unwrap();
    assert_eq!(body, FIXED_BODY);
}

#[test]
fn response_with_result_only_is_success() {
    let resp = KrakenResponse { result: Some("abc".to_string()), error: None };
    assert_eq!(resp.to_result().unwrap(), "abc");
}

#[test]
fn response_with_error_only_is_failure() {
    let resp = KrakenResponse {
        result: None,
        error: Some(vec!["EAPI:Invalid nonce".to_string()]),
    };
    match resp.to_result() {
        Err(TokenError::Api(k)) => {
            assert_eq!(k.errors(), &vec!["EAPI:Invalid nonce".to_string()]);
        }
        other => panic!("expected Api error, got {:?}", other),
    }
}

#[test]
fn response_with_both_is_protocol_violation() {
    let resp = KrakenResponse {
        result: Some("abc".to_string()),
        error: Some(vec!["x".to_string()]),
    };
    assert!(matches!(resp.to_result(), Err(TokenError::Protocol)));
}

#[test]
fn response_with_neither_is_protocol_violation() {
    let resp = KrakenResponse { result: None, error: None };
    assert!(matches!(resp.to_result(), Err(TokenError::Protocol)));
}

#[test]
fn api_error_keeps_order_and_joins_with_newlines() {
    let resp = KrakenResponse {
        result: None,
        error: Some(vec!["EGeneral:Invalid arguments".to_string(), "EAPI:Rate limit".to_string()]),
    };
    match resp.to_result() {
        Err(TokenError::Api(k)) => {
            assert_eq!(
                k.errors(),
                &vec!["EGeneral:Invalid arguments".to_string(), "EAPI:Rate limit".to_string()]
            );
            assert_eq!(k.message(), "EGeneral:Invalid arguments\nEAPI:Rate limit");
        }
        other => panic!("expected Api error, got {:?}", other),
    }
}

#[test]
fn empty_error_list_message_is_empty() {
    let resp = KrakenResponse { result: None, error: Some(Vec::new()) };
    match resp.to_result() {
        Err(TokenError::Api(k)) => {
            assert_eq!(k.errors().len(), 0);
            assert_eq!(k.message(), "");
        }
        other => panic!("expected Api error, got {:?}", other),
    }
}

#[test]
fn nonce_increases_across_milliseconds() {
    let a = Kraken::get_nonce();
    assert!(a > 0);
    loop {
        let b = Kraken::get_nonce();
        if b != a {
            assert!(b > a);
            break;
        }
    }
}

#[test]
fn otp_code_is_six_digits() {
    let session = Kraken::new("key".to_string(), "YWJjZGVmZ2g=".to_string(),
        "JBSWY3DPEHPK3PXP".to_string());
    let code = session.get_auth().unwrap();
    assert_eq!(code.len(), 6);
    assert!(code.bytes().all(|b| b.is_ascii_digit()));
}

#[test]
fn otp_rejects_invalid_seed() {
    let session = Kraken::new("key".to_string(), "YWJjZGVmZ2g=".to_string(), "1".to_string());
    assert!(matches!(session.get_auth(), Err(TokenError::Otp)));
    assert!(matches!(session.get_formdata(), Err(TokenError::Otp)));
}

#[test]
fn formdata_carries_the_session_nonce() {
    let session = Kraken::new("key".to_string(), "YWJjZGVmZ2g=".to_string(),
        "JBSWY3DPEHPK3PXP".to_string());
    let data = session.get_formdata().unwrap();
    assert_eq!(data.otp.len(), 6);
    let body = Kraken::encode_body(&data).unwrap();
    assert_eq!(body, format!("nonce={}&otp={}", data.nonce, data.otp));
}

#[test]
fn end_to_end_acquires_stubbed_token() {
    // The one-time-code collaborator is stubbed to "555555" and this test
    // plays the transport: it receives exactly one signed request and
    // answers with a fixed successful body.
    let mut session = Kraken::new("key".to_string(), "YWJjZGVmZ2g=".to_string(),
        "JBSWY3DPEHPK3PXP".to_string());
    let req = session.prepare_with_otp("555555".to_string()).unwrap();

    assert_eq!(req.key, "key");
    assert_eq!(req.path, "/0/private/GetWebSocketsToken");
    assert!(!req.sign.is_empty());
    assert_eq!(req.body, format!("nonce={}&otp=555555", req.nonce));
    // The signature covers exactly the transmitted body.
    let expected = sign(&req.path, req.body.clone(), req.nonce, "YWJjZGVmZ2g=").unwrap();
    assert_eq!(req.sign, expected);

    let response = KrakenResponse { result: Some("TOKEN123".to_string()), error: None };
    let session = session.finish(response).unwrap();
    assert_eq!(session.token().as_deref(), Some("TOKEN123"));
}

#[test]
fn prepare_signs_the_current_code() {
    let mut session = Kraken::new("key".to_string(), "YWJjZGVmZ2g=".to_string(),
        "JBSWY3DPEHPK3PXP".to_string());
    let req = session.prepare().unwrap();
    assert_eq!(req.sign.len(), 88);
    assert_eq!(req.path, "/0/private/GetWebSocketsToken");
    assert!(req.body.starts_with(&format!("nonce={}&otp=", req.nonce)));
    let expected = sign(&req.path, req.body.clone(), req.nonce, "YWJjZGVmZ2g=").unwrap();
    assert_eq!(req.sign, expected);
}

#[test]
fn failed_exchange_reports_server_errors() {
    let mut session = Kraken::new("key".to_string(), "YWJjZGVmZ2g=".to_string(),
        "JBSWY3DPEHPK3PXP".to_string());
    let _req = session.prepare_with_otp("555555".to_string()).unwrap();
    let response = KrakenResponse {
        result: None,
        error: Some(vec!["EAPI:Invalid key".to_string()]),
    };
    match session.finish(response) {
        Err(TokenError::Api(k)) => assert_eq!(k.message(), "EAPI:Invalid key"),
        Err(other) => panic!("expected Api error, got {:?}", other),
        Ok(_) => panic!("expected Api error, got a token"),
    }
}

#[test]
fn prepare_with_bad_secret_is_encoding_error() {
    let mut session = Kraken::new("key".to_string(), "*bad*".to_string(),
        "JBSWY3DPEHPK3PXP".to_string());
    let r = session.prepare_with_otp("555555".to_string());
    assert!(matches!(r, Err(TokenError::Encoding)));
}

#[test]
fn prepare_with_empty_secret_is_key_error() {
    let mut session = Kraken::new("key".to_string(), String::new(),
        "JBSWY3DPEHPK3PXP".to_string());
    let r = session.prepare_with_otp("555555".to_string());
    assert!(matches!(r, Err(TokenError::Key)));
}

#[test]
fn transport_error_carries_its_detail() {
    // The Transport variant is produced by the (unverified) transport layer;
    // the library only carries it through.
    let e = TokenError::Transport("connection refused".to_string());
    assert!(matches!(e, TokenError::Transport(ref d) if d == "connection refused"));
}
