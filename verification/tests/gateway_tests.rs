//! Request building, payload assembly and the uniform error mapping.

use otp_vault::errors::CoreError;
use otp_vault::gateway::{
    classify_response, qr_file_name, qr_mime_type, qr_part_name, require_parsed, HttpMethod,
    HttpOutcome, RequestBody, TwoFAuthClient,
};
use otp_vault::models::CreateAccountPayload;

fn client() -> TwoFAuthClient {
    TwoFAuthClient::new("https://otp.example.com", "tok")
}

fn empty_payload() -> CreateAccountPayload {
    CreateAccountPayload {
        uri: None,
        service: None,
        account: None,
        secret: None,
        otp_type: None,
        digits: None,
        period: None,
        counter: None,
        algorithm: None,
    }
}

#[test]
fn base_url_is_normalized() {
    let c = TwoFAuthClient::new("https://h///", "t");
    assert_eq!(c.base_url, "https://h");
    assert_eq!(c.token, "t");
}

#[test]
fn verify_user_request_shape() {
    let r = client().verify_user_request();
    assert_eq!(r.method, HttpMethod::Get);
    assert_eq!(r.url, b"https://otp.example.com/api/v1/user".to_vec());
    assert_eq!(r.bearer, "tok");
    assert_eq!(r.body, RequestBody::Empty);
}

#[test]
fn list_accounts_request_asks_for_otp() {
    let r = client().list_accounts_request();
    assert_eq!(r.method, HttpMethod::Get);
    assert_eq!(r.url, b"https://otp.example.com/api/v1/twofaccounts?withOtp=true".to_vec());
}

#[test]
fn get_otp_request_renders_the_id() {
    let r = client().get_otp_request(12345);
    assert_eq!(r.url, b"https://otp.example.com/api/v1/twofaccounts/12345/otp".to_vec());
    let r0 = client().get_otp_request(0);
    assert_eq!(r0.url, b"https://otp.example.com/api/v1/twofaccounts/0/otp".to_vec());
}

#[test]
fn delete_account_request_shape() {
    let r = client().delete_account_request(7);
    assert_eq!(r.method, HttpMethod::Delete);
    assert_eq!(r.url, b"https://otp.example.com/api/v1/twofaccounts/7".to_vec());
    assert_eq!(r.body, RequestBody::Empty);
}

#[test]
fn create_account_uri_is_authoritative() {
    let mut p = empty_payload();
    p.uri = Some("otpauth://totp/X?secret=Y".to_string());
    p.service = Some("ignored".to_string());
    p.digits = Some(8);
    let r = client().create_account_request(&p);
    assert_eq!(r.method, HttpMethod::Post);
    assert_eq!(r.url, b"https://otp.example.com/api/v1/twofaccounts".to_vec());
    assert_eq!(r.body, RequestBody::Json(b"{\"uri\":\"otpauth://totp/X?secret=Y\"}".to_vec()));
}

#[test]
fn create_account_sparse_fields_omit_absent() {
    let mut p = empty_payload();
    p.service = Some("X".to_string());
    let r = client().create_account_request(&p);
    assert_eq!(r.body, RequestBody::Json(b"{\"service\":\"X\"}".to_vec()));
}

#[test]
fn create_account_with_nothing_set_sends_an_empty_object() {
    let r = client().create_account_request(&empty_payload());
    assert_eq!(r.body, RequestBody::Json(b"{}".to_vec()));
}

#[test]
fn create_account_sparse_fields_full_order() {
    let mut p = empty_payload();
    p.service = Some("GitHub".to_string());
    p.account = Some("me@example.com".to_string());
    p.secret = Some("ABC123".to_string());
    p.otp_type = Some("totp".to_string());
    p.digits = Some(6);
    p.period = Some(30);
    p.algorithm = Some("sha1".to_string());
    let r = client().create_account_request(&p);
    let expected = "{\"service\":\"GitHub\",\"account\":\"me@example.com\",\"secret\":\"ABC123\",\"otp_type\":\"totp\",\"digits\":6,\"period\":30,\"algorithm\":\"sha1\"}";
    assert_eq!(r.body, RequestBody::Json(expected.as_bytes().to_vec()));
    if let RequestBody::Json(b) = &r.body {
        let v: serde_json::Value = serde_json::from_slice(b).unwrap();
        assert_eq!(v["digits"], 6);
        assert!(v.get("counter").is_none());
    } else {
        panic!("expected a JSON body");
    }
}

#[test]
fn preview_request_wraps_the_uri() {
    let r = client().preview_request("otpauth://hotp/A?secret=S");
    assert_eq!(r.method, HttpMethod::Post);
    assert_eq!(r.url, b"https://otp.example.com/api/v1/twofaccounts/preview".to_vec());
    assert_eq!(r.body, RequestBody::Json(b"{\"uri\":\"otpauth://hotp/A?secret=S\"}".to_vec()));
}

#[test]
fn decode_qr_request_carries_the_image() {
    let img = vec![1u8, 2, 3, 4];
    let r = client().decode_qr_request(img.clone());
    assert_eq!(r.method, HttpMethod::Post);
    assert_eq!(r.url, b"https://otp.example.com/api/v1/qrcode/decode".to_vec());
    assert_eq!(r.body, RequestBody::QrImage(img));
    assert_eq!(qr_part_name(), "qrcode");
    assert_eq!(qr_file_name(), "qrcode.png");
    assert_eq!(qr_mime_type(), "image/png");
}

#[test]
fn error_mapping_order() {
    // Transport failure comes first.
    assert_eq!(classify_response(HttpOutcome::Failed), Err(CoreError::Request));
    // Then the status: a 404 is a server error even with a readable body.
    assert_eq!(
        classify_response(HttpOutcome::Response(404, b"{\"ok\":true}".to_vec())),
        Err(CoreError::Server(404))
    );
    assert_eq!(
        classify_response(HttpOutcome::Response(500, Vec::new())),
        Err(CoreError::Server(500))
    );
    assert_eq!(
        classify_response(HttpOutcome::Response(301, Vec::new())),
        Err(CoreError::Server(301))
    );
    // A 2xx passes its body through untouched.
    assert_eq!(
        classify_response(HttpOutcome::Response(200, b"body".to_vec())),
        Ok(b"body".to_vec())
    );
    assert_eq!(classify_response(HttpOutcome::Response(204, Vec::new())), Ok(Vec::new()));
    // Only then does the body's shape matter.
    assert_eq!(require_parsed::<u32>(None), Err(CoreError::Parse));
    assert_eq!(require_parsed(Some(5u32)), Ok(5u32));
}

#[test]
fn error_codes_and_messages() {
    assert_eq!(CoreError::NotConfigured.code(), "not_configured");
    assert_eq!(CoreError::Request.code(), "request_error");
    assert_eq!(CoreError::Server(404).code(), "server_error");
    assert_eq!(CoreError::Server(404).status(), Some(404));
    assert_eq!(CoreError::Parse.status(), None);
    assert_eq!(CoreError::Parse.code(), "parse_error");
    assert_eq!(CoreError::Decrypt.code(), "decrypt_error");
    assert_eq!(CoreError::InvalidKey.code(), "invalid_key_error");
    assert_eq!(CoreError::Encrypt.code(), "encrypt_error");
    assert_eq!(CoreError::NoQrFound.code(), "no_qr_found_error");
    assert_eq!(CoreError::UnsupportedPlatform.code(), "unsupported_platform_error");
    assert_eq!(CoreError::NotConfigured.message(), "no server credentials are configured");
    assert_eq!(
        CoreError::UnsupportedPlatform.message(),
        "screen capture is not supported on this platform"
    );
}
