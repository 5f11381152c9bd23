use two_captcha::ApiToken;
use two_captcha::normal::{BuilderError, CaptchaBuilder, SubmitRequest};

fn token() -> ApiToken {
    ApiToken::from(String::from("SECRET"))
}

#[test]
fn finish_without_source_fails() {
    let r = CaptchaBuilder::new().finish();
    assert!(matches!(r, Err(BuilderError::CaptchaImageIsNotProvided)));
}

#[test]
fn finish_with_file_source_succeeds() {
    let captcha = CaptchaBuilder::new()
        .set_upload_file(String::from("captcha.png"))
        .finish()
        .unwrap();
    match captcha.prepare_request(&token()) {
        SubmitRequest::Multipart { fields, file_part_name, file_path, file_name } => {
            assert_eq!(
                fields,
                vec![
                    (String::from("method"), String::from("post")),
                    (String::from("key"), String::from("SECRET")),
                    (String::from("json"), String::from("1")),
                    (String::from("regsense"), String::from("0")),
                ]
            );
            assert_eq!(file_part_name, "file");
            assert_eq!(file_path, "captcha.png");
            assert_eq!(file_name, "captcha.png");
        },
        SubmitRequest::UrlEncodedForm { .. } => panic!("file payload must build a multipart request"),
    }
}

#[test]
fn finish_with_base64_source_succeeds() {
    let captcha = CaptchaBuilder::new()
        .set_image_data_base64("aGVsbG8=")
        .unwrap()
        .finish()
        .unwrap();
    match captcha.prepare_request(&token()) {
        SubmitRequest::UrlEncodedForm { fields } => {
            assert_eq!(
                fields,
                vec![
                    (String::from("method"), String::from("base64")),
                    (String::from("key"), String::from("SECRET")),
                    (String::from("json"), String::from("1")),
                    (String::from("regsense"), String::from("0")),
                    (String::from("body"), String::from("aGVsbG8=")),
                ]
            );
        },
        SubmitRequest::Multipart { .. } => panic!("inline payload must build a form request"),
    }
}

#[test]
fn invalid_base64_is_rejected_at_build_time() {
    let r = CaptchaBuilder::new().set_image_data_base64("not base64!!!");
    match r {
        Err(BuilderError::InvalidBase64 { source, .. }) => assert_eq!(source, "not base64!!!"),
        _ => panic!("invalid base64 must be rejected when it is set"),
    }
}

#[test]
fn encode_as_base64_encodes_the_bytes() {
    let captcha = CaptchaBuilder::new()
        .set_image_data_encode_as_base64(b"hello world")
        .finish()
        .unwrap();
    match captcha.prepare_request(&token()) {
        SubmitRequest::UrlEncodedForm { fields } => {
            assert_eq!(fields[4].0, "body");
            assert_eq!(fields[4].1, "aGVsbG8gd29ybGQ=");
            assert_eq!(fields[4].1, base64::encode(b"hello world"));
            assert_eq!(base64::decode(&fields[4].1).unwrap(), b"hello world");
        },
        SubmitRequest::Multipart { .. } => panic!("inline payload must build a form request"),
    }
}

#[test]
fn case_sensitive_flag_sets_regsense() {
    let captcha = CaptchaBuilder::new()
        .set_upload_file(String::from("captcha.png"))
        .set_case_sensitive(true)
        .finish()
        .unwrap();
    match captcha.prepare_request(&token()) {
        SubmitRequest::Multipart { fields, .. } => {
            assert_eq!(fields[3], (String::from("regsense"), String::from("1")));
        },
        SubmitRequest::UrlEncodedForm { .. } => panic!("file payload must build a multipart request"),
    }
}

#[test]
fn last_source_set_wins() {
    let captcha = CaptchaBuilder::new()
        .set_upload_file(String::from("captcha.png"))
        .set_image_data_base64("aGVsbG8=")
        .unwrap()
        .finish()
        .unwrap();
    assert!(matches!(
        captcha.prepare_request(&token()),
        SubmitRequest::UrlEncodedForm { .. }
    ));
}
