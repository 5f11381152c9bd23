use two_captcha::{Api, ApiToken, Params};
use two_captcha::cli_args::CliArgs;
use two_captcha::text::{starts_with_str, str_eq, trim_str};

#[test]
fn default_params_point_at_the_standard_endpoints() {
    let params = Params::default();
    assert_eq!(params.api_request_url, "http://2captcha.com/in.php");
    assert_eq!(params.api_result_url, "http://2captcha.com/res.php");
    assert_eq!(params.poll_timeout_ms, 5000);
}

#[test]
fn each_cli_arg_feeds_its_own_field() {
    let args = CliArgs {
        api_request_url: String::from("http://a.example/in"),
        api_result_url: String::from("http://b.example/res"),
        poll_timeout_ms: 1234,
    };
    let params = Params::from_cli_args(&args);
    assert_eq!(params.api_request_url, "http://a.example/in");
    assert_eq!(params.api_result_url, "http://b.example/res");
    assert_eq!(params.poll_timeout_ms, 1234);
}

#[test]
fn the_client_exposes_its_configured_endpoints() {
    let api = Api::new(
        ApiToken::from(String::from("KEY")),
        Params {
            api_request_url: String::from("http://a.example/in"),
            api_result_url: String::from("http://b.example/res"),
            poll_timeout_ms: 5000,
        },
    );
    assert_eq!(api.request_url(), "http://a.example/in");
    assert_eq!(api.result_url(), "http://b.example/res");
}

#[test]
fn text_helpers_behave_like_their_specifications() {
    assert!(str_eq("abc", "abc"));
    assert!(!str_eq("abc", "abd"));
    assert!(!str_eq("abc", "abcd"));
    assert!(starts_with_str("ERROR:123", "ERROR:"));
    assert!(!starts_with_str("ERROR_IP", "ERROR:"));
    assert!(!starts_with_str("ERR", "ERROR:"));
    assert_eq!(trim_str("  123\t\n "), "123");
    assert_eq!(trim_str("123"), "123");
    assert_eq!(trim_str(" \t "), "");
    assert_eq!(trim_str("a b"), "a b");
    assert_eq!(trim_str("\u{a0}x\u{3000}"), "x");
}
