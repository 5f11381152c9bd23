use two_captcha::{
    Api, ApiError, ApiResponse, ApiToken, HttpEvent, Params, PollStep, Solved, SubmitStep,
};

fn client(poll_timeout_ms: u64) -> Api {
    Api::new(
        ApiToken::from(String::from("KEY")),
        Params {
            api_request_url: String::from("http://solver.example/in"),
            api_result_url: String::from("http://solver.example/res"),
            poll_timeout_ms,
        },
    )
}

fn envelope(status: i32, request: &str) -> HttpEvent {
    HttpEvent::Envelope(ApiResponse { status, request: String::from(request) })
}

/// Drives the engine over a scripted submit outcome and scripted poll
/// outcomes, as the transport loop would, and reports the final answer or
/// error plus how many polls were issued.
fn run_solve(
    api: &Api,
    submit_event: HttpEvent,
    poll_events: Vec<HttpEvent>,
) -> (Result<Solved, ApiError<()>>, usize) {
    let captcha_id = match api.submit_step::<()>(submit_event) {
        SubmitStep::Proceed { captcha_id } => captcha_id,
        SubmitStep::Fail(e) => return (Err(e), 0),
    };
    let mut polls: usize = 0;
    for event in poll_events {
        polls += 1;
        let _fields = api.poll_request(&captcha_id);
        match api.poll_step::<()>(event) {
            PollStep::Ready(solved) => return (Ok(solved), polls),
            PollStep::Fail(e) => return (Err(e), polls),
            PollStep::NotReady => {
                let _wait = api.wait_before_next_poll(0);
            },
        }
    }
    panic!("the script ran out of poll events");
}

#[test]
fn wait_is_the_remainder_of_the_interval() {
    let api = client(5000);
    assert_eq!(api.wait_before_next_poll(1200), 3800);
}

#[test]
fn wait_is_zero_once_the_interval_is_consumed() {
    let api = client(5000);
    assert_eq!(api.wait_before_next_poll(6000), 0);
    assert_eq!(api.wait_before_next_poll(5000), 0);
}

#[test]
fn solve_round_trip_polls_exactly_twice() {
    let api = client(5000);
    match api.submit_step::<()>(envelope(1, "J1")) {
        SubmitStep::Proceed { captcha_id } => assert_eq!(captcha_id, "J1"),
        SubmitStep::Fail(e) => panic!("submit must proceed, got {:?}", e),
    }
    let (outcome, polls) = run_solve(
        &api,
        envelope(1, "J1"),
        vec![envelope(0, "CAPCHA_NOT_READY"), envelope(1, "ANSWER42")],
    );
    assert_eq!(outcome.unwrap().answer(), "ANSWER42");
    assert_eq!(polls, 2);
}

#[test]
fn bad_submit_status_is_terminal_before_any_poll() {
    let api = client(5000);
    let (outcome, polls) = run_solve(
        &api,
        HttpEvent::BadStatusCode { status_code: 503 },
        vec![envelope(1, "NEVER_REACHED")],
    );
    match outcome {
        Err(ApiError::SendCaptchaRequestBadStatusCode { status_code }) => {
            assert_eq!(status_code, 503);
        },
        _ => panic!("a non-OK submit status must fail with the transport kind"),
    }
    assert_eq!(polls, 0);
}

#[test]
fn submit_events_map_to_submit_phase_errors() {
    let api = client(5000);
    assert!(matches!(
        api.submit_step::<()>(HttpEvent::SendFailed { message: String::from("refused") }),
        SubmitStep::Fail(ApiError::SendCaptchaRequest { .. })
    ));
    assert!(matches!(
        api.submit_step::<()>(HttpEvent::ReadBodyFailed { message: String::from("cut off") }),
        SubmitStep::Fail(ApiError::ReadCaptchaResponse { .. })
    ));
    assert!(matches!(
        api.submit_step::<()>(HttpEvent::DecodeFailed { message: String::from("not json") }),
        SubmitStep::Fail(ApiError::DecodeCaptchaResponse { .. })
    ));
    assert!(matches!(
        api.submit_step::<()>(envelope(0, "ERROR_ZERO_BALANCE")),
        SubmitStep::Fail(ApiError::CaptchaResponse(_))
    ));
}

#[test]
fn poll_events_map_to_poll_phase_errors() {
    let api = client(5000);
    assert!(matches!(
        api.poll_step::<()>(HttpEvent::SendFailed { message: String::from("refused") }),
        PollStep::Fail(ApiError::SendPollRequest { .. })
    ));
    assert!(matches!(
        api.poll_step::<()>(HttpEvent::BadStatusCode { status_code: 500 }),
        PollStep::Fail(ApiError::SendPollRequestBadStatusCode { status_code: 500 })
    ));
    assert!(matches!(
        api.poll_step::<()>(HttpEvent::ReadBodyFailed { message: String::from("cut off") }),
        PollStep::Fail(ApiError::ReadPollResponse { .. })
    ));
    assert!(matches!(
        api.poll_step::<()>(HttpEvent::DecodeFailed { message: String::from("not json") }),
        PollStep::Fail(ApiError::DecodePollResponse { .. })
    ));
    assert!(matches!(
        api.poll_step::<()>(envelope(0, "ERROR_CAPTCHA_UNSOLVABLE")),
        PollStep::Fail(ApiError::PollResponse(_))
    ));
}

#[test]
fn a_classified_poll_error_is_terminal() {
    let api = client(5000);
    let (outcome, polls) = run_solve(
        &api,
        envelope(1, "J1"),
        vec![envelope(0, "CAPCHA_NOT_READY"), envelope(0, "ERROR_CAPTCHA_UNSOLVABLE")],
    );
    assert!(matches!(outcome, Err(ApiError::PollResponse(_))));
    assert_eq!(polls, 2);
}

#[test]
fn poll_request_carries_key_action_id_and_json() {
    let api = client(5000);
    let fields = api.poll_request("J1");
    assert_eq!(
        fields,
        vec![
            (String::from("key"), String::from("KEY")),
            (String::from("action"), String::from("get")),
            (String::from("id"), String::from("J1")),
            (String::from("json"), String::from("1")),
        ]
    );
}
