//! The `{status, request}` response envelope of the solving service and its
//! classification into job ids, poll outcomes, and the closed error
//! taxonomies of the submit and poll phases.

use vstd::prelude::*;

use crate::text::{spec_has_prefix, spec_trim, starts_with_str, str_eq, trim_str};

verus! {

/// The envelope both phases answer with: `status` 1 carries a payload in
/// `request`, `status` 0 carries a textual error code there.
#[derive(Debug)]
pub struct ApiResponse {
    pub status: i32,
    pub request: String,
}

/// Mathematical image of [`ApiResponse`].
pub struct ApiResponseView {
    pub status: int,
    pub request: Seq<char>,
}

impl View for ApiResponse {
    type V = ApiResponseView;

    open spec fn view(&self) -> ApiResponseView {
        ApiResponseView { status: self.status as int, request: self.request@ }
    }
}

/// The submit phase's closed error taxonomy; unknown envelopes are carried
/// verbatim rather than dropped.
#[derive(Debug)]
pub enum CaptchaResponseError {
    WrongUserKey,
    KeyDoesNotExist,
    ZeroBalance,
    Pageurl,
    NoSlotAvailable,
    ZeroCaptchaFilesize,
    TooBigCaptchaFilesize,
    WrongFileExtension,
    ImageTypeNotSupported,
    Upload,
    IpNotAllowed,
    IpBanned,
    BadTokenOrPageurl,
    Googlekey,
    WrongGooglekey,
    CaptchaimageBlocked,
    TooManyBadImages,
    MaxUserTurn,
    BadParameters,
    BadProxy,
    UnexpectedApiResponse(ApiResponse),
}

/// Mathematical image of [`CaptchaResponseError`].
pub enum CaptchaResponseErrorView {
    WrongUserKey,
    KeyDoesNotExist,
    ZeroBalance,
    Pageurl,
    NoSlotAvailable,
    ZeroCaptchaFilesize,
    TooBigCaptchaFilesize,
    WrongFileExtension,
    ImageTypeNotSupported,
    Upload,
    IpNotAllowed,
    IpBanned,
    BadTokenOrPageurl,
    Googlekey,
    WrongGooglekey,
    CaptchaimageBlocked,
    TooManyBadImages,
    MaxUserTurn,
    BadParameters,
    BadProxy,
    UnexpectedApiResponse(ApiResponseView),
}

impl View for CaptchaResponseError {
    type V = CaptchaResponseErrorView;

    open spec fn view(&self) -> CaptchaResponseErrorView {
        match self {
            CaptchaResponseError::WrongUserKey => CaptchaResponseErrorView::WrongUserKey,
            CaptchaResponseError::KeyDoesNotExist => CaptchaResponseErrorView::KeyDoesNotExist,
            CaptchaResponseError::ZeroBalance => CaptchaResponseErrorView::ZeroBalance,
            CaptchaResponseError::Pageurl => CaptchaResponseErrorView::Pageurl,
            CaptchaResponseError::NoSlotAvailable => CaptchaResponseErrorView::NoSlotAvailable,
            CaptchaResponseError::ZeroCaptchaFilesize
                => CaptchaResponseErrorView::ZeroCaptchaFilesize,
            CaptchaResponseError::TooBigCaptchaFilesize
                => CaptchaResponseErrorView::TooBigCaptchaFilesize,
            CaptchaResponseError::WrongFileExtension
                => CaptchaResponseErrorView::WrongFileExtension,
            CaptchaResponseError::ImageTypeNotSupported
                => CaptchaResponseErrorView::ImageTypeNotSupported,
            CaptchaResponseError::Upload => CaptchaResponseErrorView::Upload,
            CaptchaResponseError::IpNotAllowed => CaptchaResponseErrorView::IpNotAllowed,
            CaptchaResponseError::IpBanned => CaptchaResponseErrorView::IpBanned,
            CaptchaResponseError::BadTokenOrPageurl
                => CaptchaResponseErrorView::BadTokenOrPageurl,
            CaptchaResponseError::Googlekey => CaptchaResponseErrorView::Googlekey,
            CaptchaResponseError::WrongGooglekey => CaptchaResponseErrorView::WrongGooglekey,
            CaptchaResponseError::CaptchaimageBlocked
                => CaptchaResponseErrorView::CaptchaimageBlocked,
            CaptchaResponseError::TooManyBadImages
                => CaptchaResponseErrorView::TooManyBadImages,
            CaptchaResponseError::MaxUserTurn => CaptchaResponseErrorView::MaxUserTurn,
            CaptchaResponseError::BadParameters => CaptchaResponseErrorView::BadParameters,
            CaptchaResponseError::BadProxy => CaptchaResponseErrorView::BadProxy,
            CaptchaResponseError::UnexpectedApiResponse(resp)
                => CaptchaResponseErrorView::UnexpectedApiResponse(resp@),
        }
    }
}

/// The poll phase's closed error taxonomy.
#[derive(Debug)]
pub enum PollResponseError {
    ErrorCaptchaUnsolvable,
    ErrorWrongUserKey,
    ErrorKeyDoesNotExist,
    ErrorWrongIdFormat,
    ErrorWrongCaptchaId,
    ErrorBadDuplicates,
    ErrorReportNotRecorded,
    ErrorDuplicateReport,
    RequestLimitExceeded { code: String },
    ErrorIpAddres,
    ErrorTokenExpired,
    ErrorEmptyAction,
    ErrorProxyConnectionFailed,
    UnexpectedApiResponse(ApiResponse),
}

/// Mathematical image of [`PollResponseError`].
pub enum PollResponseErrorView {
    ErrorCaptchaUnsolvable,
    ErrorWrongUserKey,
    ErrorKeyDoesNotExist,
    ErrorWrongIdFormat,
    ErrorWrongCaptchaId,
    ErrorBadDuplicates,
    ErrorReportNotRecorded,
    ErrorDuplicateReport,
    RequestLimitExceeded { code: Seq<char> },
    ErrorIpAddres,
    ErrorTokenExpired,
    ErrorEmptyAction,
    ErrorProxyConnectionFailed,
    UnexpectedApiResponse(ApiResponseView),
}

impl View for PollResponseError {
    type V = PollResponseErrorView;

    open spec fn view(&self) -> PollResponseErrorView {
        match self {
            PollResponseError::ErrorCaptchaUnsolvable
                => PollResponseErrorView::ErrorCaptchaUnsolvable,
            PollResponseError::ErrorWrongUserKey => PollResponseErrorView::ErrorWrongUserKey,
            PollResponseError::ErrorKeyDoesNotExist
                => PollResponseErrorView::ErrorKeyDoesNotExist,
            PollResponseError::ErrorWrongIdFormat => PollResponseErrorView::ErrorWrongIdFormat,
            PollResponseError::ErrorWrongCaptchaId => PollResponseErrorView::ErrorWrongCaptchaId,
            PollResponseError::ErrorBadDuplicates => PollResponseErrorView::ErrorBadDuplicates,
            PollResponseError::ErrorReportNotRecorded
                => PollResponseErrorView::ErrorReportNotRecorded,
            PollResponseError::ErrorDuplicateReport
                => PollResponseErrorView::ErrorDuplicateReport,
            PollResponseError::RequestLimitExceeded { code }
                => PollResponseErrorView::RequestLimitExceeded { code: code@ },
            PollResponseError::ErrorIpAddres => PollResponseErrorView::ErrorIpAddres,
            PollResponseError::ErrorTokenExpired => PollResponseErrorView::ErrorTokenExpired,
            PollResponseError::ErrorEmptyAction => PollResponseErrorView::ErrorEmptyAction,
            PollResponseError::ErrorProxyConnectionFailed
                => PollResponseErrorView::ErrorProxyConnectionFailed,
            PollResponseError::UnexpectedApiResponse(resp)
                => PollResponseErrorView::UnexpectedApiResponse(resp@),
        }
    }
}

/// What a successful poll classification means: keep waiting, or done.
#[derive(Debug)]
pub enum PollResult {
    NotReady,
    Ready { solved_captcha: String },
}

/// Mathematical image of [`PollResult`].
pub enum PollResultView {
    NotReady,
    Ready { solved_captcha: Seq<char> },
}

impl View for PollResult {
    type V = PollResultView;

    open spec fn view(&self) -> PollResultView {
        match self {
            PollResult::NotReady => PollResultView::NotReady,
            PollResult::Ready { solved_captcha }
                => PollResultView::Ready { solved_captcha: solved_captcha@ },
        }
    }
}

/// The submit phase's code table: `status` 1 yields the job id, `status` 0
/// with a known code yields that code's variant, everything else is carried
/// verbatim as unexpected.
pub open spec fn spec_extract_captcha_id(env: ApiResponseView) -> Result<
    Seq<char>,
    CaptchaResponseErrorView,
> {
    if env.status == 1 {
        Ok(env.request)
    } else if env.status == 0 && env.request == "ERROR_WRONG_USER_KEY"@ {
        Err(CaptchaResponseErrorView::WrongUserKey)
    } else if env.status == 0 && env.request == "ERROR_KEY_DOES_NOT_EXIST"@ {
        Err(CaptchaResponseErrorView::KeyDoesNotExist)
    } else if env.status == 0 && env.request == "ERROR_ZERO_BALANCE"@ {
        Err(CaptchaResponseErrorView::ZeroBalance)
    } else if env.status == 0 && env.request == "ERROR_PAGEURL"@ {
        Err(CaptchaResponseErrorView::Pageurl)
    } else if env.status == 0 && env.request == "ERROR_NO_SLOT_AVAILABLE"@ {
        Err(CaptchaResponseErrorView::NoSlotAvailable)
    } else if env.status == 0 && env.request == "ERROR_ZERO_CAPTCHA_FILESIZE"@ {
        Err(CaptchaResponseErrorView::ZeroCaptchaFilesize)
    } else if env.status == 0 && env.request == "ERROR_TOO_BIG_CAPTCHA_FILESIZE"@ {
        Err(CaptchaResponseErrorView::TooBigCaptchaFilesize)
    } else if env.status == 0 && env.request == "ERROR_WRONG_FILE_EXTENSION"@ {
        Err(CaptchaResponseErrorView::WrongFileExtension)
    } else if env.status == 0 && env.request == "ERROR_IMAGE_TYPE_NOT_SUPPORTED"@ {
        Err(CaptchaResponseErrorView::ImageTypeNotSupported)
    } else if env.status == 0 && env.request == "ERROR_UPLOAD"@ {
        Err(CaptchaResponseErrorView::Upload)
    } else if env.status == 0 && env.request == "ERROR_IP_NOT_ALLOWED"@ {
        Err(CaptchaResponseErrorView::IpNotAllowed)
    } else if env.status == 0 && env.request == "IP_BANNED"@ {
        Err(CaptchaResponseErrorView::IpBanned)
    } else if env.status == 0 && env.request == "ERROR_BAD_TOKEN_OR_PAGEURL"@ {
        Err(CaptchaResponseErrorView::BadTokenOrPageurl)
    } else if env.status == 0 && env.request == "ERROR_GOOGLEKEY"@ {
        Err(CaptchaResponseErrorView::Googlekey)
    } else if env.status == 0 && env.request == "ERROR_WRONG_GOOGLEKEY"@ {
        Err(CaptchaResponseErrorView::WrongGooglekey)
    } else if env.status == 0 && env.request == "ERROR_CAPTCHAIMAGE_BLOCKED"@ {
        Err(CaptchaResponseErrorView::CaptchaimageBlocked)
    } else if env.status == 0 && env.request == "TOO_MANY_BAD_IMAGES"@ {
        Err(CaptchaResponseErrorView::TooManyBadImages)
    } else if env.status == 0 && env.request == "MAX_USER_TURN"@ {
        Err(CaptchaResponseErrorView::MaxUserTurn)
    } else if env.status == 0 && env.request == "ERROR_BAD_PARAMETERS"@ {
        Err(CaptchaResponseErrorView::BadParameters)
    } else if env.status == 0 && env.request == "ERROR_BAD_PROXY"@ {
        Err(CaptchaResponseErrorView::BadProxy)
    } else {
        Err(CaptchaResponseErrorView::UnexpectedApiResponse(env))
    }
}

/// The poll phase's code table: `status` 1 yields the answer, the not-ready
/// code loops, the rate-limit code `ERROR:<code>` captures its trimmed
/// suffix, known codes yield their variant, everything else is carried
/// verbatim as unexpected.
pub open spec fn spec_extract_poll_result(env: ApiResponseView) -> Result<
    PollResultView,
    PollResponseErrorView,
> {
    if env.status == 1 {
        Ok(PollResultView::Ready { solved_captcha: env.request })
    } else if env.status == 0 && env.request == "CAPCHA_NOT_READY"@ {
        Ok(PollResultView::NotReady)
    } else if env.status == 0 && env.request == "ERROR_CAPTCHA_UNSOLVABLE"@ {
        Err(PollResponseErrorView::ErrorCaptchaUnsolvable)
    } else if env.status == 0 && env.request == "ERROR_WRONG_USER_KEY"@ {
        Err(PollResponseErrorView::ErrorWrongUserKey)
    } else if env.status == 0 && env.request == "ERROR_KEY_DOES_NOT_EXIST"@ {
        Err(PollResponseErrorView::ErrorKeyDoesNotExist)
    } else if env.status == 0 && env.request == "ERROR_WRONG_ID_FORMAT"@ {
        Err(PollResponseErrorView::ErrorWrongIdFormat)
    } else if env.status == 0 && env.request == "ERROR_WRONG_CAPTCHA_ID"@ {
        Err(PollResponseErrorView::ErrorWrongCaptchaId)
    } else if env.status == 0 && env.request == "ERROR_BAD_DUPLICATES"@ {
        Err(PollResponseErrorView::ErrorBadDuplicates)
    } else if env.status == 0 && env.request == "ERROR_REPORT_NOT_RECORDED"@ {
        Err(PollResponseErrorView::ErrorReportNotRecorded)
    } else if env.status == 0 && env.request == "ERROR_DUPLICATE_REPORT"@ {
        Err(PollResponseErrorView::ErrorDuplicateReport)
    } else if env.status == 0 && spec_has_prefix(env.request, "ERROR:"@) {
        Err(
            PollResponseErrorView::RequestLimitExceeded {
                code: spec_trim(env.request.skip(6)),
            },
        )
    } else if env.status == 0 && env.request == "ERROR_IP_ADDRES"@ {
        Err(PollResponseErrorView::ErrorIpAddres)
    } else if env.status == 0 && env.request == "ERROR_TOKEN_EXPIRED"@ {
        Err(PollResponseErrorView::ErrorTokenExpired)
    } else if env.status == 0 && env.request == "ERROR_EMPTY_ACTION"@ {
        Err(PollResponseErrorView::ErrorEmptyAction)
    } else if env.status == 0 && env.request == "ERROR_PROXY_CONNECTION_FAILED"@ {
        Err(PollResponseErrorView::ErrorProxyConnectionFailed)
    } else {
        Err(PollResponseErrorView::UnexpectedApiResponse(env))
    }
}

/// A success envelope passes its payload through verbatim in both phases: at
/// submit it is the job id, at poll it is the solved answer.
pub proof fn lemma_success_passthrough(env: ApiResponseView)
    requires
        env.status == 1,
    ensures
        spec_extract_captcha_id(env) == Ok::<Seq<char>, CaptchaResponseErrorView>(env.request),
        spec_extract_poll_result(env) == Ok::<PollResultView, PollResponseErrorView>(
            PollResultView::Ready { solved_captcha: env.request },
        ),
{
}

/// A poll classifies as not-ready exactly on the service's not-ready code.
pub proof fn lemma_not_ready_exactly(env: ApiResponseView)
    ensures
        spec_extract_poll_result(env) == Ok::<PollResultView, PollResponseErrorView>(
            PollResultView::NotReady,
        ) <==> (env.status == 0 && env.request == "CAPCHA_NOT_READY"@),
{
}

/// No unknown code ever classifies as success: without a success status the
/// submit phase always errs, and the poll phase succeeds only on a success
/// status or the not-ready code.
pub proof fn lemma_no_silent_success(env: ApiResponseView)
    ensures
        env.status != 1 ==> spec_extract_captcha_id(env) is Err,
        spec_extract_poll_result(env) is Ok ==> env.status == 1 || (env.status == 0
            && env.request == "CAPCHA_NOT_READY"@),
{
}

impl ApiResponse {
    /// Submit-phase classification: the job id on success, otherwise the
    /// classified error.
    pub fn extract_captcha_id(self) -> (r: Result<String, CaptchaResponseError>)
        ensures
            (match r {
                Ok(id) => spec_extract_captcha_id(self@) == Ok::<
                    Seq<char>,
                    CaptchaResponseErrorView,
                >(id@),
                Err(e) => spec_extract_captcha_id(self@) == Err::<
                    Seq<char>,
                    CaptchaResponseErrorView,
                >(e@),
            }),
    {
        if self.status == 1 {
            return Ok(self.request);
        }
        if self.status == 0 {
            let code = self.request.as_str();
            if str_eq(code, "ERROR_WRONG_USER_KEY") {
                return Err(CaptchaResponseError::WrongUserKey);
            }
            if str_eq(code, "ERROR_KEY_DOES_NOT_EXIST") {
                return Err(CaptchaResponseError::KeyDoesNotExist);
            }
            if str_eq(code, "ERROR_ZERO_BALANCE") {
                return Err(CaptchaResponseError::ZeroBalance);
            }
            if str_eq(code, "ERROR_PAGEURL") {
                return Err(CaptchaResponseError::Pageurl);
            }
            if str_eq(code, "ERROR_NO_SLOT_AVAILABLE") {
                return Err(CaptchaResponseError::NoSlotAvailable);
            }
            if str_eq(code, "ERROR_ZERO_CAPTCHA_FILESIZE") {
                return Err(CaptchaResponseError::ZeroCaptchaFilesize);
            }
            if str_eq(code, "ERROR_TOO_BIG_CAPTCHA_FILESIZE") {
                return Err(CaptchaResponseError::TooBigCaptchaFilesize);
            }
            if str_eq(code, "ERROR_WRONG_FILE_EXTENSION") {
                return Err(CaptchaResponseError::WrongFileExtension);
            }
            if str_eq(code, "ERROR_IMAGE_TYPE_NOT_SUPPORTED") {
                return Err(CaptchaResponseError::ImageTypeNotSupported);
            }
            if str_eq(code, "ERROR_UPLOAD") {
                return Err(CaptchaResponseError::Upload);
            }
            if str_eq(code, "ERROR_IP_NOT_ALLOWED") {
                return Err(CaptchaResponseError::IpNotAllowed);
            }
            if str_eq(code, "IP_BANNED") {
                return Err(CaptchaResponseError::IpBanned);
            }
            if str_eq(code, "ERROR_BAD_TOKEN_OR_PAGEURL") {
                return Err(CaptchaResponseError::BadTokenOrPageurl);
            }
            if str_eq(code, "ERROR_GOOGLEKEY") {
                return Err(CaptchaResponseError::Googlekey);
            }
            if str_eq(code, "ERROR_WRONG_GOOGLEKEY") {
                return Err(CaptchaResponseError::WrongGooglekey);
            }
            if str_eq(code, "ERROR_CAPTCHAIMAGE_BLOCKED") {
                return Err(CaptchaResponseError::CaptchaimageBlocked);
            }
            if str_eq(code, "TOO_MANY_BAD_IMAGES") {
                return Err(CaptchaResponseError::TooManyBadImages);
            }
            if str_eq(code, "MAX_USER_TURN") {
                return Err(CaptchaResponseError::MaxUserTurn);
            }
            if str_eq(code, "ERROR_BAD_PARAMETERS") {
                return Err(CaptchaResponseError::BadParameters);
            }
            if str_eq(code, "ERROR_BAD_PROXY") {
                return Err(CaptchaResponseError::BadProxy);
            }
        }
        Err(CaptchaResponseError::UnexpectedApiResponse(self))
    }

    /// Poll-phase classification: the solved answer or the not-ready marker
    /// on success, otherwise the classified error.
    pub fn extract_poll_result(self) -> (r: Result<PollResult, PollResponseError>)
        ensures
            (match r {
                Ok(outcome) => spec_extract_poll_result(self@) == Ok::<
                    PollResultView,
                    PollResponseErrorView,
                >(outcome@),
                Err(e) => spec_extract_poll_result(self@) == Err::<
                    PollResultView,
                    PollResponseErrorView,
                >(e@),
            }),
    {
        if self.status == 1 {
            return Ok(PollResult::Ready { solved_captcha: self.request });
        }
        if self.status == 0 {
            let code = self.request.as_str();
            if str_eq(code, "CAPCHA_NOT_READY") {
                return Ok(PollResult::NotReady);
            }
            if str_eq(code, "ERROR_CAPTCHA_UNSOLVABLE") {
                return Err(PollResponseError::ErrorCaptchaUnsolvable);
            }
            if str_eq(code, "ERROR_WRONG_USER_KEY") {
                return Err(PollResponseError::ErrorWrongUserKey);
            }
            if str_eq(code, "ERROR_KEY_DOES_NOT_EXIST") {
                return Err(PollResponseError::ErrorKeyDoesNotExist);
            }
            if str_eq(code, "ERROR_WRONG_ID_FORMAT") {
                return Err(PollResponseError::ErrorWrongIdFormat);
            }
            if str_eq(code, "ERROR_WRONG_CAPTCHA_ID") {
                return Err(PollResponseError::ErrorWrongCaptchaId);
            }
            if str_eq(code, "ERROR_BAD_DUPLICATES") {
                return Err(PollResponseError::ErrorBadDuplicates);
            }
            if str_eq(code, "ERROR_REPORT_NOT_RECORDED") {
                return Err(PollResponseError::ErrorReportNotRecorded);
            }
            if str_eq(code, "ERROR_DUPLICATE_REPORT") {
                return Err(PollResponseError::ErrorDuplicateReport);
            }
            if starts_with_str(code, "ERROR:") {
                proof {
                    reveal_strlit("ERROR:");
                }
                let len = code.unicode_len();
                let suffix = code.substring_char(6, len);
                let trimmed = trim_str(suffix);
                proof {
                    assert(suffix@ =~= self.request@.skip(6));
                }
                return Err(
                    PollResponseError::RequestLimitExceeded {
                        code: trimmed.to_owned(),
                    },
                );
            }
            if str_eq(code, "ERROR_IP_ADDRES") {
                return Err(PollResponseError::ErrorIpAddres);
            }
            if str_eq(code, "ERROR_TOKEN_EXPIRED") {
                return Err(PollResponseError::ErrorTokenExpired);
            }
            if str_eq(code, "ERROR_EMPTY_ACTION") {
                return Err(PollResponseError::ErrorEmptyAction);
            }
            if str_eq(code, "ERROR_PROXY_CONNECTION_FAILED") {
                return Err(PollResponseError::ErrorProxyConnectionFailed);
            }
        }
        Err(PollResponseError::UnexpectedApiResponse(self))
    }
}

} // verus!
