//! Captcha payloads, the builder that validates them, and the layout of the
//! submit request each payload turns into.

use vstd::prelude::*;

use crate::ApiToken;
use crate::b64::{base64_decode, base64_decoding, base64_encode, base64_encoding};
use crate::kv_view;

verus! {

/// A finalized captcha payload: exactly one image source, plus the
/// case-sensitivity flag passed on to the solver.
pub struct Captcha {
    captcha_data: CaptchaData,
    is_case_sensitive: bool,
}

/// Collects payload settings and validates them before a [`Captcha`] exists.
pub struct CaptchaBuilder {
    maybe_captcha_data: Option<CaptchaData>,
    is_case_sensitive: bool,
}

enum CaptchaData {
    UploadFile(String),
    Base64(String),
}

/// Mathematical image of a payload source.
pub enum CaptchaDataView {
    UploadFile(Seq<char>),
    Base64(Seq<char>),
}

/// Mathematical image of [`Captcha`].
pub struct CaptchaView {
    pub data: CaptchaDataView,
    pub is_case_sensitive: bool,
}

/// Mathematical image of [`CaptchaBuilder`].
pub struct CaptchaBuilderView {
    pub data: Option<CaptchaDataView>,
    pub is_case_sensitive: bool,
}

impl View for CaptchaData {
    type V = CaptchaDataView;

    closed spec fn view(&self) -> CaptchaDataView {
        match self {
            CaptchaData::UploadFile(path) => CaptchaDataView::UploadFile(path@),
            CaptchaData::Base64(data) => CaptchaDataView::Base64(data@),
        }
    }
}

impl View for Captcha {
    type V = CaptchaView;

    closed spec fn view(&self) -> CaptchaView {
        CaptchaView { data: self.captcha_data@, is_case_sensitive: self.is_case_sensitive }
    }
}

impl View for CaptchaBuilder {
    type V = CaptchaBuilderView;

    closed spec fn view(&self) -> CaptchaBuilderView {
        CaptchaBuilderView {
            data: match &self.maybe_captcha_data {
                Some(data) => Some(data@),
                None => None,
            },
            is_case_sensitive: self.is_case_sensitive,
        }
    }
}

/// Why a payload could not be built.
#[derive(Debug)]
pub enum BuilderError {
    InvalidBase64 { source: String, error: base64::DecodeError },
    CaptchaImageIsNotProvided,
}

impl CaptchaBuilder {
    /// A fresh builder: no image source yet, case-insensitive by default.
    pub fn new() -> (r: CaptchaBuilder)
        ensures
            r@.data is None,
            !r@.is_case_sensitive,
    {
        CaptchaBuilder { maybe_captcha_data: None, is_case_sensitive: false }
    }

    /// Selects a file on disk as the image source; the file itself is only
    /// opened when the submit request is sent.
    pub fn set_upload_file(self, path: String) -> (r: Self)
        ensures
            r@.data == Some(CaptchaDataView::UploadFile(path@)),
            r@.is_case_sensitive == self@.is_case_sensitive,
    {
        CaptchaBuilder {
            maybe_captcha_data: Some(CaptchaData::UploadFile(path)),
            is_case_sensitive: self.is_case_sensitive,
        }
    }

    /// Takes an already base64-encoded image as the source, rejecting input
    /// that does not decode.
    pub fn set_image_data_base64(self, base64_str: &str) -> (r: Result<Self, BuilderError>)
        ensures
            base64_decoding(base64_str@) is Some <==> r is Ok,
            r matches Ok(b) ==> {
                &&& b@.data == Some(CaptchaDataView::Base64(base64_str@))
                &&& b@.is_case_sensitive == self@.is_case_sensitive
            },
            r matches Err(e) ==> e matches BuilderError::InvalidBase64 { source, error: _ }
                && source@ == base64_str@,
    {
        match base64_decode(base64_str) {
            Ok(_) => Ok(
                CaptchaBuilder {
                    maybe_captcha_data: Some(CaptchaData::Base64(base64_str.to_owned())),
                    is_case_sensitive: self.is_case_sensitive,
                },
            ),
            Err(error) => Err(
                BuilderError::InvalidBase64 { source: base64_str.to_owned(), error },
            ),
        }
    }

    /// Encodes raw image bytes as base64 and takes that as the source.
    pub fn set_image_data_encode_as_base64(self, image_data: &[u8]) -> (r: Self)
        ensures
            r@.data == Some(CaptchaDataView::Base64(base64_encoding(image_data@))),
            r@.is_case_sensitive == self@.is_case_sensitive,
    {
        let base64_string = base64_encode(image_data);
        CaptchaBuilder {
            maybe_captcha_data: Some(CaptchaData::Base64(base64_string)),
            is_case_sensitive: self.is_case_sensitive,
        }
    }

    /// Sets whether letter case matters in the solved answer.
    pub fn set_case_sensitive(self, is_case_sensitive: bool) -> (r: Self)
        ensures
            r@.data == self@.data,
            r@.is_case_sensitive == is_case_sensitive,
    {
        CaptchaBuilder { maybe_captcha_data: self.maybe_captcha_data, is_case_sensitive }
    }

    /// Succeeds exactly when an image source was set; the last source set
    /// wins, so a finished payload has exactly one.
    pub fn finish(self) -> (r: Result<Captcha, BuilderError>)
        ensures
            self@.data is Some <==> r is Ok,
            r matches Ok(c) ==> {
                &&& Some(c@.data) == self@.data
                &&& c@.is_case_sensitive == self@.is_case_sensitive
            },
            r matches Err(e) ==> e is CaptchaImageIsNotProvided,
    {
        if let Some(captcha_data) = self.maybe_captcha_data {
            Ok(Captcha { captcha_data, is_case_sensitive: self.is_case_sensitive })
        } else {
            Err(BuilderError::CaptchaImageIsNotProvided)
        }
    }
}

/// Why a finished payload still failed at request-build time: the referenced
/// image file could not be opened. Detecting this is the caller's part, since
/// the file is only opened when the request is sent.
#[derive(Debug)]
pub enum PrepareRequestError {
    CaptchaImageFileOpen { filename: String, message: String },
}

/// The outbound submit request, with every form field laid out. A file
/// source becomes a multipart body whose file part streams the referenced
/// file; an inline source becomes a URL-encoded form.
pub enum SubmitRequest {
    Multipart {
        fields: Vec<(String, String)>,
        file_part_name: String,
        file_path: String,
        file_name: String,
    },
    UrlEncodedForm { fields: Vec<(String, String)> },
}

/// The submit option telling the solver whether letter case matters.
pub open spec fn spec_regsense(is_case_sensitive: bool) -> Seq<char> {
    if is_case_sensitive {
        "1"@
    } else {
        "0"@
    }
}

impl Captcha {
    /// Lays out the submit request for this payload under the given
    /// credential, per source kind as [`SubmitRequest`] describes.
    pub fn prepare_request(&self, api_token: &ApiToken) -> (r: SubmitRequest)
        ensures
            (match self@.data {
                CaptchaDataView::UploadFile(path) => r matches SubmitRequest::Multipart {
                    fields,
                    file_part_name,
                    file_path,
                    file_name,
                } && {
                    &&& kv_view(fields@) == seq![
                        ("method"@, "post"@),
                        ("key"@, api_token@),
                        ("json"@, "1"@),
                        ("regsense"@, spec_regsense(self@.is_case_sensitive)),
                    ]
                    &&& file_part_name@ == "file"@
                    &&& file_path@ == path
                    &&& file_name@ == path
                },
                CaptchaDataView::Base64(data) => r matches SubmitRequest::UrlEncodedForm {
                    fields,
                } && kv_view(fields@) == seq![
                    ("method"@, "base64"@),
                    ("key"@, api_token@),
                    ("json"@, "1"@),
                    ("regsense"@, spec_regsense(self@.is_case_sensitive)),
                    ("body"@, data),
                ],
            }),
    {
        let regsense = if self.is_case_sensitive {
            String::from_str("1")
        } else {
            String::from_str("0")
        };
        match &self.captcha_data {
            CaptchaData::UploadFile(path) => {
                let mut fields: Vec<(String, String)> = Vec::new();
                fields.push((String::from_str("method"), String::from_str("post")));
                fields.push((String::from_str("key"), api_token.key().to_owned()));
                fields.push((String::from_str("json"), String::from_str("1")));
                fields.push((String::from_str("regsense"), regsense));
                proof {
                    assert(kv_view(fields@) =~= seq![
                        ("method"@, "post"@),
                        ("key"@, api_token@),
                        ("json"@, "1"@),
                        ("regsense"@, spec_regsense(self@.is_case_sensitive)),
                    ]);
                }
                SubmitRequest::Multipart {
                    fields,
                    file_part_name: String::from_str("file"),
                    file_path: path.clone(),
                    file_name: path.clone(),
                }
            },
            CaptchaData::Base64(base64_string) => {
                let mut fields: Vec<(String, String)> = Vec::new();
                fields.push((String::from_str("method"), String::from_str("base64")));
                fields.push((String::from_str("key"), api_token.key().to_owned()));
                fields.push((String::from_str("json"), String::from_str("1")));
                fields.push((String::from_str("regsense"), regsense));
                fields.push((String::from_str("body"), base64_string.clone()));
                proof {
                    assert(kv_view(fields@) =~= seq![
                        ("method"@, "base64"@),
                        ("key"@, api_token@),
                        ("json"@, "1"@),
                        ("regsense"@, spec_regsense(self@.is_case_sensitive)),
                        ("body"@, base64_string@),
                    ]);
                }
                SubmitRequest::UrlEncodedForm { fields }
            },
        }
    }
}

} // verus!
