//! The response envelope shared by every endpoint, and error replies.
use vstd::prelude::*;

verus! {

/// Machine-readable code and human message of a failed request.
#[derive(Clone, Debug)]
pub struct ApiError {
    pub code: String,
    pub message: String,
}

/// Envelope of every response body: `{success, data?, error?}`.
#[derive(Clone, Debug)]
pub struct ApiResponse<T> {
    pub success: bool,
    pub data: Option<T>,
    pub error: Option<ApiError>,
}

impl<T> ApiResponse<T> {
    pub fn success(data: T) -> (r: ApiResponse<T>)
        ensures
            r.success,
            r.data == Some(data),
            r.error is None,
    {
        ApiResponse { success: true, data: Some(data), error: None }
    }

    pub fn error(code: String, message: String) -> (r: ApiResponse<T>)
        ensures
            !r.success,
            r.data is None,
            r.error matches Some(e) && e.code@ == code@ && e.message@ == message@,
    {
        ApiResponse { success: false, data: None, error: Some(ApiError { code, message }) }
    }
}

/// A failed request as the client sees it: status, the `WWW-Authenticate`
/// challenge where there is one, and the error envelope.
#[derive(Clone, Debug)]
pub struct ErrorReply {
    pub status: u16,
    pub www_authenticate: Option<String>,
    pub body: ApiResponse<()>,
}

pub ghost struct ReplyView {
    pub status: u16,
    pub challenge: Option<Seq<char>>,
    pub code: Seq<char>,
    pub message: Seq<char>,
}

impl View for ErrorReply {
    type V = ReplyView;

    open spec fn view(&self) -> ReplyView {
        ReplyView {
            status: self.status,
            challenge: match self.www_authenticate {
                Some(c) => Some(c@),
                None => None,
            },
            code: match self.body.error {
                Some(e) => e.code@,
                None => Seq::empty(),
            },
            message: match self.body.error {
                Some(e) => e.message@,
                None => Seq::empty(),
            },
        }
    }
}

/// An error envelope in which the body carries no data and `success` is false.
pub open spec fn is_error_body(r: ErrorReply) -> bool {
    !r.body.success && r.body.data is None && r.body.error is Some
}

impl ErrorReply {
    pub fn new(status: u16, challenge: Option<&str>, code: &str, message: &str) -> (r: ErrorReply)
        ensures
            is_error_body(r),
            r@ == (ReplyView {
                status,
                challenge: match challenge {
                    Some(c) => Some(c@),
                    None => None,
                },
                code: code@,
                message: message@,
            }),
    {
        let www_authenticate = match challenge {
            Some(c) => Some(c.to_string()),
            None => None,
        };
        ErrorReply {
            status,
            www_authenticate,
            body: ApiResponse::error(code.to_string(), message.to_string()),
        }
    }
}

} // verus!
