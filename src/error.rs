//! The error envelope: a status code, its reason phrase and optional JSON
//! data, rendered as one JSON body.

use vstd::prelude::*;

use crate::json::{lemma_object_model, members_model, merge, merged, Json, JsonModel};
use crate::status::{decimal, decimal_text, reason_of, standard_reason};

verus! {

/// The JSON object that a response for `code` and `reason` carries before
/// any extra data is merged in: `{"status": code, "reason": reason}`.
pub open spec fn envelope(code: u16, reason: Seq<char>) -> JsonModel {
    JsonModel::Object(
        seq![
            ("status"@, JsonModel::Number(decimal(code as nat))),
            ("reason"@, JsonModel::Str(reason)),
        ],
    )
}

/// The response body for `code` and `reason`, with `extra` merged into the
/// envelope where there is any.
pub open spec fn body_of(code: u16, reason: Seq<char>, extra: Option<JsonModel>) -> JsonModel {
    match extra {
        Some(d) => merged(envelope(code, reason), d),
        None => envelope(code, reason),
    }
}

/// An HTTP error that responds with a JSON body: its status code, its reason
/// phrase and, optionally, JSON data merged into the body.
#[derive(Debug, PartialEq)]
pub struct Error {
    pub code: u16,
    pub reason: &'static str,
    /// JSON data merged into the body, where there is any.
    pub data: Option<Json>,
}

/// A result whose error is an [`Error`].
pub type Result<R> = std::result::Result<R, Error>;

#[allow(non_snake_case)]
impl Error {
    /// The model of the extra data, where there is any.
    pub open spec fn extra(&self) -> Option<JsonModel> {
        match self.data {
            Some(d) => Some(d@),
            None => None,
        }
    }

    /// An error with the given code and reason and no extra data.
    pub fn new(code: u16, reason: &'static str) -> (r: Error)
        ensures
            r.code == code,
            r.reason == reason,
            r.extra() is None,
    {
        Error { code, reason, data: None }
    }

    /// The same error, with `data` as its extra data in place of any it had.
    pub fn extend(self, data: Json) -> (r: Error)
        ensures
            r.code == self.code,
            r.reason == self.reason,
            r.extra() == Some(data@),
    {
        Error { code: self.code, reason: self.reason, data: Some(data) }
    }

    /// The error for a supported status code, with its standard reason
    /// phrase; `None` for any other code.
    pub fn from_status(code: u16) -> (r: Option<Error>)
        ensures
            match standard_reason(code) {
                Some(p) => r matches Some(e) && e.code == code && e.reason@ == p && e.extra() is None,
                None => r is None,
            },
    {
        match reason_of(code) {
            Some(reason) => Some(Error::new(code, reason)),
            None => None,
        }
    }

    /// The JSON body of the response: `{"status": code, "reason": reason}`
    /// with the extra data, if any, merged into it.
    pub fn body(&self) -> (r: Json)
        ensures
            r@ == body_of(self.code, self.reason@, self.extra()),
    {
        let mut members: Vec<(String, Json)> = Vec::new();
        members.push(("status".to_owned(), Json::Number(decimal_text(self.code))));
        members.push(("reason".to_owned(), Json::String(self.reason.to_owned())));
        proof {
            lemma_object_model(members);
            assert(members_model(members@) =~= seq![
                ("status"@, JsonModel::Number(decimal(self.code as nat))),
                ("reason"@, JsonModel::Str(self.reason@)),
            ]);
        }
        let base = Json::Object(members);
        match &self.data {
            Some(d) => merge(&base, d),
            None => base,
        }
    }

    /// [`Error`] with code 300 and reason "Multiple Choices".
    pub fn MultipleChoices() -> (r: Error)
        ensures
            r.code == 300,
            r.reason@ == "Multiple Choices"@,
            r.extra() is None,
    {
        Error::new(300, "Multiple Choices")
    }

    /// [`Error`] with code 301 and reason "Moved Permanently".
    pub fn MovedPermanently() -> (r: Error)
        ensures
            r.code == 301,
            r.reason@ == "Moved Permanently"@,
            r.extra() is None,
    {
        Error::new(301, "Moved Permanently")
    }

    /// [`Error`] with code 302 and reason "Found".
    pub fn Found() -> (r: Error)
        ensures
            r.code == 302,
            r.reason@ == "Found"@,
            r.extra() is None,
    {
        Error::new(302, "Found")
    }

    /// [`Error`] with code 303 and reason "See Other".
    pub fn SeeOther() -> (r: Error)
        ensures
            r.code == 303,
            r.reason@ == "See Other"@,
            r.extra() is None,
    {
        Error::new(303, "See Other")
    }

    /// [`Error`] with code 304 and reason "Not Modified".
    pub fn NotModified() -> (r: Error)
        ensures
            r.code == 304,
            r.reason@ == "Not Modified"@,
            r.extra() is None,
    {
        Error::new(304, "Not Modified")
    }

    /// [`Error`] with code 305 and reason "Use Proxy".
    pub fn UseProxy() -> (r: Error)
        ensures
            r.code == 305,
            r.reason@ == "Use Proxy"@,
            r.extra() is None,
    {
        Error::new(305, "Use Proxy")
    }

    /// [`Error`] with code 307 and reason "Temporary Redirect".
    pub fn TemporaryRedirect() -> (r: Error)
        ensures
            r.code == 307,
            r.reason@ == "Temporary Redirect"@,
            r.extra() is None,
    {
        Error::new(307, "Temporary Redirect")
    }

    /// [`Error`] with code 308 and reason "Permanent Redirect".
    pub fn PermanentRedirect() -> (r: Error)
        ensures
            r.code == 308,
            r.reason@ == "Permanent Redirect"@,
            r.extra() is None,
    {
        Error::new(308, "Permanent Redirect")
    }

    /// [`Error`] with code 400 and reason "Bad Request".
    pub fn BadRequest() -> (r: Error)
        ensures
            r.code == 400,
            r.reason@ == "Bad Request"@,
            r.extra() is None,
    {
        Error::new(400, "Bad Request")
    }

    /// [`Error`] with code 401 and reason "Unauthorized".
    pub fn Unauthorized() -> (r: Error)
        ensures
            r.code == 401,
            r.reason@ == "Unauthorized"@,
            r.extra() is None,
    {
        Error::new(401, "Unauthorized")
    }

    /// [`Error`] with code 402 and reason "Payment Required".
    pub fn PaymentRequired() -> (r: Error)
        ensures
            r.code == 402,
            r.reason@ == "Payment Required"@,
            r.extra() is None,
    {
        Error::new(402, "Payment Required")
    }

    /// [`Error`] with code 403 and reason "Forbidden".
    pub fn Forbidden() -> (r: Error)
        ensures
            r.code == 403,
            r.reason@ == "Forbidden"@,
            r.extra() is None,
    {
        Error::new(403, "Forbidden")
    }

    /// [`Error`] with code 404 and reason "Not Found".
    pub fn NotFound() -> (r: Error)
        ensures
            r.code == 404,
            r.reason@ == "Not Found"@,
            r.extra() is None,
    {
        Error::new(404, "Not Found")
    }

    /// [`Error`] with code 405 and reason "Method Not Allowed".
    pub fn MethodNotAllowed() -> (r: Error)
        ensures
            r.code == 405,
            r.reason@ == "Method Not Allowed"@,
            r.extra() is None,
    {
        Error::new(405, "Method Not Allowed")
    }

    /// [`Error`] with code 406 and reason "Not Acceptable".
    pub fn NotAcceptable() -> (r: Error)
        ensures
            r.code == 406,
            r.reason@ == "Not Acceptable"@,
            r.extra() is None,
    {
        Error::new(406, "Not Acceptable")
    }

    /// [`Error`] with code 407 and reason "Proxy Authentication Required".
    pub fn ProxyAuthenticationRequired() -> (r: Error)
        ensures
            r.code == 407,
            r.reason@ == "Proxy Authentication Required"@,
            r.extra() is None,
    {
        Error::new(407, "Proxy Authentication Required")
    }

    /// [`Error`] with code 408 and reason "Request Timeout".
    pub fn RequestTimeout() -> (r: Error)
        ensures
            r.code == 408,
            r.reason@ == "Request Timeout"@,
            r.extra() is None,
    {
        Error::new(408, "Request Timeout")
    }

    /// [`Error`] with code 409 and reason "Conflict".
    pub fn Conflict() -> (r: Error)
        ensures
            r.code == 409,
            r.reason@ == "Conflict"@,
            r.extra() is None,
    {
        Error::new(409, "Conflict")
    }

    /// [`Error`] with code 410 and reason "Gone".
    pub fn Gone() -> (r: Error)
        ensures
            r.code == 410,
            r.reason@ == "Gone"@,
            r.extra() is None,
    {
        Error::new(410, "Gone")
    }

    /// [`Error`] with code 411 and reason "Length Required".
    pub fn LengthRequired() -> (r: Error)
        ensures
            r.code == 411,
            r.reason@ == "Length Required"@,
            r.extra() is None,
    {
        Error::new(411, "Length Required")
    }

    /// [`Error`] with code 412 and reason "Precondition Failed".
    pub fn PreconditionFailed() -> (r: Error)
        ensures
            r.code == 412,
            r.reason@ == "Precondition Failed"@,
            r.extra() is None,
    {
        Error::new(412, "Precondition Failed")
    }

    /// [`Error`] with code 413 and reason "Payload Too Large".
    pub fn PayloadTooLarge() -> (r: Error)
        ensures
            r.code == 413,
            r.reason@ == "Payload Too Large"@,
            r.extra() is None,
    {
        Error::new(413, "Payload Too Large")
    }

    /// [`Error`] with code 414 and reason "URI Too Long".
    pub fn UriTooLong() -> (r: Error)
        ensures
            r.code == 414,
            r.reason@ == "URI Too Long"@,
            r.extra() is None,
    {
        Error::new(414, "URI Too Long")
    }

    /// [`Error`] with code 415 and reason "Unsupported Media Type".
    pub fn UnsupportedMediaType() -> (r: Error)
        ensures
            r.code == 415,
            r.reason@ == "Unsupported Media Type"@,
            r.extra() is None,
    {
        Error::new(415, "Unsupported Media Type")
    }

    /// [`Error`] with code 416 and reason "Range Not Satisfiable".
    pub fn RangeNotSatisfiable() -> (r: Error)
        ensures
            r.code == 416,
            r.reason@ == "Range Not Satisfiable"@,
            r.extra() is None,
    {
        Error::new(416, "Range Not Satisfiable")
    }

    /// [`Error`] with code 417 and reason "Expectation Failed".
    pub fn ExpectationFailed() -> (r: Error)
        ensures
            r.code == 417,
            r.reason@ == "Expectation Failed"@,
            r.extra() is None,
    {
        Error::new(417, "Expectation Failed")
    }

    /// [`Error`] with code 418 and reason "I'm a teapot".
    pub fn ImATeapot() -> (r: Error)
        ensures
            r.code == 418,
            r.reason@ == "I'm a teapot"@,
            r.extra() is None,
    {
        Error::new(418, "I'm a teapot")
    }

    /// [`Error`] with code 421 and reason "Misdirected Request".
    pub fn MisdirectedRequest() -> (r: Error)
        ensures
            r.code == 421,
            r.reason@ == "Misdirected Request"@,
            r.extra() is None,
    {
        Error::new(421, "Misdirected Request")
    }

    /// [`Error`] with code 422 and reason "Unprocessable Entity".
    pub fn UnprocessableEntity() -> (r: Error)
        ensures
            r.code == 422,
            r.reason@ == "Unprocessable Entity"@,
            r.extra() is None,
    {
        Error::new(422, "Unprocessable Entity")
    }

    /// [`Error`] with code 423 and reason "Locked".
    pub fn Locked() -> (r: Error)
        ensures
            r.code == 423,
            r.reason@ == "Locked"@,
            r.extra() is None,
    {
        Error::new(423, "Locked")
    }

    /// [`Error`] with code 424 and reason "Failed Dependency".
    pub fn FailedDependency() -> (r: Error)
        ensures
            r.code == 424,
            r.reason@ == "Failed Dependency"@,
            r.extra() is None,
    {
        Error::new(424, "Failed Dependency")
    }

    /// [`Error`] with code 426 and reason "Upgrade Required".
    pub fn UpgradeRequired() -> (r: Error)
        ensures
            r.code == 426,
            r.reason@ == "Upgrade Required"@,
            r.extra() is None,
    {
        Error::new(426, "Upgrade Required")
    }

    /// [`Error`] with code 428 and reason "Precondition Required".
    pub fn PreconditionRequired() -> (r: Error)
        ensures
            r.code == 428,
            r.reason@ == "Precondition Required"@,
            r.extra() is None,
    {
        Error::new(428, "Precondition Required")
    }

    /// [`Error`] with code 429 and reason "Too Many Requests".
    pub fn TooManyRequests() -> (r: Error)
        ensures
            r.code == 429,
            r.reason@ == "Too Many Requests"@,
            r.extra() is None,
    {
        Error::new(429, "Too Many Requests")
    }

    /// [`Error`] with code 431 and reason "Request Header Fields Too Large".
    pub fn RequestHeaderFieldsTooLarge() -> (r: Error)
        ensures
            r.code == 431,
            r.reason@ == "Request Header Fields Too Large"@,
            r.extra() is None,
    {
        Error::new(431, "Request Header Fields Too Large")
    }

    /// [`Error`] with code 451 and reason "Unavailable For Legal Reasons".
    pub fn UnavailableForLegalReasons() -> (r: Error)
        ensures
            r.code == 451,
            r.reason@ == "Unavailable For Legal Reasons"@,
            r.extra() is None,
    {
        Error::new(451, "Unavailable For Legal Reasons")
    }

    /// [`Error`] with code 500 and reason "Internal Server Error".
    pub fn InternalServerError() -> (r: Error)
        ensures
            r.code == 500,
            r.reason@ == "Internal Server Error"@,
            r.extra() is None,
    {
        Error::new(500, "Internal Server Error")
    }

    /// [`Error`] with code 501 and reason "Not Implemented".
    pub fn NotImplemented() -> (r: Error)
        ensures
            r.code == 501,
            r.reason@ == "Not Implemented"@,
            r.extra() is None,
    {
        Error::new(501, "Not Implemented")
    }

    /// [`Error`] with code 502 and reason "Bad Gateway".
    pub fn BadGateway() -> (r: Error)
        ensures
            r.code == 502,
            r.reason@ == "Bad Gateway"@,
            r.extra() is None,
    {
        Error::new(502, "Bad Gateway")
    }

    /// [`Error`] with code 503 and reason "Service Unavailable".
    pub fn ServiceUnavailable() -> (r: Error)
        ensures
            r.code == 503,
            r.reason@ == "Service Unavailable"@,
            r.extra() is None,
    {
        Error::new(503, "Service Unavailable")
    }

    /// [`Error`] with code 504 and reason "Gateway Timeout".
    pub fn GatewayTimeout() -> (r: Error)
        ensures
            r.code == 504,
            r.reason@ == "Gateway Timeout"@,
            r.extra() is None,
    {
        Error::new(504, "Gateway Timeout")
    }

    /// [`Error`] with code 505 and reason "HTTP Version Not Supported".
    pub fn HttpVersionNotSupported() -> (r: Error)
        ensures
            r.code == 505,
            r.reason@ == "HTTP Version Not Supported"@,
            r.extra() is None,
    {
        Error::new(505, "HTTP Version Not Supported")
    }

    /// [`Error`] with code 506 and reason "Variant Also Negotiates".
    pub fn VariantAlsoNegotiates() -> (r: Error)
        ensures
            r.code == 506,
            r.reason@ == "Variant Also Negotiates"@,
            r.extra() is None,
    {
        Error::new(506, "Variant Also Negotiates")
    }

    /// [`Error`] with code 507 and reason "Insufficient Storage".
    pub fn InsufficientStorage() -> (r: Error)
        ensures
            r.code == 507,
            r.reason@ == "Insufficient Storage"@,
            r.extra() is None,
    {
        Error::new(507, "Insufficient Storage")
    }

    /// [`Error`] with code 508 and reason "Loop Detected".
    pub fn LoopDetected() -> (r: Error)
        ensures
            r.code == 508,
            r.reason@ == "Loop Detected"@,
            r.extra() is None,
    {
        Error::new(508, "Loop Detected")
    }

    /// [`Error`] with code 510 and reason "Not Extended".
    pub fn NotExtended() -> (r: Error)
        ensures
            r.code == 510,
            r.reason@ == "Not Extended"@,
            r.extra() is None,
    {
        Error::new(510, "Not Extended")
    }

    /// [`Error`] with code 511 and reason "Network Authentication Required".
    pub fn NetworkAuthenticationRequired() -> (r: Error)
        ensures
            r.code == 511,
            r.reason@ == "Network Authentication Required"@,
            r.extra() is None,
    {
        Error::new(511, "Network Authentication Required")
    }
}

} // verus!
