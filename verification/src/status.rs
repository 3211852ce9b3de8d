//! The status registry: the closed set of registered HTTP status codes and
//! their canonical reason phrases, as two total inverse mappings.
use vstd::prelude::*;

verus! {

/// One registered HTTP status code. The set is closed: a `u16` outside it
/// has no corresponding variant and is rejected by [`HttpStatusCode::from_u16`].
#[derive(Debug, Clone, Copy, PartialEq, Eq)]
pub enum HttpStatusCode {
    Continue,
    SwitchingProtocols,
    Processing,
    OK,
    Created,
    Accepted,
    NonAuthoritativeInformation,
    NoContent,
    ResetContent,
    PartialContent,
    MultiStatus,
    AlreadyReported,
    IMUsed,
    MultipleChoices,
    MovedPermanently,
    Found,
    SeeOther,
    NotModified,
    UseProxy,
    TemporaryRedirect,
    PermanentRedirect,
    BadRequest,
    Unauthorized,
    PaymentRequired,
    Forbidden,
    NotFound,
    MethodNotAllowed,
    NotAcceptable,
    ProxyAuthenticationRequired,
    RequestTimeout,
    Conflict,
    Gone,
    LengthRequired,
    PreconditionFailed,
    PayloadTooLarge,
    URITooLong,
    UnsupportedMediaType,
    RangeNotSatisfiable,
    ExpectationFailed,
    ImATeapot,
    MisdirectedRequest,
    UnprocessableEntity,
    Locked,
    FailedDependency,
    TooEarly,
    UpgradeRequired,
    PreconditionRequired,
    TooManyRequests,
    RequestHeaderFieldsTooLarge,
    UnavailableForLegalReasons,
    InternalServerError,
    NotImplemented,
    BadGateway,
    ServiceUnavailable,
    GatewayTimeout,
    HTTPVersionNotSupported,
    VariantAlsoNegotiates,
    InsufficientStorage,
    LoopDetected,
    NotExtended,
    NetworkAuthenticationRequired,
}

/// Whether `value` is one of the registered status codes.
pub open spec fn is_registered(value: u16) -> bool {
    (100 <= value <= 102) || (200 <= value <= 208) || value == 226
        || (300 <= value <= 305) || value == 307 || value == 308
        || (400 <= value <= 418) || (421 <= value <= 426) || value == 428
        || value == 429 || value == 431 || value == 451
        || (500 <= value <= 508) || value == 510 || value == 511
}

impl HttpStatusCode {
    /// The numeric code of this variant.
    pub open spec fn spec_code(self) -> u16 {
        match self {
            HttpStatusCode::Continue => 100,
            HttpStatusCode::SwitchingProtocols => 101,
            HttpStatusCode::Processing => 102,
            HttpStatusCode::OK => 200,
            HttpStatusCode::Created => 201,
            HttpStatusCode::Accepted => 202,
            HttpStatusCode::NonAuthoritativeInformation => 203,
            HttpStatusCode::NoContent => 204,
            HttpStatusCode::ResetContent => 205,
            HttpStatusCode::PartialContent => 206,
            HttpStatusCode::MultiStatus => 207,
            HttpStatusCode::AlreadyReported => 208,
            HttpStatusCode::IMUsed => 226,
            HttpStatusCode::MultipleChoices => 300,
            HttpStatusCode::MovedPermanently => 301,
            HttpStatusCode::Found => 302,
            HttpStatusCode::SeeOther => 303,
            HttpStatusCode::NotModified => 304,
            HttpStatusCode::UseProxy => 305,
            HttpStatusCode::TemporaryRedirect => 307,
            HttpStatusCode::PermanentRedirect => 308,
            HttpStatusCode::BadRequest => 400,
            HttpStatusCode::Unauthorized => 401,
            HttpStatusCode::PaymentRequired => 402,
            HttpStatusCode::Forbidden => 403,
            HttpStatusCode::NotFound => 404,
            HttpStatusCode::MethodNotAllowed => 405,
            HttpStatusCode::NotAcceptable => 406,
            HttpStatusCode::ProxyAuthenticationRequired => 407,
            HttpStatusCode::RequestTimeout => 408,
            HttpStatusCode::Conflict => 409,
            HttpStatusCode::Gone => 410,
            HttpStatusCode::LengthRequired => 411,
            HttpStatusCode::PreconditionFailed => 412,
            HttpStatusCode::PayloadTooLarge => 413,
            HttpStatusCode::URITooLong => 414,
            HttpStatusCode::UnsupportedMediaType => 415,
            HttpStatusCode::RangeNotSatisfiable => 416,
            HttpStatusCode::ExpectationFailed => 417,
            HttpStatusCode::ImATeapot => 418,
            HttpStatusCode::MisdirectedRequest => 421,
            HttpStatusCode::UnprocessableEntity => 422,
            HttpStatusCode::Locked => 423,
            HttpStatusCode::FailedDependency => 424,
            HttpStatusCode::TooEarly => 425,
            HttpStatusCode::UpgradeRequired => 426,
            HttpStatusCode::PreconditionRequired => 428,
            HttpStatusCode::TooManyRequests => 429,
            HttpStatusCode::RequestHeaderFieldsTooLarge => 431,
            HttpStatusCode::UnavailableForLegalReasons => 451,
            HttpStatusCode::InternalServerError => 500,
            HttpStatusCode::NotImplemented => 501,
            HttpStatusCode::BadGateway => 502,
            HttpStatusCode::ServiceUnavailable => 503,
            HttpStatusCode::GatewayTimeout => 504,
            HttpStatusCode::HTTPVersionNotSupported => 505,
            HttpStatusCode::VariantAlsoNegotiates => 506,
            HttpStatusCode::InsufficientStorage => 507,
            HttpStatusCode::LoopDetected => 508,
            HttpStatusCode::NotExtended => 510,
            HttpStatusCode::NetworkAuthenticationRequired => 511,
        }
    }

    /// The canonical reason phrase of this variant, as a character sequence.
    pub open spec fn spec_phrase(self) -> Seq<char> {
        match self {
            HttpStatusCode::Continue => "Continue"@,
            HttpStatusCode::SwitchingProtocols => "Switching Protocols"@,
            HttpStatusCode::Processing => "Processing"@,
            HttpStatusCode::OK => "OK"@,
            HttpStatusCode::Created => "Created"@,
            HttpStatusCode::Accepted => "Accepted"@,
            HttpStatusCode::NonAuthoritativeInformation => "Non-Authoritative Information"@,
            HttpStatusCode::NoContent => "No Content"@,
            HttpStatusCode::ResetContent => "Reset Content"@,
            HttpStatusCode::PartialContent => "Partial Content"@,
            HttpStatusCode::MultiStatus => "Multi-Status"@,
            HttpStatusCode::AlreadyReported => "Already Reported"@,
            HttpStatusCode::IMUsed => "IM Used"@,
            HttpStatusCode::MultipleChoices => "Multiple Choices"@,
            HttpStatusCode::MovedPermanently => "Moved Permanently"@,
            HttpStatusCode::Found => "Found"@,
            HttpStatusCode::SeeOther => "See Other"@,
            HttpStatusCode::NotModified => "Not Modified"@,
            HttpStatusCode::UseProxy => "Use Proxy"@,
            HttpStatusCode::TemporaryRedirect => "Temporary Redirect"@,
            HttpStatusCode::PermanentRedirect => "Permanent Redirect"@,
            HttpStatusCode::BadRequest => "Bad Request"@,
            HttpStatusCode::Unauthorized => "Unauthorized"@,
            HttpStatusCode::PaymentRequired => "Payment Required"@,
            HttpStatusCode::Forbidden => "Forbidden"@,
            HttpStatusCode::NotFound => "Not Found"@,
            HttpStatusCode::MethodNotAllowed => "Method Not Allowed"@,
            HttpStatusCode::NotAcceptable => "Not Acceptable"@,
            HttpStatusCode::ProxyAuthenticationRequired => "Proxy Authentication Required"@,
            HttpStatusCode::RequestTimeout => "Request Timeout"@,
            HttpStatusCode::Conflict => "Conflict"@,
            HttpStatusCode::Gone => "Gone"@,
            HttpStatusCode::LengthRequired => "Length Required"@,
            HttpStatusCode::PreconditionFailed => "Precondition Failed"@,
            HttpStatusCode::PayloadTooLarge => "Payload Too Large"@,
            HttpStatusCode::URITooLong => "URI Too Long"@,
            HttpStatusCode::UnsupportedMediaType => "Unsupported Media Type"@,
            HttpStatusCode::RangeNotSatisfiable => "Range Not Satisfiable"@,
            HttpStatusCode::ExpectationFailed => "Expectation Failed"@,
            HttpStatusCode::ImATeapot => "I'm a teapot"@,
            HttpStatusCode::MisdirectedRequest => "Misdirected Request"@,
            HttpStatusCode::UnprocessableEntity => "Unprocessable Entity"@,
            HttpStatusCode::Locked => "Locked"@,
            HttpStatusCode::FailedDependency => "Failed Dependency"@,
            HttpStatusCode::TooEarly => "Too Early"@,
            HttpStatusCode::UpgradeRequired => "Upgrade Required"@,
            HttpStatusCode::PreconditionRequired => "Precondition Required"@,
            HttpStatusCode::TooManyRequests => "Too Many Requests"@,
            HttpStatusCode::RequestHeaderFieldsTooLarge => "Request Header Fields Too Large"@,
            HttpStatusCode::UnavailableForLegalReasons => "Unavailable For Legal Reasons"@,
            HttpStatusCode::InternalServerError => "Internal Server Error"@,
            HttpStatusCode::NotImplemented => "Not Implemented"@,
            HttpStatusCode::BadGateway => "Bad Gateway"@,
            HttpStatusCode::ServiceUnavailable => "Service Unavailable"@,
            HttpStatusCode::GatewayTimeout => "Gateway Timeout"@,
            HttpStatusCode::HTTPVersionNotSupported => "HTTP Version Not Supported"@,
            HttpStatusCode::VariantAlsoNegotiates => "Variant Also Negotiates"@,
            HttpStatusCode::InsufficientStorage => "Insufficient Storage"@,
            HttpStatusCode::LoopDetected => "Loop Detected"@,
            HttpStatusCode::NotExtended => "Not Extended"@,
            HttpStatusCode::NetworkAuthenticationRequired => "Network Authentication Required"@,
        }
    }

    /// The variant registered for `value`, or `None` when `value` is not registered.
    pub open spec fn spec_from_u16(value: u16) -> Option<HttpStatusCode> {
        match value {
            100 => Some(HttpStatusCode::Continue),
            101 => Some(HttpStatusCode::SwitchingProtocols),
            102 => Some(HttpStatusCode::Processing),
            200 => Some(HttpStatusCode::OK),
            201 => Some(HttpStatusCode::Created),
            202 => Some(HttpStatusCode::Accepted),
            203 => Some(HttpStatusCode::NonAuthoritativeInformation),
            204 => Some(HttpStatusCode::NoContent),
            205 => Some(HttpStatusCode::ResetContent),
            206 => Some(HttpStatusCode::PartialContent),
            207 => Some(HttpStatusCode::MultiStatus),
            208 => Some(HttpStatusCode::AlreadyReported),
            226 => Some(HttpStatusCode::IMUsed),
            300 => Some(HttpStatusCode::MultipleChoices),
            301 => Some(HttpStatusCode::MovedPermanently),
            302 => Some(HttpStatusCode::Found),
            303 => Some(HttpStatusCode::SeeOther),
            304 => Some(HttpStatusCode::NotModified),
            305 => Some(HttpStatusCode::UseProxy),
            307 => Some(HttpStatusCode::TemporaryRedirect),
            308 => Some(HttpStatusCode::PermanentRedirect),
            400 => Some(HttpStatusCode::BadRequest),
            401 => Some(HttpStatusCode::Unauthorized),
            402 => Some(HttpStatusCode::PaymentRequired),
            403 => Some(HttpStatusCode::Forbidden),
            404 => Some(HttpStatusCode::NotFound),
            405 => Some(HttpStatusCode::MethodNotAllowed),
            406 => Some(HttpStatusCode::NotAcceptable),
            407 => Some(HttpStatusCode::ProxyAuthenticationRequired),
            408 => Some(HttpStatusCode::RequestTimeout),
            409 => Some(HttpStatusCode::Conflict),
            410 => Some(HttpStatusCode::Gone),
            411 => Some(HttpStatusCode::LengthRequired),
            412 => Some(HttpStatusCode::PreconditionFailed),
            413 => Some(HttpStatusCode::PayloadTooLarge),
            414 => Some(HttpStatusCode::URITooLong),
            415 => Some(HttpStatusCode::UnsupportedMediaType),
            416 => Some(HttpStatusCode::RangeNotSatisfiable),
            417 => Some(HttpStatusCode::ExpectationFailed),
            418 => Some(HttpStatusCode::ImATeapot),
            421 => Some(HttpStatusCode::MisdirectedRequest),
            422 => Some(HttpStatusCode::UnprocessableEntity),
            423 => Some(HttpStatusCode::Locked),
            424 => Some(HttpStatusCode::FailedDependency),
            425 => Some(HttpStatusCode::TooEarly),
            426 => Some(HttpStatusCode::UpgradeRequired),
            428 => Some(HttpStatusCode::PreconditionRequired),
            429 => Some(HttpStatusCode::TooManyRequests),
            431 => Some(HttpStatusCode::RequestHeaderFieldsTooLarge),
            451 => Some(HttpStatusCode::UnavailableForLegalReasons),
            500 => Some(HttpStatusCode::InternalServerError),
            501 => Some(HttpStatusCode::NotImplemented),
            502 => Some(HttpStatusCode::BadGateway),
            503 => Some(HttpStatusCode::ServiceUnavailable),
            504 => Some(HttpStatusCode::GatewayTimeout),
            505 => Some(HttpStatusCode::HTTPVersionNotSupported),
            506 => Some(HttpStatusCode::VariantAlsoNegotiates),
            507 => Some(HttpStatusCode::InsufficientStorage),
            508 => Some(HttpStatusCode::LoopDetected),
            510 => Some(HttpStatusCode::NotExtended),
            511 => Some(HttpStatusCode::NetworkAuthenticationRequired),
            _ => None,
        }
    }

    /// The numeric code of this status.
    pub fn code(self) -> (r: u16)
        ensures
            r == self.spec_code(),
    {
        match self {
            HttpStatusCode::Continue => 100,
            HttpStatusCode::SwitchingProtocols => 101,
            HttpStatusCode::Processing => 102,
            HttpStatusCode::OK => 200,
            HttpStatusCode::Created => 201,
            HttpStatusCode::Accepted => 202,
            HttpStatusCode::NonAuthoritativeInformation => 203,
            HttpStatusCode::NoContent => 204,
            HttpStatusCode::ResetContent => 205,
            HttpStatusCode::PartialContent => 206,
            HttpStatusCode::MultiStatus => 207,
            HttpStatusCode::AlreadyReported => 208,
            HttpStatusCode::IMUsed => 226,
            HttpStatusCode::MultipleChoices => 300,
            HttpStatusCode::MovedPermanently => 301,
            HttpStatusCode::Found => 302,
            HttpStatusCode::SeeOther => 303,
            HttpStatusCode::NotModified => 304,
            HttpStatusCode::UseProxy => 305,
            HttpStatusCode::TemporaryRedirect => 307,
            HttpStatusCode::PermanentRedirect => 308,
            HttpStatusCode::BadRequest => 400,
            HttpStatusCode::Unauthorized => 401,
            HttpStatusCode::PaymentRequired => 402,
            HttpStatusCode::Forbidden => 403,
            HttpStatusCode::NotFound => 404,
            HttpStatusCode::MethodNotAllowed => 405,
            HttpStatusCode::NotAcceptable => 406,
            HttpStatusCode::ProxyAuthenticationRequired => 407,
            HttpStatusCode::RequestTimeout => 408,
            HttpStatusCode::Conflict => 409,
            HttpStatusCode::Gone => 410,
            HttpStatusCode::LengthRequired => 411,
            HttpStatusCode::PreconditionFailed => 412,
            HttpStatusCode::PayloadTooLarge => 413,
            HttpStatusCode::URITooLong => 414,
            HttpStatusCode::UnsupportedMediaType => 415,
            HttpStatusCode::RangeNotSatisfiable => 416,
            HttpStatusCode::ExpectationFailed => 417,
            HttpStatusCode::ImATeapot => 418,
            HttpStatusCode::MisdirectedRequest => 421,
            HttpStatusCode::UnprocessableEntity => 422,
            HttpStatusCode::Locked => 423,
            HttpStatusCode::FailedDependency => 424,
            HttpStatusCode::TooEarly => 425,
            HttpStatusCode::UpgradeRequired => 426,
            HttpStatusCode::PreconditionRequired => 428,
            HttpStatusCode::TooManyRequests => 429,
            HttpStatusCode::RequestHeaderFieldsTooLarge => 431,
            HttpStatusCode::UnavailableForLegalReasons => 451,
            HttpStatusCode::InternalServerError => 500,
            HttpStatusCode::NotImplemented => 501,
            HttpStatusCode::BadGateway => 502,
            HttpStatusCode::ServiceUnavailable => 503,
            HttpStatusCode::GatewayTimeout => 504,
            HttpStatusCode::HTTPVersionNotSupported => 505,
            HttpStatusCode::VariantAlsoNegotiates => 506,
            HttpStatusCode::InsufficientStorage => 507,
            HttpStatusCode::LoopDetected => 508,
            HttpStatusCode::NotExtended => 510,
            HttpStatusCode::NetworkAuthenticationRequired => 511,
        }
    }

    /// The canonical reason phrase of this status.
    pub fn reason_phrase(&self) -> (r: &'static str)
        ensures
            r@ == self.spec_phrase(),
    {
        match self {
            HttpStatusCode::Continue => "Continue",
            HttpStatusCode::SwitchingProtocols => "Switching Protocols",
            HttpStatusCode::Processing => "Processing",
            HttpStatusCode::OK => "OK",
            HttpStatusCode::Created => "Created",
            HttpStatusCode::Accepted => "Accepted",
            HttpStatusCode::NonAuthoritativeInformation => "Non-Authoritative Information",
            HttpStatusCode::NoContent => "No Content",
            HttpStatusCode::ResetContent => "Reset Content",
            HttpStatusCode::PartialContent => "Partial Content",
            HttpStatusCode::MultiStatus => "Multi-Status",
            HttpStatusCode::AlreadyReported => "Already Reported",
            HttpStatusCode::IMUsed => "IM Used",
            HttpStatusCode::MultipleChoices => "Multiple Choices",
            HttpStatusCode::MovedPermanently => "Moved Permanently",
            HttpStatusCode::Found => "Found",
            HttpStatusCode::SeeOther => "See Other",
            HttpStatusCode::NotModified => "Not Modified",
            HttpStatusCode::UseProxy => "Use Proxy",
            HttpStatusCode::TemporaryRedirect => "Temporary Redirect",
            HttpStatusCode::PermanentRedirect => "Permanent Redirect",
            HttpStatusCode::BadRequest => "Bad Request",
            HttpStatusCode::Unauthorized => "Unauthorized",
            HttpStatusCode::PaymentRequired => "Payment Required",
            HttpStatusCode::Forbidden => "Forbidden",
            HttpStatusCode::NotFound => "Not Found",
            HttpStatusCode::MethodNotAllowed => "Method Not Allowed",
            HttpStatusCode::NotAcceptable => "Not Acceptable",
            HttpStatusCode::ProxyAuthenticationRequired => "Proxy Authentication Required",
            HttpStatusCode::RequestTimeout => "Request Timeout",
            HttpStatusCode::Conflict => "Conflict",
            HttpStatusCode::Gone => "Gone",
            HttpStatusCode::LengthRequired => "Length Required",
            HttpStatusCode::PreconditionFailed => "Precondition Failed",
            HttpStatusCode::PayloadTooLarge => "Payload Too Large",
            HttpStatusCode::URITooLong => "URI Too Long",
            HttpStatusCode::UnsupportedMediaType => "Unsupported Media Type",
            HttpStatusCode::RangeNotSatisfiable => "Range Not Satisfiable",
            HttpStatusCode::ExpectationFailed => "Expectation Failed",
            HttpStatusCode::ImATeapot => "I'm a teapot",
            HttpStatusCode::MisdirectedRequest => "Misdirected Request",
            HttpStatusCode::UnprocessableEntity => "Unprocessable Entity",
            HttpStatusCode::Locked => "Locked",
            HttpStatusCode::FailedDependency => "Failed Dependency",
            HttpStatusCode::TooEarly => "Too Early",
            HttpStatusCode::UpgradeRequired => "Upgrade Required",
            HttpStatusCode::PreconditionRequired => "Precondition Required",
            HttpStatusCode::TooManyRequests => "Too Many Requests",
            HttpStatusCode::RequestHeaderFieldsTooLarge => "Request Header Fields Too Large",
            HttpStatusCode::UnavailableForLegalReasons => "Unavailable For Legal Reasons",
            HttpStatusCode::InternalServerError => "Internal Server Error",
            HttpStatusCode::NotImplemented => "Not Implemented",
            HttpStatusCode::BadGateway => "Bad Gateway",
            HttpStatusCode::ServiceUnavailable => "Service Unavailable",
            HttpStatusCode::GatewayTimeout => "Gateway Timeout",
            HttpStatusCode::HTTPVersionNotSupported => "HTTP Version Not Supported",
            HttpStatusCode::VariantAlsoNegotiates => "Variant Also Negotiates",
            HttpStatusCode::InsufficientStorage => "Insufficient Storage",
            HttpStatusCode::LoopDetected => "Loop Detected",
            HttpStatusCode::NotExtended => "Not Extended",
            HttpStatusCode::NetworkAuthenticationRequired => "Network Authentication Required",
        }
    }

    /// Parse a numeric code: `Some` exactly on the registered set.
    pub fn from_u16(value: u16) -> (r: Option<HttpStatusCode>)
        ensures
            r == Self::spec_from_u16(value),
            r is Some <==> is_registered(value),
            r matches Some(c) ==> c.spec_code() == value,
    {
        proof { lemma_registered_set(value); }
        match value {
            100 => Some(HttpStatusCode::Continue),
            101 => Some(HttpStatusCode::SwitchingProtocols),
            102 => Some(HttpStatusCode::Processing),
            200 => Some(HttpStatusCode::OK),
            201 => Some(HttpStatusCode::Created),
            202 => Some(HttpStatusCode::Accepted),
            203 => Some(HttpStatusCode::NonAuthoritativeInformation),
            204 => Some(HttpStatusCode::NoContent),
            205 => Some(HttpStatusCode::ResetContent),
            206 => Some(HttpStatusCode::PartialContent),
            207 => Some(HttpStatusCode::MultiStatus),
            208 => Some(HttpStatusCode::AlreadyReported),
            226 => Some(HttpStatusCode::IMUsed),
            300 => Some(HttpStatusCode::MultipleChoices),
            301 => Some(HttpStatusCode::MovedPermanently),
            302 => Some(HttpStatusCode::Found),
            303 => Some(HttpStatusCode::SeeOther),
            304 => Some(HttpStatusCode::NotModified),
            305 => Some(HttpStatusCode::UseProxy),
            307 => Some(HttpStatusCode::TemporaryRedirect),
            308 => Some(HttpStatusCode::PermanentRedirect),
            400 => Some(HttpStatusCode::BadRequest),
            401 => Some(HttpStatusCode::Unauthorized),
            402 => Some(HttpStatusCode::PaymentRequired),
            403 => Some(HttpStatusCode::Forbidden),
            404 => Some(HttpStatusCode::NotFound),
            405 => Some(HttpStatusCode::MethodNotAllowed),
            406 => Some(HttpStatusCode::NotAcceptable),
            407 => Some(HttpStatusCode::ProxyAuthenticationRequired),
            408 => Some(HttpStatusCode::RequestTimeout),
            409 => Some(HttpStatusCode::Conflict),
            410 => Some(HttpStatusCode::Gone),
            411 => Some(HttpStatusCode::LengthRequired),
            412 => Some(HttpStatusCode::PreconditionFailed),
            413 => Some(HttpStatusCode::PayloadTooLarge),
            414 => Some(HttpStatusCode::URITooLong),
            415 => Some(HttpStatusCode::UnsupportedMediaType),
            416 => Some(HttpStatusCode::RangeNotSatisfiable),
            417 => Some(HttpStatusCode::ExpectationFailed),
            418 => Some(HttpStatusCode::ImATeapot),
            421 => Some(HttpStatusCode::MisdirectedRequest),
            422 => Some(HttpStatusCode::UnprocessableEntity),
            423 => Some(HttpStatusCode::Locked),
            424 => Some(HttpStatusCode::FailedDependency),
            425 => Some(HttpStatusCode::TooEarly),
            426 => Some(HttpStatusCode::UpgradeRequired),
            428 => Some(HttpStatusCode::PreconditionRequired),
            429 => Some(HttpStatusCode::TooManyRequests),
            431 => Some(HttpStatusCode::RequestHeaderFieldsTooLarge),
            451 => Some(HttpStatusCode::UnavailableForLegalReasons),
            500 => Some(HttpStatusCode::InternalServerError),
            501 => Some(HttpStatusCode::NotImplemented),
            502 => Some(HttpStatusCode::BadGateway),
            503 => Some(HttpStatusCode::ServiceUnavailable),
            504 => Some(HttpStatusCode::GatewayTimeout),
            505 => Some(HttpStatusCode::HTTPVersionNotSupported),
            506 => Some(HttpStatusCode::VariantAlsoNegotiates),
            507 => Some(HttpStatusCode::InsufficientStorage),
            508 => Some(HttpStatusCode::LoopDetected),
            510 => Some(HttpStatusCode::NotExtended),
            511 => Some(HttpStatusCode::NetworkAuthenticationRequired),
            _ => None,
        }
    }
}

/// The registered set and the domain of `spec_from_u16` are the same set,
/// and parsing a registered code yields the variant carrying that very code.
pub proof fn lemma_registered_set(value: u16)
    ensures
        is_registered(value) <==> HttpStatusCode::spec_from_u16(value) is Some,
        HttpStatusCode::spec_from_u16(value) matches Some(c) ==> c.spec_code() == value,
{
}

/// Round trip: every registered status survives `spec_code` then `spec_from_u16`,
/// so its reason phrase is recovered exactly from its numeric code.
pub proof fn lemma_code_round_trip(c: HttpStatusCode)
    ensures
        HttpStatusCode::spec_from_u16(c.spec_code()) == Some(c),
{
}

} // verus!
