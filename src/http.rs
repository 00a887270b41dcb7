//! The fixed vocabularies of the protocol: methods, protocol labels, media
//! types and status codes, each with its text form and the lookup back.
use vstd::prelude::*;

use vstd::string::StrSliceExecFns;

use crate::text::{chars_of, str_eq};

verus! {
/// Request method named on the request line.
#[derive(Debug, Clone, Copy, PartialEq, Eq, Structural)]
pub enum Method {
    Unknown,
    Get,
    Post,
    Put,
}

/// Protocol version label of a request.
#[derive(Debug, Clone, Copy, PartialEq, Eq, Structural)]
pub enum Protocol {
    Unknown,
    V10,
    V11,
    V20,
    V30,
}

/// Media type of a request or response body.
#[derive(Debug, Clone, Copy, PartialEq, Eq, Structural)]
pub enum ContentType {
    Unknown,
    TextPlain,
    TextHtml,
    TextCss,
    ImagePng,
    ImageJpeg,
    ImageWebp,
    ImageIcon,
    ApplicationJavascript,
    ApplicationJson,
    ApplicationWasm,
    ApplicationXml,
    AudioAac,
    AudioMpeg,
    AudioOgg,
    AudioWebm,
    VideoMpeg,
    VideoMp4,
    VideoWebm,
}

/// Response status, with its code and reason phrase.
#[derive(Debug, Clone, Copy, PartialEq, Eq, Structural)]
pub enum StatusCode {
    Unknown,
    Http100Continue,
    Http101SwitchingProtocols,
    Http102Processing,
    Http103EarlyHints,
    Http200Ok,
    Http201Created,
    Http202Accepted,
    Http203NonAuthoritativeInformation,
    Http204NoContent,
    Http205ResetContent,
    Http206PartialContent,
    Http207MultiStatus,
    Http208AlreadyReported,
    Http226ImUsed,
    Http300MultipleChoices,
    Http301MovedPermanently,
    Http302MovedTemporarily,
    Http303SeeOther,
    Http304NotModified,
    Http305UseProxy,
    Http306Reserved,
    Http307TemporaryRedirect,
    Http308PermanentRedirect,
    Http400BadRequest,
    Http401Unauthorized,
    Http402PaymentRequired,
    Http403Forbidden,
    Http404NotFound,
    Http405MethodNotAllowed,
    Http406NotAcceptable,
    Http407ProxyAuthenticationRequired,
    Http408RequestTimeout,
    Http409Conflict,
    Http410Gone,
    Http411LengthRequired,
    Http412PreconditionFailed,
    Http413PayloadToolarge,
    Http414UriTooLong,
    Http415UnsupportedMediaType,
    Http416RangeNotSatisfiable,
    Http417ExpectationFailed,
    Http418IAmATeapot,
    Http419AuthenticationTimeout,
    Http421MisdirectedRequest,
    Http422UnprocessableEntity,
    Http423Locked,
    Http424FailedDependency,
    Http425TooEarly,
    Http426UpgradeRequired,
    Http428PreconditionRequired,
    Http429TooManyRequests,
    Http431RequestHeaderFieldsTooLarge,
    Http449RetryWith,
    Http451UnavailableForLegalReasons,
    Http499ClientClosedRequest,
    Http500InternalServerError,
    Http501NotImplemented,
    Http502BadGateway,
    Http503ServiceUnavailable,
    Http504GatewayTimeout,
    Http505HttpVersionNotSupported,
    Http506VariantAlsoNegotiates,
    Http507InsufficientStorage,
    Http508LoopDetected,
    Http509BandwidthLimitExceeded,
    Http510NotExtended,
    Http511NetworkAuthenticationRequired,
    Http520UnknownError,
    Http521WebServerIsDown,
    Http522ConnectionTimedOut,
    Http523OriginIsUnreachable,
    Http524ATimeoutOccurred,
    Http525SslHandshakeFailed,
    Http526InvalidSslCertificate,
}

impl Method {
    /// The method as it is written on a request line.
    pub open spec fn text(self) -> Seq<char> {
        match self {
            Method::Unknown => "Unknown"@,
            Method::Get => "GET"@,
            Method::Post => "POST"@,
            Method::Put => "PUT"@,
        }
    }

    pub fn as_str(&self) -> (r: &'static str)
        ensures
            r@ == self.text(),
    {
        match self {
            Method::Unknown => "Unknown",
            Method::Get => "GET",
            Method::Post => "POST",
            Method::Put => "PUT",
        }
    }

    /// The value that `value` names, or `Unknown` when it names none.
    pub open spec fn named(value: Seq<char>) -> Method {
        if value == "GET"@ {
            Method::Get
        }         else if value == "POST"@ {
            Method::Post
        }         else if value == "PUT"@ {
            Method::Put
        } else {
            Method::Unknown
        }
    }

    /// The value that `value` names, or `Unknown` when it names none.
    pub fn from_str(value: &str) -> (r: Self)
        ensures
            r == Method::named(value@),
    {
        if str_eq(value, "GET") {
            return Method::Get;
        }
        if str_eq(value, "POST") {
            return Method::Post;
        }
        if str_eq(value, "PUT") {
            return Method::Put;
        }
        Method::Unknown
    }
}

impl Protocol {
    /// The label of the protocol version.
    pub open spec fn text(self) -> Seq<char> {
        match self {
            Protocol::Unknown => "Unknown"@,
            Protocol::V10 => "HTTP 1.0"@,
            Protocol::V11 => "HTTP 1.1"@,
            Protocol::V20 => "HTTP 2.0"@,
            Protocol::V30 => "HTTP 3.0"@,
        }
    }

    pub fn as_str(&self) -> (r: &'static str)
        ensures
            r@ == self.text(),
    {
        match self {
            Protocol::Unknown => "Unknown",
            Protocol::V10 => "HTTP 1.0",
            Protocol::V11 => "HTTP 1.1",
            Protocol::V20 => "HTTP 2.0",
            Protocol::V30 => "HTTP 3.0",
        }
    }

    /// The value that `value` names, or `Unknown` when it names none.
    pub open spec fn named(value: Seq<char>) -> Protocol {
        if value == "HTTP 1.0"@ {
            Protocol::V10
        }         else if value == "HTTP 1.1"@ {
            Protocol::V11
        }         else if value == "HTTP 2.0"@ {
            Protocol::V20
        }         else if value == "HTTP 3.0"@ {
            Protocol::V30
        } else {
            Protocol::Unknown
        }
    }

    /// The value that `value` names, or `Unknown` when it names none.
    pub fn from_str(value: &str) -> (r: Self)
        ensures
            r == Protocol::named(value@),
    {
        if str_eq(value, "HTTP 1.0") {
            return Protocol::V10;
        }
        if str_eq(value, "HTTP 1.1") {
            return Protocol::V11;
        }
        if str_eq(value, "HTTP 2.0") {
            return Protocol::V20;
        }
        if str_eq(value, "HTTP 3.0") {
            return Protocol::V30;
        }
        Protocol::Unknown
    }
}

impl StatusCode {
    /// The code and reason phrase of a status line.
    pub open spec fn text(self) -> Seq<char> {
        match self {
            StatusCode::Unknown => "Unknown"@,
            StatusCode::Http100Continue => "100 Continue"@,
            StatusCode::Http101SwitchingProtocols => "101 Switching Protocols"@,
            StatusCode::Http102Processing => "102 Processing"@,
            StatusCode::Http103EarlyHints => "103 Early Hints"@,
            StatusCode::Http200Ok => "200 OK"@,
            StatusCode::Http201Created => "201 Created"@,
            StatusCode::Http202Accepted => "202 Accepted"@,
            StatusCode::Http203NonAuthoritativeInformation => "203 Non-Authoritative Information"@,
            StatusCode::Http204NoContent => "204 No Content"@,
            StatusCode::Http205ResetContent => "205 Reset Content"@,
            StatusCode::Http206PartialContent => "206 Partial Content"@,
            StatusCode::Http207MultiStatus => "207 Multi-Status"@,
            StatusCode::Http208AlreadyReported => "208 Already Reported"@,
            StatusCode::Http226ImUsed => "226 Im Used"@,
            StatusCode::Http300MultipleChoices => "300 Multiple Choices"@,
            StatusCode::Http301MovedPermanently => "301 Moved Permanently"@,
            StatusCode::Http302MovedTemporarily => "302 Moved Temporarily"@,
            StatusCode::Http303SeeOther => "303 See Other"@,
            StatusCode::Http304NotModified => "304 Not Modified"@,
            StatusCode::Http305UseProxy => "305 Use Proxy"@,
            StatusCode::Http306Reserved => "306 Reserved"@,
            StatusCode::Http307TemporaryRedirect => "307 Temporary Redirect"@,
            StatusCode::Http308PermanentRedirect => "308 Permanent Redirect"@,
            StatusCode::Http400BadRequest => "400 Bad Request"@,
            StatusCode::Http401Unauthorized => "401 Unauthorized"@,
            StatusCode::Http402PaymentRequired => "402 Payment Required"@,
            StatusCode::Http403Forbidden => "403 Forbidden"@,
            StatusCode::Http404NotFound => "404 Not Found"@,
            StatusCode::Http405MethodNotAllowed => "405 Method Not Allowed"@,
            StatusCode::Http406NotAcceptable => "406 Not Acceptable"@,
            StatusCode::Http407ProxyAuthenticationRequired => "407 Proxy Authentication Required"@,
            StatusCode::Http408RequestTimeout => "408 Request Timeout"@,
            StatusCode::Http409Conflict => "409 Conflict"@,
            StatusCode::Http410Gone => "410 Gone"@,
            StatusCode::Http411LengthRequired => "411 Length Required"@,
            StatusCode::Http412PreconditionFailed => "412 Precondition Failed"@,
            StatusCode::Http413PayloadToolarge => "413 Payload Too Large"@,
            StatusCode::Http414UriTooLong => "414 URL Too Long"@,
            StatusCode::Http415UnsupportedMediaType => "415 Unsupported Media Type"@,
            StatusCode::Http416RangeNotSatisfiable => "416 Range Not Satisfiable"@,
            StatusCode::Http417ExpectationFailed => "417 Expectation Failed"@,
            StatusCode::Http418IAmATeapot => "418 I Am A Teapot"@,
            StatusCode::Http419AuthenticationTimeout => "419 Authentication Timeout"@,
            StatusCode::Http421MisdirectedRequest => "421 Misdirected Request"@,
            StatusCode::Http422UnprocessableEntity => "422 Uprocessable Entity"@,
            StatusCode::Http423Locked => "423 Locked"@,
            StatusCode::Http424FailedDependency => "424 Failed Dependency"@,
            StatusCode::Http425TooEarly => "425 Too Early"@,
            StatusCode::Http426UpgradeRequired => "426 Upgrade Required"@,
            StatusCode::Http428PreconditionRequired => "428 Precondition Required"@,
            StatusCode::Http429TooManyRequests => "429 Too Many Requests"@,
            StatusCode::Http431RequestHeaderFieldsTooLarge => "431 Request Header Fields Too Large"@,
            StatusCode::Http449RetryWith => "449 Retry With"@,
            StatusCode::Http451UnavailableForLegalReasons => "451 Unavailable For Legal Reasons"@,
            StatusCode::Http499ClientClosedRequest => "499 Client Closed Request"@,
            StatusCode::Http500InternalServerError => "500 Internal Server Error"@,
            StatusCode::Http501NotImplemented => "501 Not Implemented"@,
            StatusCode::Http502BadGateway => "502 Bad Gateway"@,
            StatusCode::Http503ServiceUnavailable => "503 Service Unavailable"@,
            StatusCode::Http504GatewayTimeout => "504 Gateway Timeout"@,
            StatusCode::Http505HttpVersionNotSupported => "505 HTTP Version Not Supported"@,
            StatusCode::Http506VariantAlsoNegotiates => "506 Variant Also Negotiated"@,
            StatusCode::Http507InsufficientStorage => "507 Insufficient Storage"@,
            StatusCode::Http508LoopDetected => "508 Loop Detected"@,
            StatusCode::Http509BandwidthLimitExceeded => "509 Bandwidth Limit Exceeded"@,
            StatusCode::Http510NotExtended => "510 Not Extended"@,
            StatusCode::Http511NetworkAuthenticationRequired => "511 Network Authentication Required"@,
            StatusCode::Http520UnknownError => "520 Unknown Error"@,
            StatusCode::Http521WebServerIsDown => "521 Web Server Is Down"@,
            StatusCode::Http522ConnectionTimedOut => "522 Connection Timed Out"@,
            StatusCode::Http523OriginIsUnreachable => "523 Origin Is Unreachable"@,
            StatusCode::Http524ATimeoutOccurred => "524 A Timeout Occurred"@,
            StatusCode::Http525SslHandshakeFailed => "525 SSL Handshake Failed"@,
            StatusCode::Http526InvalidSslCertificate => "526 Invalid SSL Certificate"@,
        }
    }

    pub fn as_str(&self) -> (r: &'static str)
        ensures
            r@ == self.text(),
    {
        match self {
            StatusCode::Unknown => "Unknown",
            StatusCode::Http100Continue => "100 Continue",
            StatusCode::Http101SwitchingProtocols => "101 Switching Protocols",
            StatusCode::Http102Processing => "102 Processing",
            StatusCode::Http103EarlyHints => "103 Early Hints",
            StatusCode::Http200Ok => "200 OK",
            StatusCode::Http201Created => "201 Created",
            StatusCode::Http202Accepted => "202 Accepted",
            StatusCode::Http203NonAuthoritativeInformation => "203 Non-Authoritative Information",
            StatusCode::Http204NoContent => "204 No Content",
            StatusCode::Http205ResetContent => "205 Reset Content",
            StatusCode::Http206PartialContent => "206 Partial Content",
            StatusCode::Http207MultiStatus => "207 Multi-Status",
            StatusCode::Http208AlreadyReported => "208 Already Reported",
            StatusCode::Http226ImUsed => "226 Im Used",
            StatusCode::Http300MultipleChoices => "300 Multiple Choices",
            StatusCode::Http301MovedPermanently => "301 Moved Permanently",
            StatusCode::Http302MovedTemporarily => "302 Moved Temporarily",
            StatusCode::Http303SeeOther => "303 See Other",
            StatusCode::Http304NotModified => "304 Not Modified",
            StatusCode::Http305UseProxy => "305 Use Proxy",
            StatusCode::Http306Reserved => "306 Reserved",
            StatusCode::Http307TemporaryRedirect => "307 Temporary Redirect",
            StatusCode::Http308PermanentRedirect => "308 Permanent Redirect",
            StatusCode::Http400BadRequest => "400 Bad Request",
            StatusCode::Http401Unauthorized => "401 Unauthorized",
            StatusCode::Http402PaymentRequired => "402 Payment Required",
            StatusCode::Http403Forbidden => "403 Forbidden",
            StatusCode::Http404NotFound => "404 Not Found",
            StatusCode::Http405MethodNotAllowed => "405 Method Not Allowed",
            StatusCode::Http406NotAcceptable => "406 Not Acceptable",
            StatusCode::Http407ProxyAuthenticationRequired => "407 Proxy Authentication Required",
            StatusCode::Http408RequestTimeout => "408 Request Timeout",
            StatusCode::Http409Conflict => "409 Conflict",
            StatusCode::Http410Gone => "410 Gone",
            StatusCode::Http411LengthRequired => "411 Length Required",
            StatusCode::Http412PreconditionFailed => "412 Precondition Failed",
            StatusCode::Http413PayloadToolarge => "413 Payload Too Large",
            StatusCode::Http414UriTooLong => "414 URL Too Long",
            StatusCode::Http415UnsupportedMediaType => "415 Unsupported Media Type",
            StatusCode::Http416RangeNotSatisfiable => "416 Range Not Satisfiable",
            StatusCode::Http417ExpectationFailed => "417 Expectation Failed",
            StatusCode::Http418IAmATeapot => "418 I Am A Teapot",
            StatusCode::Http419AuthenticationTimeout => "419 Authentication Timeout",
            StatusCode::Http421MisdirectedRequest => "421 Misdirected Request",
            StatusCode::Http422UnprocessableEntity => "422 Uprocessable Entity",
            StatusCode::Http423Locked => "423 Locked",
            StatusCode::Http424FailedDependency => "424 Failed Dependency",
            StatusCode::Http425TooEarly => "425 Too Early",
            StatusCode::Http426UpgradeRequired => "426 Upgrade Required",
            StatusCode::Http428PreconditionRequired => "428 Precondition Required",
            StatusCode::Http429TooManyRequests => "429 Too Many Requests",
            StatusCode::Http431RequestHeaderFieldsTooLarge => "431 Request Header Fields Too Large",
            StatusCode::Http449RetryWith => "449 Retry With",
            StatusCode::Http451UnavailableForLegalReasons => "451 Unavailable For Legal Reasons",
            StatusCode::Http499ClientClosedRequest => "499 Client Closed Request",
            StatusCode::Http500InternalServerError => "500 Internal Server Error",
            StatusCode::Http501NotImplemented => "501 Not Implemented",
            StatusCode::Http502BadGateway => "502 Bad Gateway",
            StatusCode::Http503ServiceUnavailable => "503 Service Unavailable",
            StatusCode::Http504GatewayTimeout => "504 Gateway Timeout",
            StatusCode::Http505HttpVersionNotSupported => "505 HTTP Version Not Supported",
            StatusCode::Http506VariantAlsoNegotiates => "506 Variant Also Negotiated",
            StatusCode::Http507InsufficientStorage => "507 Insufficient Storage",
            StatusCode::Http508LoopDetected => "508 Loop Detected",
            StatusCode::Http509BandwidthLimitExceeded => "509 Bandwidth Limit Exceeded",
            StatusCode::Http510NotExtended => "510 Not Extended",
            StatusCode::Http511NetworkAuthenticationRequired => "511 Network Authentication Required",
            StatusCode::Http520UnknownError => "520 Unknown Error",
            StatusCode::Http521WebServerIsDown => "521 Web Server Is Down",
            StatusCode::Http522ConnectionTimedOut => "522 Connection Timed Out",
            StatusCode::Http523OriginIsUnreachable => "523 Origin Is Unreachable",
            StatusCode::Http524ATimeoutOccurred => "524 A Timeout Occurred",
            StatusCode::Http525SslHandshakeFailed => "525 SSL Handshake Failed",
            StatusCode::Http526InvalidSslCertificate => "526 Invalid SSL Certificate",
        }
    }

    /// The status that `value` names, or `Unknown` when it names none.
    pub open spec fn named(value: Seq<char>) -> StatusCode {
        if value == "100 Continue"@ {
            StatusCode::Http100Continue
        }         else if value == "101 Switching Protocols"@ {
            StatusCode::Http101SwitchingProtocols
        }         else if value == "102 Processing"@ {
            StatusCode::Http102Processing
        }         else if value == "103 Early Hints"@ {
            StatusCode::Http103EarlyHints
        }         else if value == "200 OK"@ {
            StatusCode::Http200Ok
        }         else if value == "201 Created"@ {
            StatusCode::Http201Created
        }         else if value == "202 Accepted"@ {
            StatusCode::Http202Accepted
        }         else if value == "203 Non-Authoritative Information"@ {
            StatusCode::Http203NonAuthoritativeInformation
        }         else if value == "204 No Content"@ {
            StatusCode::Http204NoContent
        }         else if value == "205 Reset Content"@ {
            StatusCode::Http205ResetContent
        }         else if value == "206 Partial Content"@ {
            StatusCode::Http206PartialContent
        }         else if value == "207 Multi-Status"@ {
            StatusCode::Http207MultiStatus
        }         else if value == "208 Already Reported"@ {
            StatusCode::Http208AlreadyReported
        }         else if value == "226 Im Used"@ {
            StatusCode::Http226ImUsed
        }         else if value == "300 Multiple Choices"@ {
            StatusCode::Http300MultipleChoices
        }         else if value == "301 Moved Permanently"@ {
            StatusCode::Http301MovedPermanently
        }         else if value == "302 Moved Temporarily"@ {
            StatusCode::Http302MovedTemporarily
        }         else if value == "303 See Other"@ {
            StatusCode::Http303SeeOther
        }         else if value == "304 Not Modified"@ {
            StatusCode::Http304NotModified
        }         else if value == "305 Use Proxy"@ {
            StatusCode::Http305UseProxy
        }         else if value == "306 Reserved"@ {
            StatusCode::Http306Reserved
        }         else if value == "307 Temporary Redirect"@ {
            StatusCode::Http307TemporaryRedirect
        }         else if value == "308 Permanent Redirect"@ {
            StatusCode::Http308PermanentRedirect
        }         else if value == "400 Bad Request"@ {
            StatusCode::Http400BadRequest
        }         else if value == "401 Unauthorized"@ {
            StatusCode::Http401Unauthorized
        }         else if value == "402 Payment Required"@ {
            StatusCode::Http402PaymentRequired
        }         else if value == "403 Forbidden"@ {
            StatusCode::Http403Forbidden
        }         else if value == "404 Not Found"@ {
            StatusCode::Http404NotFound
        }         else if value == "405 Method Not Allowed"@ {
            StatusCode::Http405MethodNotAllowed
        }         else if value == "406 Not Acceptable"@ {
            StatusCode::Http406NotAcceptable
        }         else if value == "407 Proxy Authentication Required"@ {
            StatusCode::Http407ProxyAuthenticationRequired
        }         else if value == "408 Request Timeout"@ {
            StatusCode::Http408RequestTimeout
        }         else if value == "409 Conflict"@ {
            StatusCode::Http409Conflict
        }         else if value == "410 Gone"@ {
            StatusCode::Http410Gone
        }         else if value == "411 Length Required"@ {
            StatusCode::Http411LengthRequired
        }         else if value == "412 Precondition Failed"@ {
            StatusCode::Http412PreconditionFailed
        }         else if value == "413 Payload Too Large"@ {
            StatusCode::Http413PayloadToolarge
        }         else if value == "414 URL Too Long"@ {
            StatusCode::Http414UriTooLong
        }         else if value == "415 Unsupported Media Type"@ {
            StatusCode::Http415UnsupportedMediaType
        }         else if value == "416 Range Not Satisfiable"@ {
            StatusCode::Http416RangeNotSatisfiable
        }         else if value == "417 Expectation Failed"@ {
            StatusCode::Http417ExpectationFailed
        }         else if value == "418 I Am A Teapot"@ {
            StatusCode::Http418IAmATeapot
        }         else if value == "419 Authentication Timeout"@ {
            StatusCode::Http419AuthenticationTimeout
        }         else if value == "421 Misdirected Request"@ {
            StatusCode::Http421MisdirectedRequest
        }         else if value == "422 Uprocessable Entity"@ {
            StatusCode::Http422UnprocessableEntity
        }         else if value == "423 Locked"@ {
            StatusCode::Http423Locked
        }         else if value == "424 Failed Dependency"@ {
            StatusCode::Http424FailedDependency
        }         else if value == "425 Too Early"@ {
            StatusCode::Http425TooEarly
        }         else if value == "426 Upgrade Required"@ {
            StatusCode::Http426UpgradeRequired
        }         else if value == "428 Precondition Required"@ {
            StatusCode::Http428PreconditionRequired
        }         else if value == "429 Too Many Requests"@ {
            StatusCode::Http429TooManyRequests
        }         else if value == "431 Request Header Fields Too Large"@ {
            StatusCode::Http431RequestHeaderFieldsTooLarge
        }         else if value == "449 Retry With"@ {
            StatusCode::Http449RetryWith
        }         else if value == "451 Unavailable For Legal Reasons"@ {
            StatusCode::Http451UnavailableForLegalReasons
        }         else if value == "499 Client Closed Request"@ {
            StatusCode::Http499ClientClosedRequest
        }         else if value == "500 Internal Server Error"@ {
            StatusCode::Http500InternalServerError
        }         else if value == "501 Not Implemented"@ {
            StatusCode::Http501NotImplemented
        }         else if value == "502 Bad Gateway"@ {
            StatusCode::Http502BadGateway
        }         else if value == "503 Service Unavailable"@ {
            StatusCode::Http503ServiceUnavailable
        }         else if value == "504 Gateway Timeout"@ {
            StatusCode::Http504GatewayTimeout
        }         else if value == "505 HTTP Version Not Supported"@ {
            StatusCode::Http505HttpVersionNotSupported
        }         else if value == "506 Variant Also Negotiated"@ {
            StatusCode::Http506VariantAlsoNegotiates
        }         else if value == "507 Insufficient Storage"@ {
            StatusCode::Http507InsufficientStorage
        }         else if value == "508 Loop Detected"@ {
            StatusCode::Http508LoopDetected
        }         else if value == "509 Bandwidth Limit Exceeded"@ {
            StatusCode::Http509BandwidthLimitExceeded
        }         else if value == "510 Not Extended"@ {
            StatusCode::Http510NotExtended
        }         else if value == "511 Network Authentication Required"@ {
            StatusCode::Http511NetworkAuthenticationRequired
        }         else if value == "520 Unknown Error"@ {
            StatusCode::Http520UnknownError
        }         else if value == "521 Web Server Is Down"@ {
            StatusCode::Http521WebServerIsDown
        }         else if value == "522 Connection Timed Out"@ {
            StatusCode::Http522ConnectionTimedOut
        }         else if value == "523 Origin Is Unreachable"@ {
            StatusCode::Http523OriginIsUnreachable
        }         else if value == "524 A Timeout Occurred"@ {
            StatusCode::Http524ATimeoutOccurred
        }         else if value == "525 SSL Handshake Failed"@ {
            StatusCode::Http525SslHandshakeFailed
        }         else if value == "526 Invalid SSL Certificate"@ {
            StatusCode::Http526InvalidSslCertificate
        } else {
            StatusCode::Unknown
        }
    }

    /// The status whose text is `value`, or `Unknown` when there is none.
    pub fn from_str(value: &str) -> (r: Self)
        ensures
            r == StatusCode::named(value@),
            r.text() == value@ || (r == StatusCode::Unknown && forall|x: StatusCode|
                #[trigger] x.text() != value@),
    {
        if str_eq(value, "100 Continue") {
            return StatusCode::Http100Continue;
        }
        if str_eq(value, "101 Switching Protocols") {
            return StatusCode::Http101SwitchingProtocols;
        }
        if str_eq(value, "102 Processing") {
            return StatusCode::Http102Processing;
        }
        if str_eq(value, "103 Early Hints") {
            return StatusCode::Http103EarlyHints;
        }
        if str_eq(value, "200 OK") {
            return StatusCode::Http200Ok;
        }
        if str_eq(value, "201 Created") {
            return StatusCode::Http201Created;
        }
        if str_eq(value, "202 Accepted") {
            return StatusCode::Http202Accepted;
        }
        if str_eq(value, "203 Non-Authoritative Information") {
            return StatusCode::Http203NonAuthoritativeInformation;
        }
        if str_eq(value, "204 No Content") {
            return StatusCode::Http204NoContent;
        }
        if str_eq(value, "205 Reset Content") {
            return StatusCode::Http205ResetContent;
        }
        if str_eq(value, "206 Partial Content") {
            return StatusCode::Http206PartialContent;
        }
        if str_eq(value, "207 Multi-Status") {
            return StatusCode::Http207MultiStatus;
        }
        if str_eq(value, "208 Already Reported") {
            return StatusCode::Http208AlreadyReported;
        }
        if str_eq(value, "226 Im Used") {
            return StatusCode::Http226ImUsed;
        }
        if str_eq(value, "300 Multiple Choices") {
            return StatusCode::Http300MultipleChoices;
        }
        if str_eq(value, "301 Moved Permanently") {
            return StatusCode::Http301MovedPermanently;
        }
        if str_eq(value, "302 Moved Temporarily") {
            return StatusCode::Http302MovedTemporarily;
        }
        if str_eq(value, "303 See Other") {
            return StatusCode::Http303SeeOther;
        }
        if str_eq(value, "304 Not Modified") {
            return StatusCode::Http304NotModified;
        }
        if str_eq(value, "305 Use Proxy") {
            return StatusCode::Http305UseProxy;
        }
        if str_eq(value, "306 Reserved") {
            return StatusCode::Http306Reserved;
        }
        if str_eq(value, "307 Temporary Redirect") {
            return StatusCode::Http307TemporaryRedirect;
        }
        if str_eq(value, "308 Permanent Redirect") {
            return StatusCode::Http308PermanentRedirect;
        }
        if str_eq(value, "400 Bad Request") {
            return StatusCode::Http400BadRequest;
        }
        if str_eq(value, "401 Unauthorized") {
            return StatusCode::Http401Unauthorized;
        }
        if str_eq(value, "402 Payment Required") {
            return StatusCode::Http402PaymentRequired;
        }
        if str_eq(value, "403 Forbidden") {
            return StatusCode::Http403Forbidden;
        }
        if str_eq(value, "404 Not Found") {
            return StatusCode::Http404NotFound;
        }
        if str_eq(value, "405 Method Not Allowed") {
            return StatusCode::Http405MethodNotAllowed;
        }
        if str_eq(value, "406 Not Acceptable") {
            return StatusCode::Http406NotAcceptable;
        }
        if str_eq(value, "407 Proxy Authentication Required") {
            return StatusCode::Http407ProxyAuthenticationRequired;
        }
        if str_eq(value, "408 Request Timeout") {
            return StatusCode::Http408RequestTimeout;
        }
        if str_eq(value, "409 Conflict") {
            return StatusCode::Http409Conflict;
        }
        if str_eq(value, "410 Gone") {
            return StatusCode::Http410Gone;
        }
        if str_eq(value, "411 Length Required") {
            return StatusCode::Http411LengthRequired;
        }
        if str_eq(value, "412 Precondition Failed") {
            return StatusCode::Http412PreconditionFailed;
        }
        if str_eq(value, "413 Payload Too Large") {
            return StatusCode::Http413PayloadToolarge;
        }
        if str_eq(value, "414 URL Too Long") {
            return StatusCode::Http414UriTooLong;
        }
        if str_eq(value, "415 Unsupported Media Type") {
            return StatusCode::Http415UnsupportedMediaType;
        }
        if str_eq(value, "416 Range Not Satisfiable") {
            return StatusCode::Http416RangeNotSatisfiable;
        }
        if str_eq(value, "417 Expectation Failed") {
            return StatusCode::Http417ExpectationFailed;
        }
        if str_eq(value, "418 I Am A Teapot") {
            return StatusCode::Http418IAmATeapot;
        }
        if str_eq(value, "419 Authentication Timeout") {
            return StatusCode::Http419AuthenticationTimeout;
        }
        if str_eq(value, "421 Misdirected Request") {
            return StatusCode::Http421MisdirectedRequest;
        }
        if str_eq(value, "422 Uprocessable Entity") {
            return StatusCode::Http422UnprocessableEntity;
        }
        if str_eq(value, "423 Locked") {
            return StatusCode::Http423Locked;
        }
        if str_eq(value, "424 Failed Dependency") {
            return StatusCode::Http424FailedDependency;
        }
        if str_eq(value, "425 Too Early") {
            return StatusCode::Http425TooEarly;
        }
        if str_eq(value, "426 Upgrade Required") {
            return StatusCode::Http426UpgradeRequired;
        }
        if str_eq(value, "428 Precondition Required") {
            return StatusCode::Http428PreconditionRequired;
        }
        if str_eq(value, "429 Too Many Requests") {
            return StatusCode::Http429TooManyRequests;
        }
        if str_eq(value, "431 Request Header Fields Too Large") {
            return StatusCode::Http431RequestHeaderFieldsTooLarge;
        }
        if str_eq(value, "449 Retry With") {
            return StatusCode::Http449RetryWith;
        }
        if str_eq(value, "451 Unavailable For Legal Reasons") {
            return StatusCode::Http451UnavailableForLegalReasons;
        }
        if str_eq(value, "499 Client Closed Request") {
            return StatusCode::Http499ClientClosedRequest;
        }
        if str_eq(value, "500 Internal Server Error") {
            return StatusCode::Http500InternalServerError;
        }
        if str_eq(value, "501 Not Implemented") {
            return StatusCode::Http501NotImplemented;
        }
        if str_eq(value, "502 Bad Gateway") {
            return StatusCode::Http502BadGateway;
        }
        if str_eq(value, "503 Service Unavailable") {
            return StatusCode::Http503ServiceUnavailable;
        }
        if str_eq(value, "504 Gateway Timeout") {
            return StatusCode::Http504GatewayTimeout;
        }
        if str_eq(value, "505 HTTP Version Not Supported") {
            return StatusCode::Http505HttpVersionNotSupported;
        }
        if str_eq(value, "506 Variant Also Negotiated") {
            return StatusCode::Http506VariantAlsoNegotiates;
        }
        if str_eq(value, "507 Insufficient Storage") {
            return StatusCode::Http507InsufficientStorage;
        }
        if str_eq(value, "508 Loop Detected") {
            return StatusCode::Http508LoopDetected;
        }
        if str_eq(value, "509 Bandwidth Limit Exceeded") {
            return StatusCode::Http509BandwidthLimitExceeded;
        }
        if str_eq(value, "510 Not Extended") {
            return StatusCode::Http510NotExtended;
        }
        if str_eq(value, "511 Network Authentication Required") {
            return StatusCode::Http511NetworkAuthenticationRequired;
        }
        if str_eq(value, "520 Unknown Error") {
            return StatusCode::Http520UnknownError;
        }
        if str_eq(value, "521 Web Server Is Down") {
            return StatusCode::Http521WebServerIsDown;
        }
        if str_eq(value, "522 Connection Timed Out") {
            return StatusCode::Http522ConnectionTimedOut;
        }
        if str_eq(value, "523 Origin Is Unreachable") {
            return StatusCode::Http523OriginIsUnreachable;
        }
        if str_eq(value, "524 A Timeout Occurred") {
            return StatusCode::Http524ATimeoutOccurred;
        }
        if str_eq(value, "525 SSL Handshake Failed") {
            return StatusCode::Http525SslHandshakeFailed;
        }
        if str_eq(value, "526 Invalid SSL Certificate") {
            return StatusCode::Http526InvalidSslCertificate;
        }
        if str_eq(value, "Unknown") {
            return StatusCode::Unknown;
        }
        StatusCode::Unknown
    }
}

/// The media type that a media-type name stands for; aliases included.
pub open spec fn media_type_of(v: Seq<char>) -> ContentType {
    if v == "text/html"@ {
        ContentType::TextHtml
    }     else if v == "text/css"@ {
        ContentType::TextCss
    }     else if v == "text/plain"@ {
        ContentType::TextPlain
    }     else if v == "application/javascript"@ {
        ContentType::ApplicationJavascript
    }     else if v == "application/json"@ {
        ContentType::ApplicationJson
    }     else if v == "application/wasm"@ {
        ContentType::ApplicationWasm
    }     else if v == "application/xml"@ {
        ContentType::ApplicationXml
    }     else if v == "text/javascript"@ {
        ContentType::ApplicationJavascript
    }     else if v == "text/xml"@ {
        ContentType::ApplicationXml
    }     else if v == "image/jpeg"@ {
        ContentType::ImageJpeg
    }     else if v == "image/png"@ {
        ContentType::ImagePng
    }     else if v == "image/ico"@ {
        ContentType::ImageIcon
    }     else if v == "image/webp"@ {
        ContentType::ImageWebp
    }     else if v == "audio/aac"@ {
        ContentType::AudioAac
    }     else if v == "audio/mpeg"@ {
        ContentType::AudioMpeg
    }     else if v == "audio/ogg"@ {
        ContentType::AudioOgg
    }     else if v == "video/mpeg"@ {
        ContentType::VideoMpeg
    }     else if v == "video/mp4"@ {
        ContentType::VideoMp4
    }     else if v == "video/webm"@ {
        ContentType::AudioWebm
    } else {
        ContentType::Unknown
    }
}

/// The media type that a file extension stands for.
pub open spec fn type_of_extension(e: Seq<char>) -> ContentType {
    if e == "html"@ {
        ContentType::TextHtml
    }     else if e == "css"@ {
        ContentType::TextCss
    }     else if e == "js"@ {
        ContentType::ApplicationJavascript
    }     else if e == "png"@ {
        ContentType::ImagePng
    }     else if e == "json"@ {
        ContentType::ApplicationJson
    }     else if e == "ico"@ {
        ContentType::ImageIcon
    }     else if e == "wasm"@ {
        ContentType::ApplicationWasm
    }     else if e == "txt"@ {
        ContentType::TextPlain
    }     else if e == "xml"@ {
        ContentType::ApplicationXml
    }     else if e == "jpg"@ {
        ContentType::ImageJpeg
    }     else if e == "webp"@ {
        ContentType::ImageWebp
    }     else if e == "aac"@ {
        ContentType::AudioAac
    }     else if e == "mp3"@ {
        ContentType::AudioMpeg
    }     else if e == "ogg"@ {
        ContentType::AudioOgg
    }     else if e == "mpeg"@ {
        ContentType::VideoMpeg
    }     else if e == "mp4"@ {
        ContentType::VideoMp4
    }     else if e == "webm"@ {
        ContentType::AudioWebm
    } else {
        ContentType::Unknown
    }
}

/// Index of the last occurrence of `c` in `s`, or -1.
pub open spec fn last_index_of(s: Seq<char>, c: char) -> int
    decreases s.len(),
{
    if s.len() == 0 {
        -1
    } else if s.last() == c {
        s.len() - 1
    } else {
        last_index_of(s.drop_last(), c)
    }
}

/// The last segment of a slash-separated path.
pub open spec fn file_name(p: Seq<char>) -> Seq<char> {
    p.subrange(last_index_of(p, '/') + 1, p.len() as int)
}

/// What follows the last dot of a file name, when that dot is not its first
/// character.
pub open spec fn extension(name: Seq<char>) -> Option<Seq<char>> {
    let d = last_index_of(name, '.');
    if d > 0 {
        Some(name.subrange(d + 1, name.len() as int))
    } else {
        None
    }
}

/// The media type guessed from the extension of the path's file name.
pub open spec fn guessed_type(p: Seq<char>) -> ContentType {
    match extension(file_name(p)) {
        Some(e) => type_of_extension(e),
        None => ContentType::Unknown,
    }
}

proof fn lemma_last_index_bounds(s: Seq<char>, c: char)
    ensures
        -1 <= last_index_of(s, c) < s.len(),
        last_index_of(s, c) >= 0 ==> s[last_index_of(s, c)] == c,
    decreases s.len(),
{
    if s.len() > 0 && s.last() != c {
        lemma_last_index_bounds(s.drop_last(), c);
    }
}

/// Index of the last `c` in `v` before position `end`, if there is one.
fn last_index(v: &Vec<char>, end: usize, c: char) -> (r: Option<usize>)
    requires
        end <= v@.len(),
    ensures
        match r {
            Some(i) => i == last_index_of(v@.subrange(0, end as int), c),
            None => last_index_of(v@.subrange(0, end as int), c) == -1,
        },
{
    let mut i: usize = end;
    while i > 0
        invariant
            i <= end <= v@.len(),
            last_index_of(v@.subrange(0, end as int), c) == last_index_of(v@.subrange(0, i as int), c),
        decreases i,
    {
        assert(v@.subrange(0, i as int).drop_last() == v@.subrange(0, i - 1));
        if v[i - 1] == c {
            return Some(i - 1);
        }
        i = i - 1;
    }
    None
}

impl ContentType {
    /// The media type name sent in a `Content-Type` header.
    pub open spec fn text(self) -> Seq<char> {
        match self {
            ContentType::Unknown => "*/*"@,
            ContentType::TextPlain => "text/plain"@,
            ContentType::TextHtml => "text/html"@,
            ContentType::TextCss => "text/css"@,
            ContentType::ApplicationJavascript => "application/javascript"@,
            ContentType::ApplicationJson => "application/json"@,
            ContentType::ApplicationWasm => "application/wasm"@,
            ContentType::ApplicationXml => "application/xml"@,
            ContentType::ImagePng => "image/png"@,
            ContentType::ImageJpeg => "image/jpeg"@,
            ContentType::ImageIcon => "image/vnd.microsoft.icon"@,
            ContentType::ImageWebp => "image/webp"@,
            ContentType::AudioAac => "audio/aac"@,
            ContentType::AudioMpeg => "audio/mpeg"@,
            ContentType::AudioOgg => "audio/ogg"@,
            ContentType::AudioWebm => "video/webm"@,
            ContentType::VideoMpeg => "video/mpeg"@,
            ContentType::VideoMp4 => "video/mp4"@,
            ContentType::VideoWebm => "video/webm"@,
        }
    }

    pub fn as_str(&self) -> (r: &'static str)
        ensures
            r@ == self.text(),
    {
        match self {
            ContentType::Unknown => "*/*",
            ContentType::TextPlain => "text/plain",
            ContentType::TextHtml => "text/html",
            ContentType::TextCss => "text/css",
            ContentType::ApplicationJavascript => "application/javascript",
            ContentType::ApplicationJson => "application/json",
            ContentType::ApplicationWasm => "application/wasm",
            ContentType::ApplicationXml => "application/xml",
            ContentType::ImagePng => "image/png",
            ContentType::ImageJpeg => "image/jpeg",
            ContentType::ImageIcon => "image/vnd.microsoft.icon",
            ContentType::ImageWebp => "image/webp",
            ContentType::AudioAac => "audio/aac",
            ContentType::AudioMpeg => "audio/mpeg",
            ContentType::AudioOgg => "audio/ogg",
            ContentType::AudioWebm => "video/webm",
            ContentType::VideoMpeg => "video/mpeg",
            ContentType::VideoMp4 => "video/mp4",
            ContentType::VideoWebm => "video/webm",
        }
    }

    /// The media type named by `value`, or `Unknown` when the name is not known.
    pub fn from_str(value: &str) -> (r: Self)
        ensures
            r == media_type_of(value@),
    {
        if str_eq(value, "text/html") {
            return ContentType::TextHtml;
        }
        if str_eq(value, "text/css") {
            return ContentType::TextCss;
        }
        if str_eq(value, "text/plain") {
            return ContentType::TextPlain;
        }
        if str_eq(value, "application/javascript") {
            return ContentType::ApplicationJavascript;
        }
        if str_eq(value, "application/json") {
            return ContentType::ApplicationJson;
        }
        if str_eq(value, "application/wasm") {
            return ContentType::ApplicationWasm;
        }
        if str_eq(value, "application/xml") {
            return ContentType::ApplicationXml;
        }
        if str_eq(value, "text/javascript") {
            return ContentType::ApplicationJavascript;
        }
        if str_eq(value, "text/xml") {
            return ContentType::ApplicationXml;
        }
        if str_eq(value, "image/jpeg") {
            return ContentType::ImageJpeg;
        }
        if str_eq(value, "image/png") {
            return ContentType::ImagePng;
        }
        if str_eq(value, "image/ico") {
            return ContentType::ImageIcon;
        }
        if str_eq(value, "image/webp") {
            return ContentType::ImageWebp;
        }
        if str_eq(value, "audio/aac") {
            return ContentType::AudioAac;
        }
        if str_eq(value, "audio/mpeg") {
            return ContentType::AudioMpeg;
        }
        if str_eq(value, "audio/ogg") {
            return ContentType::AudioOgg;
        }
        if str_eq(value, "video/mpeg") {
            return ContentType::VideoMpeg;
        }
        if str_eq(value, "video/mp4") {
            return ContentType::VideoMp4;
        }
        if str_eq(value, "video/webm") {
            return ContentType::AudioWebm;
        }
        ContentType::Unknown
    }

    /// Guesses the media type of a file from the extension of its name.
    pub fn guess(path: &str) -> (r: Self)
        ensures
            r == guessed_type(path@),
    {
        let v = chars_of(path);
        proof {
            assert(v@.subrange(0, v@.len() as int) == v@);
            lemma_last_index_bounds(v@, '/');
        }
        let start = match last_index(&v, v.len(), '/') {
            Some(i) => i + 1,
            None => 0,
        };
        let name = path.substring_char(start, v.len());
        let nv = chars_of(name);
        proof {
            assert(nv@.subrange(0, nv@.len() as int) == nv@);
            lemma_last_index_bounds(nv@, '.');
        }
        let dot = match last_index(&nv, nv.len(), '.') {
            Some(i) => i,
            None => 0,
        };
        if dot == 0 {
            return ContentType::Unknown;
        }
        let ext = name.substring_char(dot + 1, nv.len());
        if str_eq(ext, "html") {
            return ContentType::TextHtml;
        }
        if str_eq(ext, "css") {
            return ContentType::TextCss;
        }
        if str_eq(ext, "js") {
            return ContentType::ApplicationJavascript;
        }
        if str_eq(ext, "png") {
            return ContentType::ImagePng;
        }
        if str_eq(ext, "json") {
            return ContentType::ApplicationJson;
        }
        if str_eq(ext, "ico") {
            return ContentType::ImageIcon;
        }
        if str_eq(ext, "wasm") {
            return ContentType::ApplicationWasm;
        }
        if str_eq(ext, "txt") {
            return ContentType::TextPlain;
        }
        if str_eq(ext, "xml") {
            return ContentType::ApplicationXml;
        }
        if str_eq(ext, "jpg") {
            return ContentType::ImageJpeg;
        }
        if str_eq(ext, "webp") {
            return ContentType::ImageWebp;
        }
        if str_eq(ext, "aac") {
            return ContentType::AudioAac;
        }
        if str_eq(ext, "mp3") {
            return ContentType::AudioMpeg;
        }
        if str_eq(ext, "ogg") {
            return ContentType::AudioOgg;
        }
        if str_eq(ext, "mpeg") {
            return ContentType::VideoMpeg;
        }
        if str_eq(ext, "mp4") {
            return ContentType::VideoMp4;
        }
        if str_eq(ext, "webm") {
            return ContentType::AudioWebm;
        }
        ContentType::Unknown
    }

    /// Whether a file of this type is served as text rather than as raw bytes.
    pub open spec fn is_text(self) -> bool {
        ||| self == ContentType::TextHtml
        ||| self == ContentType::TextCss
        ||| self == ContentType::ApplicationJavascript
        ||| self == ContentType::ApplicationJson
    }
}

} // verus!
