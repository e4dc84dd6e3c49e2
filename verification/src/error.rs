//! Error codes of the service.
use vstd::prelude::*;
use vstd::string::StringExecFns;
use crate::text::push_char;

verus! {

/// Failures of the service itself.
#[derive(Debug, Clone, Copy, PartialEq, Eq, Structural)]
pub enum SystemErrorCode {
    UnknownError,
    InternalServerError,
    NotFound,
    RequestTimeout,
    ServiceUnavailable,
    DatabaseError,
    RedisError,
    SerdeJsonError,
    JwtEncodeError,
    Argon2HashError,
}

impl SystemErrorCode {
    /// The number sent for this code: they count up from 20000.
    pub open spec fn number(self) -> usize {
        match self {
            SystemErrorCode::UnknownError => 20000,
            SystemErrorCode::InternalServerError => 20001,
            SystemErrorCode::NotFound => 20002,
            SystemErrorCode::RequestTimeout => 20003,
            SystemErrorCode::ServiceUnavailable => 20004,
            SystemErrorCode::DatabaseError => 20005,
            SystemErrorCode::RedisError => 20006,
            SystemErrorCode::SerdeJsonError => 20007,
            SystemErrorCode::JwtEncodeError => 20008,
            SystemErrorCode::Argon2HashError => 20009,
        }
    }

    /// The number sent for this code.
    pub fn code(self) -> (number: usize)
        ensures
            number == self.number(),
    {
        match self {
            SystemErrorCode::UnknownError => 20000,
            SystemErrorCode::InternalServerError => 20001,
            SystemErrorCode::NotFound => 20002,
            SystemErrorCode::RequestTimeout => 20003,
            SystemErrorCode::ServiceUnavailable => 20004,
            SystemErrorCode::DatabaseError => 20005,
            SystemErrorCode::RedisError => 20006,
            SystemErrorCode::SerdeJsonError => 20007,
            SystemErrorCode::JwtEncodeError => 20008,
            SystemErrorCode::Argon2HashError => 20009,
        }
    }
}

/// Failures that the caller of the service can mend.
#[derive(Debug, Clone, Copy, PartialEq, Eq, Structural)]
pub enum BusinessErrorCode {
    UnknownError,
    ValidationError,
    FormRejectionError,
    JsonRejectionError,
    QueryRejectionError,
    PathRejectionError,
    PasswordHashError,
    AuthFailed,
    Unauthorized,
    Forbidden,
    AlreadyExists,
    NotFound,
    PasswordNotMatch,
    UserOrPasswordNotMatch,
}

impl BusinessErrorCode {
    /// The number sent for this code: they count up from 10000.
    pub open spec fn number(self) -> usize {
        match self {
            BusinessErrorCode::UnknownError => 10000,
            BusinessErrorCode::ValidationError => 10001,
            BusinessErrorCode::FormRejectionError => 10002,
            BusinessErrorCode::JsonRejectionError => 10003,
            BusinessErrorCode::QueryRejectionError => 10004,
            BusinessErrorCode::PathRejectionError => 10005,
            BusinessErrorCode::PasswordHashError => 10006,
            BusinessErrorCode::AuthFailed => 10007,
            BusinessErrorCode::Unauthorized => 10008,
            BusinessErrorCode::Forbidden => 10009,
            BusinessErrorCode::AlreadyExists => 10010,
            BusinessErrorCode::NotFound => 10011,
            BusinessErrorCode::PasswordNotMatch => 10012,
            BusinessErrorCode::UserOrPasswordNotMatch => 10013,
        }
    }

    /// The number sent for this code.
    pub fn code(self) -> (number: usize)
        ensures
            number == self.number(),
    {
        match self {
            BusinessErrorCode::UnknownError => 10000,
            BusinessErrorCode::ValidationError => 10001,
            BusinessErrorCode::FormRejectionError => 10002,
            BusinessErrorCode::JsonRejectionError => 10003,
            BusinessErrorCode::QueryRejectionError => 10004,
            BusinessErrorCode::PathRejectionError => 10005,
            BusinessErrorCode::PasswordHashError => 10006,
            BusinessErrorCode::AuthFailed => 10007,
            BusinessErrorCode::Unauthorized => 10008,
            BusinessErrorCode::Forbidden => 10009,
            BusinessErrorCode::AlreadyExists => 10010,
            BusinessErrorCode::NotFound => 10011,
            BusinessErrorCode::PasswordNotMatch => 10012,
            BusinessErrorCode::UserOrPasswordNotMatch => 10013,
        }
    }
}

/// Status of an answer that carries a failure the caller can mend.
pub const STATUS_OK: u16 = 200;

/// Status of an answer that carries a failure of the service.
pub const STATUS_INTERNAL_SERVER_ERROR: u16 = 500;

/// The message sent in place of the details of a failure of the service.
pub const INTERNAL_MESSAGE: &'static str = "Internal Server Error";

/// A failure of a request. Each variant holds, as text, what the answer to
/// the caller or the log needs of it.
#[derive(Debug)]
pub enum BuboError {
    OtherError(String),
    SystemError(SystemErrorCode, String),
    BusinessError(BusinessErrorCode, String),
    /// The validation failures, one per line.
    ValidationError(String),
    FormRejectionError(String),
    DatabaseError(String),
    RedisError(String),
    SerdeJsonError(String),
    JsonRejectionError(String),
    QueryRejectionError(String),
    PathRejectionError(String),
    JsonDeserializerRejectionError(String),
    PasswordHashError(String),
}

/// What is sent to the caller for a failure.
#[derive(Debug)]
pub struct ErrorResponse {
    /// The HTTP status.
    pub status: u16,
    /// The number of the error code.
    pub error_code: usize,
    /// The message shown to the caller.
    pub error_message: String,
}

/// What stands in a message for the character `c` of a text of several
/// lines: a comma and a space for a line break, and the character itself
/// otherwise.
pub open spec fn joined_char(c: char) -> Seq<char> {
    if c == '\n' {
        seq![',', ' ']
    } else {
        seq![c]
    }
}

/// The text with a comma and a space in place of every line break.
pub open spec fn spec_join_lines(text: Seq<char>) -> Seq<char>
    decreases text.len(),
{
    if text.len() == 0 {
        Seq::<char>::empty()
    } else {
        spec_join_lines(text.drop_last()) + joined_char(text.last())
    }
}

/// The status sent for a failure: 200 for one that the caller can mend, 500
/// for one of the service.
pub open spec fn spec_status(error: BuboError) -> u16 {
    match error {
        BuboError::BusinessError(_, _)
        | BuboError::ValidationError(_)
        | BuboError::FormRejectionError(_)
        | BuboError::JsonRejectionError(_)
        | BuboError::QueryRejectionError(_)
        | BuboError::PathRejectionError(_)
        | BuboError::JsonDeserializerRejectionError(_) => STATUS_OK,
        _ => STATUS_INTERNAL_SERVER_ERROR,
    }
}

/// The error code sent for a failure.
pub open spec fn spec_error_code(error: BuboError) -> usize {
    match error {
        BuboError::OtherError(_) => SystemErrorCode::UnknownError.number(),
        BuboError::SystemError(code, _) => code.number(),
        BuboError::BusinessError(code, _) => code.number(),
        BuboError::ValidationError(_) => BusinessErrorCode::ValidationError.number(),
        BuboError::FormRejectionError(_) => BusinessErrorCode::FormRejectionError.number(),
        BuboError::JsonRejectionError(_) => BusinessErrorCode::JsonRejectionError.number(),
        BuboError::QueryRejectionError(_) => BusinessErrorCode::QueryRejectionError.number(),
        BuboError::PathRejectionError(_) => BusinessErrorCode::PathRejectionError.number(),
        BuboError::JsonDeserializerRejectionError(_) => BusinessErrorCode::PathRejectionError.number(),
        BuboError::PasswordHashError(_) => BusinessErrorCode::PasswordHashError.number(),
        BuboError::DatabaseError(_) => SystemErrorCode::DatabaseError.number(),
        BuboError::RedisError(_) => SystemErrorCode::RedisError.number(),
        BuboError::SerdeJsonError(_) => SystemErrorCode::SerdeJsonError.number(),
    }
}

/// The message sent for a failure: its own text for one that the caller can
/// mend (validation failures on one line), a fixed text for one of the
/// service.
pub open spec fn spec_error_message(error: BuboError) -> Seq<char> {
    match error {
        BuboError::BusinessError(_, message) => message@,
        BuboError::ValidationError(message) => spec_join_lines(message@),
        BuboError::FormRejectionError(message) => message@,
        BuboError::JsonRejectionError(message) => message@,
        BuboError::QueryRejectionError(message) => message@,
        BuboError::PathRejectionError(message) => message@,
        BuboError::JsonDeserializerRejectionError(message) => message@,
        _ => INTERNAL_MESSAGE@,
    }
}

/// Puts a text of several lines on one line: a comma and a space stand for
/// every line break.
pub fn join_lines(text: &str) -> (joined: String)
    ensures
        joined@ == spec_join_lines(text@),
{
    let length = text.unicode_len();
    let mut joined = String::new();
    let mut at: usize = 0;
    assert(text@.subrange(0, 0) =~= Seq::<char>::empty());
    while at < length
        invariant
            at <= length,
            length == text@.len(),
            joined@ == spec_join_lines(text@.subrange(0, at as int)),
        decreases length - at,
    {
        let c = text.get_char(at);
        if c == '\n' {
            push_char(&mut joined, ',');
            push_char(&mut joined, ' ');
        } else {
            push_char(&mut joined, c);
        }
        at = at + 1;
        proof {
            let prefix = text@.subrange(0, at as int);
            assert(prefix.drop_last() =~= text@.subrange(0, at - 1));
            assert(prefix.last() == c);
            assert(joined@ =~= spec_join_lines(prefix.drop_last()) + joined_char(c));
        }
    }
    assert(text@.subrange(0, at as int) =~= text@);
    joined
}

impl BuboError {
    /// A failure of the service with the given code.
    pub fn system_error(error_code: SystemErrorCode, error_message: String) -> (error: BuboError)
        ensures
            error == BuboError::SystemError(error_code, error_message),
    {
        BuboError::SystemError(error_code, error_message)
    }

    /// A failure that the caller can mend, with the given code.
    pub fn business_error(error_code: BusinessErrorCode, error_message: String) -> (error:
        BuboError)
        ensures
            error == BuboError::BusinessError(error_code, error_message),
    {
        BuboError::BusinessError(error_code, error_message)
    }

    /// What is sent to the caller for this failure.
    pub fn into_error_response(self) -> (response: ErrorResponse)
        ensures
            response.status == spec_status(self),
            response.error_code == spec_error_code(self),
            response.error_message@ == spec_error_message(self),
    {
        match self {
            BuboError::OtherError(_) => ErrorResponse {
                status: STATUS_INTERNAL_SERVER_ERROR,
                error_code: SystemErrorCode::UnknownError.code(),
                error_message: String::from_str(INTERNAL_MESSAGE),
            },
            BuboError::SystemError(error_code, _) => ErrorResponse {
                status: STATUS_INTERNAL_SERVER_ERROR,
                error_code: error_code.code(),
                error_message: String::from_str(INTERNAL_MESSAGE),
            },
            BuboError::BusinessError(error_code, error_message) => ErrorResponse {
                status: STATUS_OK,
                error_code: error_code.code(),
                error_message,
            },
            BuboError::ValidationError(lines) => ErrorResponse {
                status: STATUS_OK,
                error_code: BusinessErrorCode::ValidationError.code(),
                error_message: join_lines(lines.as_str()),
            },
            BuboError::FormRejectionError(body_text) => ErrorResponse {
                status: STATUS_OK,
                error_code: BusinessErrorCode::FormRejectionError.code(),
                error_message: body_text,
            },
            BuboError::JsonRejectionError(body_text) => ErrorResponse {
                status: STATUS_OK,
                error_code: BusinessErrorCode::JsonRejectionError.code(),
                error_message: body_text,
            },
            BuboError::QueryRejectionError(body_text) => ErrorResponse {
                status: STATUS_OK,
                error_code: BusinessErrorCode::QueryRejectionError.code(),
                error_message: body_text,
            },
            BuboError::PathRejectionError(body_text) => ErrorResponse {
                status: STATUS_OK,
                error_code: BusinessErrorCode::PathRejectionError.code(),
                error_message: body_text,
            },
            BuboError::JsonDeserializerRejectionError(body_text) => ErrorResponse {
                status: STATUS_OK,
                error_code: BusinessErrorCode::PathRejectionError.code(),
                error_message: body_text,
            },
            BuboError::PasswordHashError(_) => ErrorResponse {
                status: STATUS_INTERNAL_SERVER_ERROR,
                error_code: BusinessErrorCode::PasswordHashError.code(),
                error_message: String::from_str(INTERNAL_MESSAGE),
            },
            BuboError::DatabaseError(_) => ErrorResponse {
                status: STATUS_INTERNAL_SERVER_ERROR,
                error_code: SystemErrorCode::DatabaseError.code(),
                error_message: String::from_str(INTERNAL_MESSAGE),
            },
            BuboError::RedisError(_) => ErrorResponse {
                status: STATUS_INTERNAL_SERVER_ERROR,
                error_code: SystemErrorCode::RedisError.code(),
                error_message: String::from_str(INTERNAL_MESSAGE),
            },
            BuboError::SerdeJsonError(_) => ErrorResponse {
                status: STATUS_INTERNAL_SERVER_ERROR,
                error_code: SystemErrorCode::SerdeJsonError.code(),
                error_message: String::from_str(INTERNAL_MESSAGE),
            },
        }
    }
}

/// Status of the answer to a request that took too long.
pub const STATUS_REQUEST_TIMEOUT: u16 = 408;

/// Status of the answer to a request that was turned away under load.
pub const STATUS_SERVICE_UNAVAILABLE: u16 = 503;

/// Status of the answer to a request for a route that does not exist.
pub const STATUS_NOT_FOUND: u16 = 404;

/// The message of a request that took too long.
pub const TIMEOUT_MESSAGE: &'static str = "请求超时";

/// The message of a request that was turned away under load.
pub const OVERLOADED_MESSAGE: &'static str = "服务过载，请稍后再试";

/// The message of a failure that nothing else handled.
pub const UNHANDLED_MESSAGE: &'static str = "未处理的内部错误";

/// What stands before the path in the message for a missing route.
pub const NOT_FOUND_PREFIX: &'static str = "找不到路由: ";

/// A failure of the layers around the handlers.
#[derive(Debug, Clone, Copy, PartialEq, Eq, Structural)]
pub enum ServiceFailure {
    /// The request took too long.
    Timeout,
    /// The service is under too much load.
    Overloaded,
    /// Anything else.
    Unhandled,
}

/// What is sent for a failure of the layers around the handlers.
pub fn handle_timeout_error(failure: ServiceFailure) -> (response: ErrorResponse)
    ensures
        response.status == match failure {
            ServiceFailure::Timeout => STATUS_REQUEST_TIMEOUT,
            ServiceFailure::Overloaded => STATUS_SERVICE_UNAVAILABLE,
            ServiceFailure::Unhandled => STATUS_INTERNAL_SERVER_ERROR,
        },
        response.error_code == match failure {
            ServiceFailure::Timeout => SystemErrorCode::RequestTimeout.number(),
            ServiceFailure::Overloaded => SystemErrorCode::ServiceUnavailable.number(),
            ServiceFailure::Unhandled => SystemErrorCode::InternalServerError.number(),
        },
        response.error_message@ == match failure {
            ServiceFailure::Timeout => TIMEOUT_MESSAGE@,
            ServiceFailure::Overloaded => OVERLOADED_MESSAGE@,
            ServiceFailure::Unhandled => UNHANDLED_MESSAGE@,
        },
{
    match failure {
        ServiceFailure::Timeout => ErrorResponse {
            status: STATUS_REQUEST_TIMEOUT,
            error_code: SystemErrorCode::RequestTimeout.code(),
            error_message: String::from_str(TIMEOUT_MESSAGE),
        },
        ServiceFailure::Overloaded => ErrorResponse {
            status: STATUS_SERVICE_UNAVAILABLE,
            error_code: SystemErrorCode::ServiceUnavailable.code(),
            error_message: String::from_str(OVERLOADED_MESSAGE),
        },
        ServiceFailure::Unhandled => ErrorResponse {
            status: STATUS_INTERNAL_SERVER_ERROR,
            error_code: SystemErrorCode::InternalServerError.code(),
            error_message: String::from_str(UNHANDLED_MESSAGE),
        },
    }
}

/// What is sent for a request to a path that no route serves.
pub fn json_fallback(path: &str) -> (response: ErrorResponse)
    ensures
        response.status == STATUS_NOT_FOUND,
        response.error_code == SystemErrorCode::NotFound.number(),
        response.error_message@ == NOT_FOUND_PREFIX@ + path@,
{
    ErrorResponse {
        status: STATUS_NOT_FOUND,
        error_code: SystemErrorCode::NotFound.code(),
        error_message: String::from_str(NOT_FOUND_PREFIX).concat(path),
    }
}

} // verus!
