//! The service's error kinds and the error envelope sent to clients.
use vstd::prelude::*;
use vstd::string::*;

verus! {

/// The error envelope: a status code and a message.
#[derive(Debug)]
pub struct ErrorResponse {
    pub code: i32,
    pub message: String,
}

/// What went wrong in a request.
#[derive(Debug)]
pub enum AppError {
    /// The database failed; the details are logged, not sent.
    DatabaseError,
    NotFound(String),
    BadRequest(String),
    Unauthorized(String),
    InternalError(String),
    AuthError(String),
    /// A request body could not be decoded; holds the decoder's description.
    ProtobufError(String),
}

/// The status code of an error.
pub open spec fn status_of(e: AppError) -> i32 {
    match e {
        AppError::DatabaseError => 500,
        AppError::NotFound(_) => 404,
        AppError::BadRequest(_) => 400,
        AppError::Unauthorized(_) => 401,
        AppError::InternalError(_) => 500,
        AppError::AuthError(_) => 401,
        AppError::ProtobufError(_) => 400,
    }
}

/// The message sent to clients for an error.
pub open spec fn message_of(e: AppError) -> Seq<char> {
    match e {
        AppError::DatabaseError => "数据库错误"@,
        AppError::NotFound(m) => m@,
        AppError::BadRequest(m) => m@,
        AppError::Unauthorized(m) => m@,
        AppError::InternalError(m) => m@,
        AppError::AuthError(m) => m@,
        AppError::ProtobufError(d) => "Protobuf 解析错误: "@ + d@,
    }
}

impl AppError {
    /// The envelope sent to clients for this error.
    pub fn to_error_response(self) -> (r: ErrorResponse)
        ensures
            r.code == status_of(self),
            r.message@ == message_of(self),
    {
        match self {
            AppError::DatabaseError => ErrorResponse {
                code: 500,
                message: String::from_str("数据库错误"),
            },
            AppError::NotFound(m) => ErrorResponse { code: 404, message: m },
            AppError::BadRequest(m) => ErrorResponse { code: 400, message: m },
            AppError::Unauthorized(m) => ErrorResponse { code: 401, message: m },
            AppError::InternalError(m) => ErrorResponse { code: 500, message: m },
            AppError::AuthError(m) => ErrorResponse { code: 401, message: m },
            AppError::ProtobufError(d) => {
                let mut message = String::from_str("Protobuf 解析错误: ");
                message.append(d.as_str());
                ErrorResponse { code: 400, message }
            },
        }
    }
}

} // verus!
