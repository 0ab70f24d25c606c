//! The error type shared by every component, and what each error shows to an
//! API caller.

use vstd::prelude::*;

verus! {

/// An error with one text for the API caller and one for the log.
#[derive(Debug)]
pub struct AppMsgError {
    pub api_msg_error: String,
    pub log_msg_error: String,
}

/// The mathematical content of an [`AppMsgError`].
pub struct AppMsgErrorView {
    pub api_msg_error: Seq<char>,
    pub log_msg_error: Seq<char>,
}

impl View for AppMsgError {
    type V = AppMsgErrorView;

    open spec fn view(&self) -> AppMsgErrorView {
        AppMsgErrorView { api_msg_error: self.api_msg_error@, log_msg_error: self.log_msg_error@ }
    }
}

/// Every failure the service can report.
#[derive(Debug)]
pub enum AppError {
    BadRequest(String),
    NotFound(AppMsgError),
    ConstraintViolation(AppMsgError),
    UnprocessableEntity(AppMsgError),
    DBError(String),
    ActixError(String),
    ScryptError(AppMsgError),
    Unauthorized(AppMsgError),
    AuthError(AppMsgError),
    InternalServerError(String),
    MqttError(AppMsgError),
    MongoDBError(AppMsgError),
}

/// The mathematical content of an [`AppError`].
pub enum AppErrorView {
    BadRequest(Seq<char>),
    NotFound(AppMsgErrorView),
    ConstraintViolation(AppMsgErrorView),
    UnprocessableEntity(AppMsgErrorView),
    DBError(Seq<char>),
    ActixError(Seq<char>),
    ScryptError(AppMsgErrorView),
    Unauthorized(AppMsgErrorView),
    AuthError(AppMsgErrorView),
    InternalServerError(Seq<char>),
    MqttError(AppMsgErrorView),
    MongoDBError(AppMsgErrorView),
}

impl View for AppError {
    type V = AppErrorView;

    open spec fn view(&self) -> AppErrorView {
        match self {
            AppError::BadRequest(m) => AppErrorView::BadRequest(m@),
            AppError::NotFound(m) => AppErrorView::NotFound(m@),
            AppError::ConstraintViolation(m) => AppErrorView::ConstraintViolation(m@),
            AppError::UnprocessableEntity(m) => AppErrorView::UnprocessableEntity(m@),
            AppError::DBError(m) => AppErrorView::DBError(m@),
            AppError::ActixError(m) => AppErrorView::ActixError(m@),
            AppError::ScryptError(m) => AppErrorView::ScryptError(m@),
            AppError::Unauthorized(m) => AppErrorView::Unauthorized(m@),
            AppError::AuthError(m) => AppErrorView::AuthError(m@),
            AppError::InternalServerError(m) => AppErrorView::InternalServerError(m@),
            AppError::MqttError(m) => AppErrorView::MqttError(m@),
            AppError::MongoDBError(m) => AppErrorView::MongoDBError(m@),
        }
    }
}

/// The body of an error reply.
#[derive(Debug)]
pub struct ErrorResponse {
    pub error_message: String,
}

impl AppErrorView {
    /// The text shown to the API caller: the caller-facing message where the
    /// error carries one, a fixed text where its payload is for the log only.
    pub open spec fn response_text(self) -> Seq<char> {
        match self {
            AppErrorView::BadRequest(m) => m,
            AppErrorView::NotFound(m) => m.api_msg_error,
            AppErrorView::ConstraintViolation(m) => m.api_msg_error,
            AppErrorView::UnprocessableEntity(m) => m.api_msg_error,
            AppErrorView::DBError(_) => "internal server error"@,
            AppErrorView::ActixError(_) => "Actix error"@,
            AppErrorView::ScryptError(m) => m.api_msg_error,
            AppErrorView::Unauthorized(_) => "Unauthorized"@,
            AppErrorView::AuthError(_) => "Auth error"@,
            AppErrorView::InternalServerError(_) => "Internal server error"@,
            AppErrorView::MqttError(m) => m.api_msg_error,
            AppErrorView::MongoDBError(m) => m.api_msg_error,
        }
    }

    /// The HTTP status that goes with the error.
    pub open spec fn status(self) -> u16 {
        match self {
            AppErrorView::BadRequest(_) => 400,
            AppErrorView::NotFound(_) => 404,
            AppErrorView::ConstraintViolation(_) => 409,
            AppErrorView::UnprocessableEntity(_) => 422,
            AppErrorView::Unauthorized(_) => 401,
            _ => 500,
        }
    }
}

impl AppError {
    /// The text shown to the API caller.
    pub fn error_response(&self) -> (text: String)
        ensures
            text@ == self@.response_text(),
    {
        match self {
            AppError::BadRequest(msg) => msg.clone(),
            AppError::NotFound(msg) => msg.api_msg_error.clone(),
            AppError::DBError(_) => "internal server error".to_owned(),
            AppError::ConstraintViolation(msg) => msg.api_msg_error.clone(),
            AppError::ActixError(_) => "Actix error".to_owned(),
            AppError::UnprocessableEntity(msg) => msg.api_msg_error.clone(),
            AppError::ScryptError(msg) => msg.api_msg_error.clone(),
            AppError::Unauthorized(_) => "Unauthorized".to_owned(),
            AppError::AuthError(_) => "Auth error".to_owned(),
            AppError::InternalServerError(_) => "Internal server error".to_owned(),
            AppError::MqttError(msg) => msg.api_msg_error.clone(),
            AppError::MongoDBError(msg) => msg.api_msg_error.clone(),
        }
    }

    /// The HTTP status that goes with the error.
    pub fn status_code(&self) -> (code: u16)
        ensures
            code == self@.status(),
    {
        match self {
            AppError::BadRequest(_) => 400,
            AppError::NotFound(_) => 404,
            AppError::ConstraintViolation(_) => 409,
            AppError::UnprocessableEntity(_) => 422,
            AppError::Unauthorized(_) => 401,
            _ => 500,
        }
    }

    /// The reply body for the error.
    pub fn response_body(&self) -> (body: ErrorResponse)
        ensures
            body.error_message@ == self@.response_text(),
    {
        ErrorResponse { error_message: self.error_response() }
    }

    /// A rejected request, with the reason given to the caller.
    pub fn bad_request(reason: &str) -> (e: AppError)
        ensures
            e@ == AppErrorView::BadRequest(reason@),
    {
        AppError::BadRequest(reason.to_owned())
    }

    /// An error for something that does not exist.
    pub fn not_found(api_msg_error: String, log_msg_error: String) -> (e: AppError)
        ensures
            e@ == AppErrorView::NotFound(
                AppMsgErrorView { api_msg_error: api_msg_error@, log_msg_error: log_msg_error@ },
            ),
    {
        AppError::NotFound(AppMsgError { api_msg_error, log_msg_error })
    }

    /// A failure of the relational store, with the store's own words for the log.
    pub fn from_db(detail: String) -> (e: AppError)
        ensures
            e@ == AppErrorView::DBError(detail@),
    {
        AppError::DBError(detail)
    }

    /// A failure of the web framework, with its own words for the log.
    pub fn from_actix(detail: String) -> (e: AppError)
        ensures
            e@ == AppErrorView::ActixError(detail@),
    {
        AppError::ActixError(detail)
    }

    /// A failure of the token library, with its own words for the log.
    pub fn from_auth(detail: String) -> (e: AppError)
        ensures
            e@ == AppErrorView::AuthError(
                AppMsgErrorView {
                    api_msg_error: "Internal server error"@,
                    log_msg_error: detail@,
                },
            ),
    {
        AppError::AuthError(
            AppMsgError { api_msg_error: "Internal server error".to_owned(), log_msg_error: detail },
        )
    }

    /// A failure of the message transport, with its own words for the log.
    pub fn mqtt(api_msg_error: &str, detail: String) -> (e: AppError)
        ensures
            e@ == AppErrorView::MqttError(
                AppMsgErrorView { api_msg_error: api_msg_error@, log_msg_error: detail@ },
            ),
    {
        AppError::MqttError(
            AppMsgError { api_msg_error: api_msg_error.to_owned(), log_msg_error: detail },
        )
    }

    /// A failure of the document store, with its own words for the log.
    pub fn mongo(detail: String) -> (e: AppError)
        ensures
            e@ == AppErrorView::MongoDBError(
                AppMsgErrorView {
                    api_msg_error: "Internal server error"@,
                    log_msg_error: detail@,
                },
            ),
    {
        AppError::MongoDBError(
            AppMsgError { api_msg_error: "Internal server error".to_owned(), log_msg_error: detail },
        )
    }
}

} // verus!
