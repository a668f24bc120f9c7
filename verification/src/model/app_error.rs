//! Failures of a request and the status each is answered with.

use crate::model::error_response::ErrorResponse;
use crate::text::decimal;
use crate::text::decimal_text;
use vstd::prelude::*;

verus! {

pub enum AppError {
    ResourceNotFound { resource: String, id: u32 },
    ResourceIdMismatch { resource: String, path_id: u32, body_id: u32 },
    /// The database failed; the text is its report.
    DbError(String),
    /// A template failed to render; the text is the engine's report.
    TemplateError(String),
    /// A response failed to serialise; the text is the serialiser's report.
    SerializeError(String),
}

/// A failure as mathematical values.
pub enum AppErrorView {
    ResourceNotFound { resource: Seq<char>, id: u32 },
    ResourceIdMismatch { resource: Seq<char>, path_id: u32, body_id: u32 },
    DbError(Seq<char>),
    TemplateError(Seq<char>),
    SerializeError(Seq<char>),
}

impl View for AppError {
    type V = AppErrorView;

    open spec fn view(&self) -> AppErrorView {
        match self {
            AppError::ResourceNotFound { resource, id } => AppErrorView::ResourceNotFound {
                resource: resource@,
                id: *id,
            },
            AppError::ResourceIdMismatch {
                resource,
                path_id,
                body_id,
            } => AppErrorView::ResourceIdMismatch {
                resource: resource@,
                path_id: *path_id,
                body_id: *body_id,
            },
            AppError::DbError(report) => AppErrorView::DbError(report@),
            AppError::TemplateError(report) => AppErrorView::TemplateError(report@),
            AppError::SerializeError(report) => AppErrorView::SerializeError(report@),
        }
    }
}

pub const NOT_FOUND: u16 = 404;

pub const BAD_REQUEST: u16 = 400;

pub const INTERNAL_SERVER_ERROR: u16 = 500;

/// Name of the header that marks a response as built from an `AppError`.
pub const APP_ERROR_HEADER: &'static str = "App-Error";

/// The HTTP status that answers a failure: what is missing is not found, a
/// mismatch is the client's fault, the rest is the server's.
pub open spec fn status_of(e: AppErrorView) -> u16 {
    match e {
        AppErrorView::ResourceNotFound { .. } => NOT_FOUND,
        AppErrorView::ResourceIdMismatch { .. } => BAD_REQUEST,
        AppErrorView::DbError(_) => INTERNAL_SERVER_ERROR,
        AppErrorView::TemplateError(_) => INTERNAL_SERVER_ERROR,
        AppErrorView::SerializeError(_) => INTERNAL_SERVER_ERROR,
    }
}

/// The sentence that reports a failure.
pub open spec fn message_of(e: AppErrorView) -> Seq<char> {
    match e {
        AppErrorView::ResourceNotFound { resource, id } => "Resource not found: "@ + resource
            + " with id: "@ + decimal_text(id as nat),
        AppErrorView::ResourceIdMismatch { resource, path_id, body_id } => "Resource ID mismatch: "@
            + resource + " - Path ID "@ + decimal_text(path_id as nat)
            + " does not match Body ID "@ + decimal_text(body_id as nat),
        AppErrorView::DbError(report) => "Database error: "@ + report,
        AppErrorView::TemplateError(report) => "Template error: "@ + report,
        AppErrorView::SerializeError(report) => "XML serialize error: "@ + report,
    }
}

/// What a failed request is answered with: the status, and the envelope
/// that the body carries as JSON. The response is marked with the header
/// `App-Error: true`.
pub struct ErrorReply {
    pub status: u16,
    pub body: ErrorResponse,
}

impl AppError {
    /// The answer to a request that failed in this way.
    pub fn error_response(&self) -> (reply: ErrorReply)
        ensures
            reply.status == status_of(self@),
            reply.body.message_text() == message_of(self@),
    {
        ErrorReply { status: self.status_code(), body: ErrorResponse::new(self.message()) }
    }

    pub fn status_code(&self) -> (status: u16)
        ensures
            status == status_of(self@),
    {
        match self {
            AppError::ResourceNotFound { .. } => NOT_FOUND,
            AppError::ResourceIdMismatch { .. } => BAD_REQUEST,
            AppError::DbError(_) => INTERNAL_SERVER_ERROR,
            AppError::TemplateError(_) => INTERNAL_SERVER_ERROR,
            AppError::SerializeError(_) => INTERNAL_SERVER_ERROR,
        }
    }

    /// The sentence that reports the failure, as the body of the response
    /// carries it.
    pub fn message(&self) -> (text: String)
        ensures
            text@ == message_of(self@),
    {
        match self {
            AppError::ResourceNotFound { resource, id } => {
                let text = String::from_str("Resource not found: ");
                let text = text.concat(resource.as_str());
                let text = text.concat(" with id: ");
                text.concat(decimal(*id).as_str())
            },
            AppError::ResourceIdMismatch { resource, path_id, body_id } => {
                let text = String::from_str("Resource ID mismatch: ");
                let text = text.concat(resource.as_str());
                let text = text.concat(" - Path ID ");
                let text = text.concat(decimal(*path_id).as_str());
                let text = text.concat(" does not match Body ID ");
                text.concat(decimal(*body_id).as_str())
            },
            AppError::DbError(report) => String::from_str("Database error: ").concat(
                report.as_str(),
            ),
            AppError::TemplateError(report) => String::from_str("Template error: ").concat(
                report.as_str(),
            ),
            AppError::SerializeError(report) => String::from_str("XML serialize error: ").concat(
                report.as_str(),
            ),
        }
    }
}

} // verus!
