//! The error that crosses the transport boundary: a status code and a
//! message, and the status that each kind of service failure maps to.

use crate::domains::picture::service::{PictureServiceError, PictureServiceErrorView};
use crate::domains::user::service::{UserServiceError, UserServiceErrorView};
use vstd::prelude::*;
use vstd::string::*;

verus! {

pub const BAD_REQUEST: u16 = 400;

pub const UNAUTHORIZED: u16 = 401;

pub const FORBIDDEN: u16 = 403;

pub const NOT_FOUND: u16 = 404;

pub const CONFLICT: u16 = 409;

pub const GONE: u16 = 410;

pub const INTERNAL_SERVER_ERROR: u16 = 500;

/// A failure as the transport reports it.
#[derive(Debug)]
pub struct AppError {
    pub status_code: u16,
    pub message: String,
}

pub struct AppErrorView {
    pub status_code: u16,
    pub message: Seq<char>,
}

impl View for AppError {
    type V = AppErrorView;

    open spec fn view(&self) -> AppErrorView {
        AppErrorView { status_code: self.status_code, message: self.message@ }
    }
}

/// The transport's report of an identity failure: each kind has one status,
/// and the explanation is carried over.
pub open spec fn spec_from_user_service_error(error: UserServiceErrorView) -> AppErrorView {
    match error {
        UserServiceErrorView::ValidationError(m) => AppErrorView {
            status_code: BAD_REQUEST,
            message: m,
        },
        UserServiceErrorView::InternalServerError(m) => AppErrorView {
            status_code: INTERNAL_SERVER_ERROR,
            message: m,
        },
        UserServiceErrorView::Unauthorized(m) => AppErrorView {
            status_code: UNAUTHORIZED,
            message: m,
        },
        UserServiceErrorView::InvalidToken(m) => AppErrorView {
            status_code: BAD_REQUEST,
            message: m,
        },
        UserServiceErrorView::TokenExpired(m) => AppErrorView { status_code: GONE, message: m },
        UserServiceErrorView::TokenAlreadyUsed(m) => AppErrorView {
            status_code: CONFLICT,
            message: m,
        },
        UserServiceErrorView::UserNotFound(m) => AppErrorView {
            status_code: NOT_FOUND,
            message: m,
        },
    }
}

/// The transport's report of a picture failure.
pub open spec fn spec_from_picture_service_error(error: PictureServiceErrorView) -> AppErrorView {
    match error {
        PictureServiceErrorView::InternalServerError(m) => AppErrorView {
            status_code: INTERNAL_SERVER_ERROR,
            message: m,
        },
        PictureServiceErrorView::BadRequest(m) => AppErrorView {
            status_code: BAD_REQUEST,
            message: m,
        },
        PictureServiceErrorView::NotFound(m) => AppErrorView { status_code: NOT_FOUND, message: m },
        PictureServiceErrorView::Forbidden(m) => AppErrorView {
            status_code: FORBIDDEN,
            message: m,
        },
    }
}

impl AppError {
    pub fn new(status_code: u16, message: &str) -> (error: Self)
        ensures
            error@ == (AppErrorView { status_code, message: message@ }),
    {
        AppError { status_code, message: String::from_str(message) }
    }

    pub fn bad_request(message: &str) -> (error: Self)
        ensures
            error@ == (AppErrorView { status_code: BAD_REQUEST, message: message@ }),
    {
        Self::new(BAD_REQUEST, message)
    }

    pub fn unauthorized(message: &str) -> (error: Self)
        ensures
            error@ == (AppErrorView { status_code: UNAUTHORIZED, message: message@ }),
    {
        Self::new(UNAUTHORIZED, message)
    }

    pub fn not_found(message: &str) -> (error: Self)
        ensures
            error@ == (AppErrorView { status_code: NOT_FOUND, message: message@ }),
    {
        Self::new(NOT_FOUND, message)
    }

    pub fn forbidden(message: &str) -> (error: Self)
        ensures
            error@ == (AppErrorView { status_code: FORBIDDEN, message: message@ }),
    {
        Self::new(FORBIDDEN, message)
    }

    pub fn internal_server_error(message: &str) -> (error: Self)
        ensures
            error@ == (AppErrorView { status_code: INTERNAL_SERVER_ERROR, message: message@ }),
    {
        Self::new(INTERNAL_SERVER_ERROR, message)
    }

    /// Reports an identity failure.
    pub fn from_user_service_error(error: UserServiceError) -> (report: Self)
        ensures
            report@ == spec_from_user_service_error(error@),
    {
        match error {
            UserServiceError::ValidationError(m) => AppError {
                status_code: BAD_REQUEST,
                message: m,
            },
            UserServiceError::InternalServerError(m) => AppError {
                status_code: INTERNAL_SERVER_ERROR,
                message: m,
            },
            UserServiceError::Unauthorized(m) => AppError { status_code: UNAUTHORIZED, message: m },
            UserServiceError::InvalidToken(m) => AppError { status_code: BAD_REQUEST, message: m },
            UserServiceError::TokenExpired(m) => AppError { status_code: GONE, message: m },
            UserServiceError::TokenAlreadyUsed(m) => AppError { status_code: CONFLICT, message: m },
            UserServiceError::UserNotFound(m) => AppError { status_code: NOT_FOUND, message: m },
        }
    }

    /// Reports a picture failure.
    pub fn from_picture_service_error(error: PictureServiceError) -> (report: Self)
        ensures
            report@ == spec_from_picture_service_error(error@),
    {
        match error {
            PictureServiceError::InternalServerError(m) => AppError {
                status_code: INTERNAL_SERVER_ERROR,
                message: m,
            },
            PictureServiceError::BadRequest(m) => AppError { status_code: BAD_REQUEST, message: m },
            PictureServiceError::NotFound(m) => AppError { status_code: NOT_FOUND, message: m },
            PictureServiceError::Forbidden(m) => AppError { status_code: FORBIDDEN, message: m },
        }
    }
}

} // verus!
