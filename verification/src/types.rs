//! The records of the service and its closed set of failures.

use crate::status::status_number;
use http::StatusCode;
use vstd::prelude::*;

verus! {

/// What an optional value holds, as text.
pub open spec fn option_view<T: View>(value: Option<T>) -> Option<T::V> {
    match value {
        Some(inner) => Some(inner@),
        None => None,
    }
}

/// A registered user: a name and the credential stored for it.
#[derive(Debug, Clone, PartialEq, Eq)]
pub struct User {
    pub name: String,
    pub key: String,
}

/// What a [`User`] holds, as text.
pub struct UserView {
    pub name: Seq<char>,
    pub key: Seq<char>,
}

impl View for User {
    type V = UserView;

    open spec fn view(&self) -> UserView {
        UserView { name: self.name@, key: self.key@ }
    }
}

/// A client's progress indicator: the bit pattern of a single-precision number.
/// The service stores and returns it and never looks inside.
#[derive(Debug, Clone, Copy, PartialEq, Eq)]
pub struct Percentage {
    pub bits: u32,
}

/// The reading progress of one user in one document, as stored.
#[derive(Debug, Clone, PartialEq, Eq)]
pub struct ProgressState {
    pub document: String,
    pub percentage: Percentage,
    pub progress: String,
    pub device: String,
    pub device_id: String,
    /// Seconds since the Unix epoch at which the record was written.
    pub timestamp: u64,
}

/// What a [`ProgressState`] holds, as text.
pub struct ProgressStateView {
    pub document: Seq<char>,
    pub percentage: Percentage,
    pub progress: Seq<char>,
    pub device: Seq<char>,
    pub device_id: Seq<char>,
    pub timestamp: u64,
}

impl View for ProgressState {
    type V = ProgressStateView;

    open spec fn view(&self) -> ProgressStateView {
        ProgressStateView {
            document: self.document@,
            percentage: self.percentage,
            progress: self.progress@,
            device: self.device@,
            device_id: self.device_id@,
            timestamp: self.timestamp,
        }
    }
}

/// The progress that a client reports; it names no time.
#[derive(Debug, Clone, PartialEq, Eq)]
pub struct ProgressUpdate {
    pub document: String,
    pub percentage: Percentage,
    pub progress: String,
    pub device: String,
    pub device_id: Option<String>,
}

/// What a [`ProgressUpdate`] holds, as text.
pub struct ProgressUpdateView {
    pub document: Seq<char>,
    pub percentage: Percentage,
    pub progress: Seq<char>,
    pub device: Seq<char>,
    pub device_id: Option<Seq<char>>,
}

impl View for ProgressUpdate {
    type V = ProgressUpdateView;

    open spec fn view(&self) -> ProgressUpdateView {
        ProgressUpdateView {
            document: self.document@,
            percentage: self.percentage,
            progress: self.progress@,
            device: self.device@,
            device_id: option_view(self.device_id),
        }
    }
}

impl ProgressUpdateView {
    /// The record that the update becomes when it is written at `timestamp`:
    /// every reported field as it came, an unnamed device as the empty text.
    pub open spec fn stamped(self, timestamp: u64) -> ProgressStateView {
        ProgressStateView {
            document: self.document,
            percentage: self.percentage,
            progress: self.progress,
            device: self.device,
            device_id: match self.device_id {
                Some(id) => id,
                None => Seq::empty(),
            },
            timestamp,
        }
    }
}

impl ProgressState {
    /// The record that `update` becomes when it is written at `timestamp`.
    pub fn stamped(update: ProgressUpdate, timestamp: u64) -> (state: ProgressState)
        ensures
            state@ == update@.stamped(timestamp),
    {
        let device_id = match update.device_id {
            Some(id) => id,
            None => String::new(),
        };
        ProgressState {
            document: update.document,
            percentage: update.percentage,
            progress: update.progress,
            device: update.device,
            device_id,
            timestamp,
        }
    }
}

/// Every way in which a call can fail.
#[derive(Debug, Clone, PartialEq, Eq)]
pub enum AppError {
    StoreError,
    UnknownServerError,
    Unauthorized,
    UsernameAlreadyRegistered,
    InvalidRequest,
    DocumentNotProvided,
    Custom { message: String },
}

/// What an [`AppError`] holds, as text.
pub enum AppErrorView {
    StoreError,
    UnknownServerError,
    Unauthorized,
    UsernameAlreadyRegistered,
    InvalidRequest,
    DocumentNotProvided,
    Custom { message: Seq<char> },
}

impl View for AppError {
    type V = AppErrorView;

    open spec fn view(&self) -> AppErrorView {
        match self {
            AppError::StoreError => AppErrorView::StoreError,
            AppError::UnknownServerError => AppErrorView::UnknownServerError,
            AppError::Unauthorized => AppErrorView::Unauthorized,
            AppError::UsernameAlreadyRegistered => AppErrorView::UsernameAlreadyRegistered,
            AppError::InvalidRequest => AppErrorView::InvalidRequest,
            AppError::DocumentNotProvided => AppErrorView::DocumentNotProvided,
            AppError::Custom { message } => AppErrorView::Custom { message: message@ },
        }
    }
}

impl AppErrorView {
    /// The stable application code of the failure.
    pub open spec fn code(self) -> u16 {
        match self {
            AppErrorView::StoreError => 1000,
            AppErrorView::UnknownServerError => 2000,
            AppErrorView::Unauthorized => 2001,
            AppErrorView::UsernameAlreadyRegistered => 2002,
            AppErrorView::InvalidRequest => 2003,
            AppErrorView::DocumentNotProvided => 2004,
            AppErrorView::Custom { .. } => 3000,
        }
    }

    /// The number of the HTTP status with which the failure is reported.
    pub open spec fn status(self) -> u16 {
        match self {
            AppErrorView::StoreError => 502,
            AppErrorView::UnknownServerError => 502,
            AppErrorView::Unauthorized => 401,
            AppErrorView::UsernameAlreadyRegistered => 402,
            AppErrorView::InvalidRequest => 403,
            AppErrorView::DocumentNotProvided => 403,
            AppErrorView::Custom { .. } => 500,
        }
    }

    /// The text with which the failure is reported.
    pub open spec fn message(self) -> Seq<char> {
        match self {
            AppErrorView::StoreError => "Cannot connect to redis server"@,
            AppErrorView::UnknownServerError => "Unknown server error."@,
            AppErrorView::Unauthorized => "Unauthorized"@,
            AppErrorView::UsernameAlreadyRegistered => "Username is already registered."@,
            AppErrorView::InvalidRequest => "Invalid request"@,
            AppErrorView::DocumentNotProvided => "Field 'document' not provided."@,
            AppErrorView::Custom { message } => message,
        }
    }
}

impl AppError {
    /// The stable application code of the failure.
    pub fn code(&self) -> (code: u16)
        ensures
            code == self@.code(),
    {
        match self {
            AppError::StoreError => 1000,
            AppError::UnknownServerError => 2000,
            AppError::Unauthorized => 2001,
            AppError::UsernameAlreadyRegistered => 2002,
            AppError::InvalidRequest => 2003,
            AppError::DocumentNotProvided => 2004,
            AppError::Custom { .. } => 3000,
        }
    }

    /// The HTTP status with which the failure is reported.
    pub fn status(&self) -> (status: StatusCode)
        ensures
            status_number(status) == self@.status(),
    {
        let number: u16 = match self {
            AppError::StoreError => 502,
            AppError::UnknownServerError => 502,
            AppError::Unauthorized => 401,
            AppError::UsernameAlreadyRegistered => 402,
            AppError::InvalidRequest => 403,
            AppError::DocumentNotProvided => 403,
            AppError::Custom { .. } => 500,
        };
        match StatusCode::from_u16(number) {
            Ok(status) => status,
            Err(_) => vstd::pervasive::unreached(),
        }
    }

    /// The text with which the failure is reported.
    pub fn message(&self) -> (message: &str)
        ensures
            message@ == self@.message(),
    {
        match self {
            AppError::UnknownServerError => "Unknown server error.",
            AppError::Unauthorized => "Unauthorized",
            AppError::UsernameAlreadyRegistered => "Username is already registered.",
            AppError::InvalidRequest => "Invalid request",
            AppError::DocumentNotProvided => "Field 'document' not provided.",
            AppError::StoreError => "Cannot connect to redis server",
            AppError::Custom { message } => message.as_str(),
        }
    }
}

} // verus!
