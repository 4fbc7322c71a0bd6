//! The error taxonomy of the proxy: a message, an HTTP-style status code and
//! a closed kind tag, assigned together at construction.

use vstd::prelude::*;

use crate::classify::is_loading_text;
use crate::classify::is_model_loading_error;
use crate::text::lower_of;

verus! {

/// The closed set of failure kinds. `Custom` is the only kind whose status
/// code is caller-supplied; every other kind fixes its code.
#[derive(Clone, Copy, Debug, PartialEq, Eq, Structural)]
pub enum ProxyErrorKind {
    RequestCancelled,
    InternalServerError,
    BadRequest,
    NotFound,
    NotImplemented,
    LMStudioUnavailable,
    ModelLoading,
    Custom,
}

/// One failure surfaced to a caller: a human-readable message, the
/// protocol-facing status code, and the kind tag the code was derived from.
#[derive(Clone, Debug)]
pub struct ProxyError {
    pub message: String,
    pub status_code: u16,
    pub kind: ProxyErrorKind,
}

impl ProxyError {
    /// A custom error with a caller-supplied status code.
    pub fn new(message: String, status_code: u16) -> (e: Self)
        ensures
            e.message@ == message@,
            e.status_code == status_code,
            e.kind == ProxyErrorKind::Custom,
    {
        Self { message, status_code, kind: ProxyErrorKind::Custom }
    }

    /// An internal server error, status 500.
    pub fn internal_server_error(message: &str) -> (e: Self)
        ensures
            e.message@ == message@,
            e.status_code == 500,
            e.kind == ProxyErrorKind::InternalServerError,
    {
        Self {
            message: String::from_str(message),
            status_code: 500,
            kind: ProxyErrorKind::InternalServerError,
        }
    }

    /// A bad request, status 400.
    pub fn bad_request(message: &str) -> (e: Self)
        ensures
            e.message@ == message@,
            e.status_code == 400,
            e.kind == ProxyErrorKind::BadRequest,
    {
        Self {
            message: String::from_str(message),
            status_code: 400,
            kind: ProxyErrorKind::BadRequest,
        }
    }

    /// A not-found error, status 404.
    pub fn not_found(message: &str) -> (e: Self)
        ensures
            e.message@ == message@,
            e.status_code == 404,
            e.kind == ProxyErrorKind::NotFound,
    {
        Self {
            message: String::from_str(message),
            status_code: 404,
            kind: ProxyErrorKind::NotFound,
        }
    }

    /// A not-implemented error, status 501.
    pub fn not_implemented(message: &str) -> (e: Self)
        ensures
            e.message@ == message@,
            e.status_code == 501,
            e.kind == ProxyErrorKind::NotImplemented,
    {
        Self {
            message: String::from_str(message),
            status_code: 501,
            kind: ProxyErrorKind::NotImplemented,
        }
    }

    /// The cancelled-request error: a fixed message and status 499.
    pub fn request_cancelled() -> (e: Self)
        ensures
            e.message@ == "Request cancelled"@,
            e.status_code == 499,
            e.kind == ProxyErrorKind::RequestCancelled,
    {
        Self {
            message: String::from_str("Request cancelled"),
            status_code: 499,
            kind: ProxyErrorKind::RequestCancelled,
        }
    }

    /// A backend-unavailable error, status 503.
    pub fn lm_studio_unavailable(message: &str) -> (e: Self)
        ensures
            e.message@ == message@,
            e.status_code == 503,
            e.kind == ProxyErrorKind::LMStudioUnavailable,
    {
        Self {
            message: String::from_str(message),
            status_code: 503,
            kind: ProxyErrorKind::LMStudioUnavailable,
        }
    }

    /// A model-loading error, status 503.
    pub fn model_loading(message: &str) -> (e: Self)
        ensures
            e.message@ == message@,
            e.status_code == 503,
            e.kind == ProxyErrorKind::ModelLoading,
    {
        Self {
            message: String::from_str(message),
            status_code: 503,
            kind: ProxyErrorKind::ModelLoading,
        }
    }

    /// Whether the request was cancelled.
    pub fn is_cancelled(&self) -> (r: bool)
        ensures
            r == (self.kind == ProxyErrorKind::RequestCancelled),
    {
        matches!(self.kind, ProxyErrorKind::RequestCancelled)
    }

    /// Whether the backend was unavailable.
    pub fn is_lm_studio_unavailable(&self) -> (r: bool)
        ensures
            r == (self.kind == ProxyErrorKind::LMStudioUnavailable),
    {
        matches!(self.kind, ProxyErrorKind::LMStudioUnavailable)
    }

    /// Whether this error points at a loading condition: either its kind says
    /// so, or its message text satisfies the classifier's text rule. The OR is
    /// deliberate: upstream-originated errors often arrive as generic kinds
    /// whose text still indicates loading.
    pub fn is_model_loading(&self) -> (r: bool)
        ensures
            r == (self.kind == ProxyErrorKind::ModelLoading || is_loading_text(
                lower_of(self.message@),
            )),
    {
        matches!(self.kind, ProxyErrorKind::ModelLoading) || is_model_loading_error(
            self.message.as_str(),
        )
    }

    /// The rendering of this error as one line, in place of `Display`.
    pub fn describe(&self) -> (r: String)
        ensures
            r@ == "ProxyError "@ + crate::render::dec_str(self.status_code as nat) + ": "@
                + self.message@,
    {
        let mut s = String::from_str("ProxyError ");
        let code = crate::render::u16_to_string(self.status_code);
        s.append(code.as_str());
        s.append(": ");
        s.append(self.message.as_str());
        s
    }
}

} // verus!
