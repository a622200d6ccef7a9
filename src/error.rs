use vstd::prelude::*;

verus! {

/// The failures the service distinguishes.
#[derive(Debug, Clone, PartialEq, Eq)]
pub enum AppError {
    /// Misconfigured credentials or environment.
    Config(String),
    /// The credential was rejected upstream.
    Auth,
    /// Authenticated but not allowed.
    Forbidden,
    /// Malformed input from the caller.
    BadRequest(String),
    /// The platform answered unexpectedly, or could not be reached.
    Upstream(String),
    /// An unexpected local failure.
    Internal,
}

/// The HTTP status an error is answered with.
pub open spec fn status_of(e: AppError) -> u16 {
    match e {
        AppError::Config(_) => 500,
        AppError::Auth => 401,
        AppError::Forbidden => 403,
        AppError::BadRequest(_) => 400,
        AppError::Upstream(_) => 502,
        AppError::Internal => 500,
    }
}

/// The message an error is answered with.
pub open spec fn public_message_of(e: AppError) -> Seq<char> {
    match e {
        AppError::Config(m) => m@,
        AppError::Auth => "authentication required"@,
        AppError::Forbidden => "forbidden"@,
        AppError::BadRequest(m) => m@,
        AppError::Upstream(m) => m@,
        AppError::Internal => "internal error"@,
    }
}

/// The text that describes an error.
pub open spec fn description_of(e: AppError) -> Seq<char> {
    match e {
        AppError::Config(m) => "configuration error: "@ + m@,
        AppError::Auth => "authentication failed"@,
        AppError::Forbidden => "forbidden"@,
        AppError::BadRequest(m) => "bad request: "@ + m@,
        AppError::Upstream(m) => "upstream error: "@ + m@,
        AppError::Internal => "internal error"@,
    }
}

impl AppError {
    /// The HTTP status this error is answered with.
    pub fn status_code(&self) -> (r: u16)
        ensures
            r == status_of(*self),
    {
        match self {
            AppError::Config(_) => 500,
            AppError::Auth => 401,
            AppError::Forbidden => 403,
            AppError::BadRequest(_) => 400,
            AppError::Upstream(_) => 502,
            AppError::Internal => 500,
        }
    }

    /// The message this error is answered with.
    pub fn public_message(&self) -> (r: String)
        ensures
            r@ == public_message_of(*self),
    {
        match self {
            AppError::Config(m) => m.clone(),
            AppError::Auth => "authentication required".to_owned(),
            AppError::Forbidden => "forbidden".to_owned(),
            AppError::BadRequest(m) => m.clone(),
            AppError::Upstream(m) => m.clone(),
            AppError::Internal => "internal error".to_owned(),
        }
    }

    /// The text that describes this error.
    pub fn describe(&self) -> (r: String)
        ensures
            r@ == description_of(*self),
    {
        match self {
            AppError::Config(m) => "configuration error: ".to_owned().concat(m.as_str()),
            AppError::Auth => "authentication failed".to_owned(),
            AppError::Forbidden => "forbidden".to_owned(),
            AppError::BadRequest(m) => "bad request: ".to_owned().concat(m.as_str()),
            AppError::Upstream(m) => "upstream error: ".to_owned().concat(m.as_str()),
            AppError::Internal => "internal error".to_owned(),
        }
    }
}

} // verus!
