use vstd::prelude::*;
use vstd::string::StringExecFns;

verus! {

/// Outcomes of the domain's operations that are not a success.
#[derive(Debug, Clone, PartialEq, Eq)]
pub enum DomainError {
    UserNotFound,
    InvalidCredentials,
    PermissionDenied,
    InvalidStatus(String),
    Unexpected(String),
}

/// A domain error as a plain value.
pub enum DomainErrorView {
    UserNotFound,
    InvalidCredentials,
    PermissionDenied,
    InvalidStatus(Seq<char>),
    Unexpected(Seq<char>),
}

impl View for DomainError {
    type V = DomainErrorView;

    open spec fn view(&self) -> DomainErrorView {
        match self {
            DomainError::UserNotFound => DomainErrorView::UserNotFound,
            DomainError::InvalidCredentials => DomainErrorView::InvalidCredentials,
            DomainError::PermissionDenied => DomainErrorView::PermissionDenied,
            DomainError::InvalidStatus(s) => DomainErrorView::InvalidStatus(s@),
            DomainError::Unexpected(s) => DomainErrorView::Unexpected(s@),
        }
    }
}

/// Faults of the services behind the domain.
#[derive(Debug, Clone, PartialEq, Eq)]
pub enum InfrastructureError {
    Database(String),
    Kafka(String),
    ClickHouse(String),
}

/// What the transport layer answers when a request is turned away.
#[derive(Debug, Clone, PartialEq, Eq)]
pub enum ApiError {
    BadRequest { message: String },
    Unauthorized { message: String },
    Forbidden { message: String },
    NotFound { message: String },
    Internal,
}

impl DomainError {
    /// The text that describes the error.
    pub open spec fn spec_message(&self) -> Seq<char> {
        match self {
            DomainError::UserNotFound => "user not found"@,
            DomainError::InvalidCredentials => "invalid credentials"@,
            DomainError::PermissionDenied => "permission denied"@,
            DomainError::InvalidStatus(s) => "invalid status `"@ + s@ + "`"@,
            DomainError::Unexpected(s) => "unexpected error: "@ + s@,
        }
    }

    /// The text that describes the error.
    pub fn message(&self) -> (out: String)
        ensures
            out@ == self.spec_message(),
    {
        match self {
            DomainError::UserNotFound => String::from_str("user not found"),
            DomainError::InvalidCredentials => String::from_str("invalid credentials"),
            DomainError::PermissionDenied => String::from_str("permission denied"),
            DomainError::InvalidStatus(s) => {
                let mut out = String::from_str("invalid status `");
                out.append(s.as_str());
                out.append("`");
                out
            },
            DomainError::Unexpected(s) => {
                let mut out = String::from_str("unexpected error: ");
                out.append(s.as_str());
                out
            },
        }
    }

    /// The error as which a fault of a collaborator is reported: an
    /// unexpected error stays as it is, any other becomes an unexpected error
    /// that carries its text.
    pub open spec fn spec_as_fault(&self) -> Seq<char> {
        match self {
            DomainError::Unexpected(s) => s@,
            _ => self.spec_message(),
        }
    }

    /// Reports a collaborator's failure as an unexpected error, whatever the
    /// collaborator called it: a failed lookup is never a denial.
    pub fn into_fault(self) -> (out: DomainError)
        ensures
            out is Unexpected,
            out->Unexpected_0@ == self.spec_as_fault(),
    {
        match self {
            DomainError::Unexpected(s) => DomainError::Unexpected(s),
            other => DomainError::Unexpected(other.message()),
        }
    }
}

impl InfrastructureError {
    /// The text that describes the fault.
    pub open spec fn spec_message(&self) -> Seq<char> {
        match self {
            InfrastructureError::Database(s) => "database error: "@ + s@,
            InfrastructureError::Kafka(s) => "kafka error: "@ + s@,
            InfrastructureError::ClickHouse(s) => "clickhouse error: "@ + s@,
        }
    }

    /// The text that describes the fault.
    pub fn message(&self) -> (out: String)
        ensures
            out@ == self.spec_message(),
    {
        match self {
            InfrastructureError::Database(s) => {
                let mut out = String::from_str("database error: ");
                out.append(s.as_str());
                out
            },
            InfrastructureError::Kafka(s) => {
                let mut out = String::from_str("kafka error: ");
                out.append(s.as_str());
                out
            },
            InfrastructureError::ClickHouse(s) => {
                let mut out = String::from_str("clickhouse error: ");
                out.append(s.as_str());
                out
            },
        }
    }
}

impl ApiError {
    /// The text sent to the caller. An internal failure shows no detail.
    pub open spec fn spec_message(&self) -> Seq<char> {
        match self {
            ApiError::BadRequest { message } => message@,
            ApiError::Unauthorized { message } => message@,
            ApiError::Forbidden { message } => message@,
            ApiError::NotFound { message } => message@,
            ApiError::Internal => "internal server error"@,
        }
    }

    /// The status code that stands for the outcome.
    pub open spec fn spec_status_code(&self) -> u16 {
        match self {
            ApiError::BadRequest { .. } => 400,
            ApiError::Unauthorized { .. } => 401,
            ApiError::Forbidden { .. } => 403,
            ApiError::NotFound { .. } => 404,
            ApiError::Internal => 500,
        }
    }

    /// The text sent to the caller.
    pub fn message(&self) -> (out: String)
        ensures
            out@ == self.spec_message(),
    {
        match self {
            ApiError::BadRequest { message } => message.clone(),
            ApiError::Unauthorized { message } => message.clone(),
            ApiError::Forbidden { message } => message.clone(),
            ApiError::NotFound { message } => message.clone(),
            ApiError::Internal => String::from_str("internal server error"),
        }
    }

    /// The status code that stands for the outcome.
    pub fn status_code(&self) -> (out: u16)
        ensures
            out == self.spec_status_code(),
    {
        match self {
            ApiError::BadRequest { .. } => 400,
            ApiError::Unauthorized { .. } => 401,
            ApiError::Forbidden { .. } => 403,
            ApiError::NotFound { .. } => 404,
            ApiError::Internal => 500,
        }
    }

    /// An unauthorized outcome with the given text.
    pub fn unauthorized(text: &str) -> (out: ApiError)
        ensures
            out is Unauthorized,
            out->Unauthorized_message@ == text@,
    {
        ApiError::Unauthorized { message: String::from_str(text) }
    }

    /// How a domain error is shown to the caller: what kind of outcome it
    /// becomes.
    pub open spec fn kind_of(value: DomainError) -> u16 {
        match value {
            DomainError::UserNotFound => 404,
            DomainError::InvalidCredentials => 401,
            DomainError::PermissionDenied => 403,
            DomainError::InvalidStatus(_) => 400,
            DomainError::Unexpected(_) => 500,
        }
    }

    /// The text with which a domain error is shown to the caller. The detail
    /// of an unexpected error is not shown.
    pub open spec fn text_of(value: DomainError) -> Seq<char> {
        match value {
            DomainError::UserNotFound => "user not found"@,
            DomainError::InvalidCredentials => "invalid credentials"@,
            DomainError::PermissionDenied => "forbidden"@,
            DomainError::InvalidStatus(msg) => msg@,
            DomainError::Unexpected(_) => "internal server error"@,
        }
    }

    /// Whether this is how the domain error is shown to the caller: it has
    /// the error's kind and text.
    pub open spec fn spec_shows(&self, value: DomainError) -> bool {
        self.spec_status_code() == Self::kind_of(value) && self.spec_message() == Self::text_of(
            value,
        )
    }

    /// Shows a domain error to the caller: not found, unauthorized,
    /// forbidden, bad request or internal, each with its text.
    pub fn from(value: DomainError) -> (out: ApiError)
        ensures
            out.spec_status_code() == Self::kind_of(value),
            out.spec_message() == Self::text_of(value),
            out.spec_shows(value),
    {
        match value {
            DomainError::UserNotFound => ApiError::NotFound {
                message: String::from_str("user not found"),
            },
            DomainError::InvalidCredentials => ApiError::Unauthorized {
                message: String::from_str("invalid credentials"),
            },
            DomainError::PermissionDenied => ApiError::Forbidden {
                message: String::from_str("forbidden"),
            },
            DomainError::InvalidStatus(msg) => ApiError::BadRequest { message: msg },
            DomainError::Unexpected(_msg) => ApiError::Internal,
        }
    }
}

} // verus!
