//! The error taxonomy of the server and its severity classes.
use vstd::prelude::*;

verus! {

/// `std::io::Error`, carried opaque.
#[verifier::external_type_specification]
#[verifier::external_body]
pub struct ExIoError(std::io::Error);

/// `serde_json::Error`, carried opaque.
#[verifier::external_type_specification]
#[verifier::external_body]
pub struct ExJsonError(serde_json::Error);

/// `anyhow::Error`, carried opaque.
#[verifier::external_type_specification]
#[verifier::external_body]
pub struct ExAnyhowError(anyhow::Error);

/// Every error the server reports.
#[derive(Debug)]
pub enum ArkaftMcpError {
    /// Malformed protocol message
    McpProtocol(String),
    /// Documentation query failed
    DocumentationQuery(String),
    /// Code review failed
    CodeReview(String),
    /// Best-practice validation failed
    BestPractices(String),
    /// Bad configuration
    Configuration(String),
    /// A request parameter is missing or invalid
    ParameterValidation(String),
    /// A tool failed while running
    ToolExecution(String),
    /// The server could not start
    ServerInitialization(String),
    /// A health threshold was crossed
    ResourceLimit(String),
    /// Responses are too slow
    Timeout(String),
    /// Input/output failure
    Io(std::io::Error),
    /// JSON (de)serialization failure
    Json(serde_json::Error),
    /// Any other failure
    Internal(anyhow::Error),
}

/// How urgently an error needs attention.
#[derive(Debug, Clone, Copy, PartialEq, Eq, Structural)]
pub enum ErrorSeverity {
    /// Halts or blocks startup
    Critical,
    /// Logged and alerted, not fatal
    High,
    /// Logged and reported to the caller
    Medium,
    /// Recoverable; only the caller is told
    Low,
}

impl ArkaftMcpError {
    /// Errors the caller can correct or retry.
    pub open spec fn recoverable_spec(&self) -> bool {
        match self {
            ArkaftMcpError::ParameterValidation(_) | ArkaftMcpError::DocumentationQuery(_)
            | ArkaftMcpError::CodeReview(_) | ArkaftMcpError::BestPractices(_)
            | ArkaftMcpError::Timeout(_) => true,
            _ => false,
        }
    }

    /// The severity class of each kind of error.
    pub open spec fn severity_spec(&self) -> ErrorSeverity {
        match self {
            ArkaftMcpError::McpProtocol(_) | ArkaftMcpError::ServerInitialization(_) => {
                ErrorSeverity::Critical
            },
            ArkaftMcpError::Configuration(_) | ArkaftMcpError::ResourceLimit(_) => {
                ErrorSeverity::High
            },
            ArkaftMcpError::ToolExecution(_) | ArkaftMcpError::Io(_) | ArkaftMcpError::Json(_)
            | ArkaftMcpError::Internal(_) => ErrorSeverity::Medium,
            _ => ErrorSeverity::Low,
        }
    }

    /// A parameter validation error.
    pub fn parameter_validation(msg: String) -> (r: Self)
        ensures
            r == ArkaftMcpError::ParameterValidation(msg),
    {
        ArkaftMcpError::ParameterValidation(msg)
    }

    /// A tool execution error.
    pub fn tool_execution(msg: String) -> (r: Self)
        ensures
            r == ArkaftMcpError::ToolExecution(msg),
    {
        ArkaftMcpError::ToolExecution(msg)
    }

    /// A server initialization error.
    pub fn server_initialization(msg: String) -> (r: Self)
        ensures
            r == ArkaftMcpError::ServerInitialization(msg),
    {
        ArkaftMcpError::ServerInitialization(msg)
    }

    /// A resource limit error.
    pub fn resource_limit(msg: String) -> (r: Self)
        ensures
            r == ArkaftMcpError::ResourceLimit(msg),
    {
        ArkaftMcpError::ResourceLimit(msg)
    }

    /// A timeout error.
    pub fn timeout(msg: String) -> (r: Self)
        ensures
            r == ArkaftMcpError::Timeout(msg),
    {
        ArkaftMcpError::Timeout(msg)
    }

    /// Whether the caller can correct or retry.
    pub fn is_recoverable(&self) -> (r: bool)
        ensures
            r == self.recoverable_spec(),
    {
        match self {
            ArkaftMcpError::ParameterValidation(_) | ArkaftMcpError::DocumentationQuery(_)
            | ArkaftMcpError::CodeReview(_) | ArkaftMcpError::BestPractices(_)
            | ArkaftMcpError::Timeout(_) => true,
            _ => false,
        }
    }

    /// The severity class of this error.
    pub fn severity(&self) -> (r: ErrorSeverity)
        ensures
            r == self.severity_spec(),
    {
        match self {
            ArkaftMcpError::McpProtocol(_) | ArkaftMcpError::ServerInitialization(_) => {
                ErrorSeverity::Critical
            },
            ArkaftMcpError::Configuration(_) | ArkaftMcpError::ResourceLimit(_) => {
                ErrorSeverity::High
            },
            ArkaftMcpError::ToolExecution(_) | ArkaftMcpError::Io(_) | ArkaftMcpError::Json(_)
            | ArkaftMcpError::Internal(_) => ErrorSeverity::Medium,
            ArkaftMcpError::ParameterValidation(_) | ArkaftMcpError::DocumentationQuery(_)
            | ArkaftMcpError::CodeReview(_) | ArkaftMcpError::BestPractices(_)
            | ArkaftMcpError::Timeout(_) => ErrorSeverity::Low,
        }
    }
}

} // verus!
