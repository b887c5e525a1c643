//! Request handling: parameter checks, answer text, tool dispatch and the
//! bookkeeping after each call.
use vstd::prelude::*;
use crate::text::same_text;
use crate::utils::error::ArkaftMcpError;
use crate::utils::ServerMetrics;

pub mod handlers;

verus! {

/// The four operations the server offers.
#[derive(Clone, Copy, Debug, PartialEq, Eq, Structural)]
pub enum ToolKind {
    AdkQuery,
    ReviewRustFile,
    ValidateArchitecture,
    GetBestPractices,
}

impl ToolKind {
    /// The operation a tool name stands for.
    pub open spec fn named(name: Seq<char>) -> Option<ToolKind> {
        if name == "adk_query"@ {
            Some(ToolKind::AdkQuery)
        } else if name == "review_rust_file"@ {
            Some(ToolKind::ReviewRustFile)
        } else if name == "validate_architecture"@ {
            Some(ToolKind::ValidateArchitecture)
        } else if name == "get_best_practices"@ {
            Some(ToolKind::GetBestPractices)
        } else {
            None
        }
    }

    /// The operation for a tool name; an unknown name is a tool execution
    /// error.
    pub fn from_name(name: &str) -> (r: Result<ToolKind, ArkaftMcpError>)
        ensures
            match ToolKind::named(name@) {
                Some(k) => r == Ok::<ToolKind, ArkaftMcpError>(k),
                None => r matches Err(ArkaftMcpError::ToolExecution(m)) && m@ == "Unknown tool: "@
                    + name@,
            },
    {
        if same_text(name, "adk_query") {
            Ok(ToolKind::AdkQuery)
        } else if same_text(name, "review_rust_file") {
            Ok(ToolKind::ReviewRustFile)
        } else if same_text(name, "validate_architecture") {
            Ok(ToolKind::ValidateArchitecture)
        } else if same_text(name, "get_best_practices") {
            Ok(ToolKind::GetBestPractices)
        } else {
            let mut msg = String::from_str("Unknown tool: ");
            msg.append(name);
            Err(ArkaftMcpError::tool_execution(msg))
        }
    }
}

/// Records how a tool call ended (a failure, or a success with its latency)
/// and says whether the periodic health check is now due.
pub fn record_tool_outcome(metrics: &mut ServerMetrics, succeeded: bool, response_time_ms: u64) -> (r:
    bool)
    ensures
        *final(metrics) == (if succeeded {
            old(metrics).after_success(response_time_ms)
        } else {
            old(metrics).after_failure()
        }),
        r == (final(metrics).total_tool_calls % 100 == 0),
{
    if succeeded {
        metrics.record_success(response_time_ms);
    } else {
        metrics.record_failure();
    }
    metrics.health_check_due()
}

} // verus!
