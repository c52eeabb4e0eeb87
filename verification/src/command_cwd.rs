//! The working directory to display for a thread item: taken from actual
//! command starts, without changing execution settings.

use vstd::prelude::*;
use crate::json::JsonValue;

verus! {

/// Who started a command.
#[derive(Debug, Clone, Copy, PartialEq, Eq, Structural)]
pub enum CommandExecutionSource {
    Agent,
    UserShell,
    UnifiedExecStartup,
    UnifiedExecInteraction,
}

/// Progress of a command.
#[derive(Debug, Clone, Copy, PartialEq, Eq, Structural)]
pub enum CommandExecutionStatus {
    InProgress,
    Completed,
    Failed,
    Declined,
}

/// An item of a thread, as the app server describes it. Items other than
/// command executions carry their content as opaque JSON.
#[derive(Debug, PartialEq)]
pub enum ThreadItem {
    CommandExecution {
        id: String,
        command: String,
        cwd: String,
        source: CommandExecutionSource,
        status: CommandExecutionStatus,
    },
    Other(JsonValue),
}

/// Whether an item is a command that the agent or a unified exec session
/// started, and that ran: in progress, completed or failed.
pub open spec fn is_command_start(item: ThreadItem) -> bool {
    item matches ThreadItem::CommandExecution { source, status, .. } && (source
        == CommandExecutionSource::Agent || source == CommandExecutionSource::UnifiedExecStartup)
        && (status == CommandExecutionStatus::InProgress || status
        == CommandExecutionStatus::Completed || status == CommandExecutionStatus::Failed)
}

/// The working directory recorded for a command start, as the item holds
/// it; `None` for any other item.
pub fn command_cwd(item: &ThreadItem) -> (r: Option<String>)
    ensures
        is_command_start(*item) <==> r is Some,
        r matches Some(cwd) ==> cwd == item->CommandExecution_cwd,
        r is Some ==> (item matches ThreadItem::CommandExecution { source, status, .. } && (
        source == CommandExecutionSource::Agent || source
        == CommandExecutionSource::UnifiedExecStartup) && status
        != CommandExecutionStatus::Declined),
        (item matches ThreadItem::CommandExecution { source, status, .. } && (source
        == CommandExecutionSource::Agent || source == CommandExecutionSource::UnifiedExecStartup)
        && status != CommandExecutionStatus::Declined) ==> r is Some,
{
    match item {
        ThreadItem::CommandExecution { cwd, source, status, .. } => {
            let started_by_agent = match source {
                CommandExecutionSource::Agent | CommandExecutionSource::UnifiedExecStartup => true,
                _ => false,
            };
            let ran = match status {
                CommandExecutionStatus::InProgress
                | CommandExecutionStatus::Completed
                | CommandExecutionStatus::Failed => true,
                CommandExecutionStatus::Declined => false,
            };
            if started_by_agent && ran {
                Some(cwd.clone())
            } else {
                None
            }
        },
        ThreadItem::Other(_) => None,
    }
}

} // verus!
