//! Audit records of exports.
//!
//! An export is made by the client; the server only learns of it afterwards,
//! and notes it in the audit log of the server that was exported. The log is a
//! best-effort sink: what is decided here is what to write, not whether the
//! writing succeeds.

use vstd::prelude::*;
use vstd::string::*;
use crate::text::same_text;

verus! {

/// What was exported, as the client tells it.
pub struct LogExportRequest {
    /// `server`, `channel` or `dm`.
    pub scope: String,
    pub server_id: Option<u128>,
    pub channel_id: Option<u128>,
    pub message_count: i64,
}

/// The action that an audit record notes.
#[derive(Clone, Copy, PartialEq, Eq, Structural, Debug)]
pub enum ExportAction {
    ServerExport,
    ChannelExport,
    Export,
}

/// The kind of thing that an audit record is about.
#[derive(Clone, Copy, PartialEq, Eq, Structural, Debug)]
pub enum AuditTarget {
    Channel,
}

/// An audit record of an export.
pub struct AuditRecord {
    pub server_id: u128,
    pub actor_id: u128,
    pub action: ExportAction,
    pub target_type: Option<AuditTarget>,
    pub target_id: Option<u128>,
    pub message_count: i64,
    pub scope: String,
}

/// The action that goes with a scope.
pub open spec fn action_of(scope: Seq<char>) -> ExportAction {
    if scope == "server"@ {
        ExportAction::ServerExport
    } else if scope == "channel"@ {
        ExportAction::ChannelExport
    } else {
        ExportAction::Export
    }
}

impl ExportAction {
    /// The name under which the action stands in the audit log.
    pub open spec fn name_of(self) -> Seq<char> {
        match self {
            ExportAction::ServerExport => "server_export"@,
            ExportAction::ChannelExport => "channel_export"@,
            ExportAction::Export => "export"@,
        }
    }

    /// The name under which the action stands in the audit log.
    pub fn name(self) -> (r: String)
        ensures
            r@ == self.name_of(),
    {
        match self {
            ExportAction::ServerExport => String::from_str("server_export"),
            ExportAction::ChannelExport => String::from_str("channel_export"),
            ExportAction::Export => String::from_str("export"),
        }
    }
}

/// What the audit log is to hold of an export, if anything.
///
/// An export that names no server, as one of direct messages, is noted
/// nowhere: there is no server whose log it could stand in. Any other is noted
/// in the log of its server, under the action that goes with its scope, and
/// about the channel where it names one.
pub fn log_export(user_id: u128, request: &LogExportRequest) -> (r: Option<AuditRecord>)
    ensures
        match request.server_id {
            None => r is None,
            Some(server_id) => {
                &&& r matches Some(record)
                &&& record.server_id == server_id
                &&& record.actor_id == user_id
                &&& record.action == action_of(request.scope@)
                &&& record.target_type == if request.channel_id is Some {
                    Some(AuditTarget::Channel)
                } else {
                    None
                }
                &&& record.target_id == request.channel_id
                &&& record.message_count == request.message_count
                &&& record.scope == request.scope
            },
        },
{
    match request.server_id {
        None => None,
        Some(server_id) => {
            let action = if same_text(request.scope.as_str(), "server") {
                ExportAction::ServerExport
            } else if same_text(request.scope.as_str(), "channel") {
                ExportAction::ChannelExport
            } else {
                ExportAction::Export
            };
            let target_type = match request.channel_id {
                Some(_) => Some(AuditTarget::Channel),
                None => None,
            };
            Some(
                AuditRecord {
                    server_id,
                    actor_id: user_id,
                    action,
                    target_type,
                    target_id: request.channel_id,
                    message_count: request.message_count,
                    scope: request.scope.clone(),
                },
            )
        },
    }
}

} // verus!
