use haven_api::audit::{log_export, AuditTarget, ExportAction, LogExportRequest};
use haven_api::errors::{AppError, ErrorKind};

fn export(scope: &str, server_id: Option<u128>, channel_id: Option<u128>) -> LogExportRequest {
    LogExportRequest { scope: scope.to_string(), server_id, channel_id, message_count: 42 }
}

#[test]
fn log_export_notes_server_exports() {
    let record = log_export(7, &export("server", Some(1), None)).expect("a record");
    assert_eq!(record.server_id, 1);
    assert_eq!(record.actor_id, 7);
    assert_eq!(record.action, ExportAction::ServerExport);
    assert_eq!(record.target_type, None);
    assert_eq!(record.target_id, None);
    assert_eq!(record.message_count, 42);
    assert_eq!(record.scope, "server");
}

#[test]
fn log_export_notes_channel_exports() {
    let record = log_export(7, &export("channel", Some(1), Some(2))).expect("a record");
    assert_eq!(record.action, ExportAction::ChannelExport);
    assert_eq!(record.target_type, Some(AuditTarget::Channel));
    assert_eq!(record.target_id, Some(2));
}

#[test]
fn log_export_falls_back_to_plain_export() {
    for scope in ["dm", "", "Server", "channels"] {
        let record = log_export(7, &export(scope, Some(1), Some(2))).expect("a record");
        assert_eq!(record.action, ExportAction::Export);
        assert_eq!(record.scope, scope);
        assert_eq!(record.target_type, Some(AuditTarget::Channel));
    }
}

#[test]
fn log_export_skips_exports_without_server() {
    assert!(log_export(7, &export("dm", None, None)).is_none());
    assert!(log_export(7, &export("server", None, Some(2))).is_none());
}

#[test]
fn export_actions_have_log_names() {
    assert_eq!(ExportAction::ServerExport.name(), "server_export");
    assert_eq!(ExportAction::ChannelExport.name(), "channel_export");
    assert_eq!(ExportAction::Export.name(), "export");
}

#[test]
fn errors_keep_kind_and_message() {
    let cases = [
        (AppError::validation("v"), ErrorKind::Validation, "v"),
        (AppError::forbidden("f"), ErrorKind::Forbidden, "f"),
        (AppError::not_found("n"), ErrorKind::NotFound, "n"),
        (AppError::bad_request("b"), ErrorKind::BadRequest, "b"),
        (AppError::internal("i"), ErrorKind::Internal, "i"),
    ];
    for (error, kind, message) in cases {
        assert_eq!(error.kind(), kind);
        assert_eq!(error.message(), message);
        let copy = error.duplicate();
        assert_eq!(copy.kind(), kind);
        assert_eq!(copy.message(), message);
    }
}
