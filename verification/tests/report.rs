use pixi_pfx::cli::{ApiKeyCommand, AuthCommand, ChannelCommand, Command, PackageCommand};
use pixi_pfx::error::PfxError;
use pixi_pfx::format::{CommandOutput, OutputKind};
use pixi_pfx::json::JsonValue;
use pixi_pfx::report::{output_kind, render};

#[test]
fn kinds_of_output() {
    assert!(matches!(output_kind(&Command::Describe { command_path: vec![] }), OutputKind::Raw));
    assert!(matches!(
        output_kind(&Command::Auth { command: AuthCommand::ApiKey { command: ApiKeyCommand::Revoke { name: "k".to_string() } } }),
        OutputKind::BoolResult { action: "API key revoked." }
    ));
    assert!(matches!(
        output_kind(&Command::Channel { command: ChannelCommand::RemoveMember { channel: "c".to_string(), username: "u".to_string() } }),
        OutputKind::ChannelMember { action: "removed from" }
    ));
    assert!(matches!(
        output_kind(&Command::Package { command: PackageCommand::CopyStatus { id: "1".to_string() } }),
        OutputKind::BackgroundJob
    ));
    assert!(matches!(
        output_kind(&Command::Package { command: PackageCommand::BatchDelete { channel: "c".to_string(), entries: "[]".to_string() } }),
        OutputKind::BoolResult { action: "Package variants deleted." }
    ));
}

#[test]
fn success_exits_zero() {
    let ok: Result<CommandOutput, PfxError> = Ok(CommandOutput::new(JsonValue::Bool(true), OutputKind::BoolResult { action: "Channel notice deleted." }));
    let r = render(&ok, true);
    assert_eq!(r.text, "{\"data\":true,\"ok\":true}\n");
    assert_eq!(r.exit_code, 0);
    assert!(!r.to_stderr);
    let r = render(&ok, false);
    assert_eq!(r.text, "Channel notice deleted.\n");
    assert_eq!(r.exit_code, 0);
}

#[test]
fn failure_exits_one() {
    let err: Result<CommandOutput, PfxError> = Err(PfxError::AuthStorage("no file".to_string()));
    let r = render(&err, true);
    assert_eq!(r.text, "{\"error\":{\"code\":\"AUTH_STORAGE_ERROR\",\"message\":\"Authentication storage error: no file\"},\"ok\":false}\n");
    assert_eq!(r.exit_code, 1);
    assert!(!r.to_stderr);
    let r = render(&err, false);
    assert_eq!(r.text, "error [AUTH_STORAGE_ERROR]: Authentication storage error: no file\n");
    assert!(r.to_stderr);
    assert_eq!(r.exit_code, 1);
}
