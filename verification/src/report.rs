//! How each command's result is shown, and what the program prints and
//! exits with at the end.
use vstd::prelude::*;

use crate::cli::{ApiKeyCommand, AuthCommand, ChannelCommand, Command, PackageCommand};
use crate::error::PfxError;
use crate::format::{
    format_human, format_human_error, format_json, format_json_error, human_error_text, human_text,
    json_error_text, json_output_text, CommandOutput, OutputKind,
};

verus! {

/// How the result of a command is rendered for people.
pub open spec fn output_kind_of(c: Command) -> OutputKind {
    match c {
        Command::Describe { .. } => OutputKind::Raw,
        Command::Auth { command } => match command {
            AuthCommand::Whoami => OutputKind::User,
            AuthCommand::ApiKey { command } => match command {
                ApiKeyCommand::List => OutputKind::ApiKeyList,
                ApiKeyCommand::Create { .. } => OutputKind::ApiKey,
                ApiKeyCommand::Revoke { .. } => OutputKind::BoolResult { action: "API key revoked." },
                ApiKeyCommand::Delete { .. } => OutputKind::BoolResult { action: "API key deleted." },
            },
        },
        Command::Channel { command } => match command {
            ChannelCommand::Get { .. } => OutputKind::ChannelDetail,
            ChannelCommand::List { .. } => OutputKind::ChannelList,
            ChannelCommand::Create { .. } => OutputKind::ChannelResult { action: "created" },
            ChannelCommand::Update { .. } => OutputKind::ChannelResult { action: "updated" },
            ChannelCommand::AddNotice { .. } => OutputKind::ChannelNotice,
            ChannelCommand::UpdateNotice { .. } => OutputKind::ChannelNotice,
            ChannelCommand::DeleteNotice { .. } => OutputKind::BoolResult { action: "Channel notice deleted." },
            ChannelCommand::Delete { .. } => OutputKind::ChannelResult { action: "deleted" },
            ChannelCommand::AddMember { .. } => OutputKind::ChannelMember { action: "added to" },
            ChannelCommand::RemoveMember { .. } => OutputKind::ChannelMember { action: "removed from" },
            ChannelCommand::AddGithubOidc { .. } => OutputKind::GithubPublisher,
            ChannelCommand::AddGitlabOidc { .. } => OutputKind::GitlabPublisher,
            ChannelCommand::AddGoogleOidc { .. } => OutputKind::GooglePublisher,
            ChannelCommand::DeleteOidc { .. } => OutputKind::OidcDeleted,
            ChannelCommand::Transfer { .. } => OutputKind::ChannelResult { action: "transferred" },
        },
        Command::Package { command } => match command {
            PackageCommand::Get { .. } => OutputKind::PackageDetail,
            PackageCommand::Search { .. } => OutputKind::PackageList,
            PackageCommand::List { .. } => OutputKind::PackageList,
            PackageCommand::Matchspec { .. } => OutputKind::PackageInfo,
            PackageCommand::Variant { .. } => OutputKind::VariantDetail,
            PackageCommand::Versions { .. } => OutputKind::PackageVersions,
            PackageCommand::Yank { .. } => OutputKind::BoolResult { action: "Package variant yanked." },
            PackageCommand::Unyank { .. } => OutputKind::BoolResult { action: "Package variant unyanked." },
            PackageCommand::Copy { .. } => OutputKind::BackgroundJob,
            PackageCommand::CopyFromChannel { .. } => OutputKind::BackgroundJob,
            PackageCommand::CopyStatus { .. } => OutputKind::BackgroundJob,
            PackageCommand::ActiveCopy { .. } => OutputKind::BackgroundJob,
            PackageCommand::BatchDelete { .. } => OutputKind::BoolResult { action: "Package variants deleted." },
        },
    }
}

/// How the result of a command is rendered for people.
pub fn output_kind(command: &Command) -> (r: OutputKind)
    ensures
        r == output_kind_of(*command),
{
    match command {
        Command::Describe { .. } => OutputKind::Raw,
        Command::Auth { command } => match command {
            AuthCommand::Whoami => OutputKind::User,
            AuthCommand::ApiKey { command } => match command {
                ApiKeyCommand::List => OutputKind::ApiKeyList,
                ApiKeyCommand::Create { .. } => OutputKind::ApiKey,
                ApiKeyCommand::Revoke { .. } => OutputKind::BoolResult { action: "API key revoked." },
                ApiKeyCommand::Delete { .. } => OutputKind::BoolResult { action: "API key deleted." },
            },
        },
        Command::Channel { command } => match command {
            ChannelCommand::Get { .. } => OutputKind::ChannelDetail,
            ChannelCommand::List { .. } => OutputKind::ChannelList,
            ChannelCommand::Create { .. } => OutputKind::ChannelResult { action: "created" },
            ChannelCommand::Update { .. } => OutputKind::ChannelResult { action: "updated" },
            ChannelCommand::AddNotice { .. } => OutputKind::ChannelNotice,
            ChannelCommand::UpdateNotice { .. } => OutputKind::ChannelNotice,
            ChannelCommand::DeleteNotice { .. } => OutputKind::BoolResult { action: "Channel notice deleted." },
            ChannelCommand::Delete { .. } => OutputKind::ChannelResult { action: "deleted" },
            ChannelCommand::AddMember { .. } => OutputKind::ChannelMember { action: "added to" },
            ChannelCommand::RemoveMember { .. } => OutputKind::ChannelMember { action: "removed from" },
            ChannelCommand::AddGithubOidc { .. } => OutputKind::GithubPublisher,
            ChannelCommand::AddGitlabOidc { .. } => OutputKind::GitlabPublisher,
            ChannelCommand::AddGoogleOidc { .. } => OutputKind::GooglePublisher,
            ChannelCommand::DeleteOidc { .. } => OutputKind::OidcDeleted,
            ChannelCommand::Transfer { .. } => OutputKind::ChannelResult { action: "transferred" },
        },
        Command::Package { command } => match command {
            PackageCommand::Get { .. } => OutputKind::PackageDetail,
            PackageCommand::Search { .. } => OutputKind::PackageList,
            PackageCommand::List { .. } => OutputKind::PackageList,
            PackageCommand::Matchspec { .. } => OutputKind::PackageInfo,
            PackageCommand::Variant { .. } => OutputKind::VariantDetail,
            PackageCommand::Versions { .. } => OutputKind::PackageVersions,
            PackageCommand::Yank { .. } => OutputKind::BoolResult { action: "Package variant yanked." },
            PackageCommand::Unyank { .. } => OutputKind::BoolResult { action: "Package variant unyanked." },
            PackageCommand::Copy { .. } => OutputKind::BackgroundJob,
            PackageCommand::CopyFromChannel { .. } => OutputKind::BackgroundJob,
            PackageCommand::CopyStatus { .. } => OutputKind::BackgroundJob,
            PackageCommand::ActiveCopy { .. } => OutputKind::BackgroundJob,
            PackageCommand::BatchDelete { .. } => OutputKind::BoolResult { action: "Package variants deleted." },
        },
    }
}

/// What the program prints at the end, where, and its exit status.
pub struct Report {
    pub text: String,
    /// Whether the text goes to standard error rather than standard output.
    pub to_stderr: bool,
    pub exit_code: i32,
}

/// What is printed for a command's outcome: on success the JSON envelope
/// (one line) or the human rendering, with status 0; on failure the JSON
/// error (one line, on standard output) or the human error (on standard
/// error), with status 1.
pub fn render(result: &Result<CommandOutput, PfxError>, json: bool) -> (r: Report)
    ensures
        match result {
            Ok(o) => {
                &&& r.exit_code == 0
                &&& !r.to_stderr
                &&& r.text@ == if json { json_output_text(o.value) + "\n"@ } else { human_text(o.value, o.kind) }
            },
            Err(e) => {
                &&& r.exit_code == 1
                &&& r.to_stderr == !json
                &&& r.text@ == (if json { json_error_text(*e) } else { human_error_text(*e) }) + "\n"@
            },
        },
{
    match result {
        Ok(o) => {
            if json {
                let mut text = format_json(o);
                text.append("\n");
                Report { text, to_stderr: false, exit_code: 0 }
            } else {
                Report { text: format_human(o), to_stderr: false, exit_code: 0 }
            }
        },
        Err(e) => {
            let mut text = if json { format_json_error(e) } else { format_human_error(e) };
            text.append("\n");
            Report { text, to_stderr: !json, exit_code: 1 }
        },
    }
}

} // verus!
