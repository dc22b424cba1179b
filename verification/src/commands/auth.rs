//! The authentication commands: which operation each one sends, and where
//! its result lies in the answer.
use vstd::prelude::*;

use crate::cli::{ApiKeyCommand, AuthCommand};
use crate::commands::channel::{clone_opt, date_time_of, opt_access_mode_of, channel_access_mode};
use crate::queries::auth::{ApiKeyNameVars, AuthOperation, CreateApiKeyVars};
use crate::queries::common::DateTime;
use crate::response::path1;
use crate::text::str_texts;

verus! {

/// The operation an authentication command sends.
pub open spec fn auth_operation_of(c: AuthCommand) -> AuthOperation {
    match c {
        AuthCommand::Whoami => AuthOperation::ViewerQuery,
        AuthCommand::ApiKey { command } => match command {
            ApiKeyCommand::List => AuthOperation::ApiKeysQuery,
            ApiKeyCommand::Create { name, description, expires_at, access_mode, channel } =>
                AuthOperation::CreateApiKeyMutation(CreateApiKeyVars {
                    name,
                    description,
                    expires_at: date_time_of(expires_at),
                    access_mode: opt_access_mode_of(access_mode),
                    channel_name: channel,
                }),
            ApiKeyCommand::Revoke { name } => AuthOperation::RevokeApiKeyMutation(ApiKeyNameVars { name }),
            ApiKeyCommand::Delete { name } => AuthOperation::DeleteApiKeyMutation(ApiKeyNameVars { name }),
        },
    }
}

/// The operation an authentication command sends, with its variables.
pub fn auth_operation(command: &AuthCommand) -> (r: AuthOperation)
    ensures
        r == auth_operation_of(*command),
{
    match command {
        AuthCommand::Whoami => AuthOperation::ViewerQuery,
        AuthCommand::ApiKey { command } => match command {
            ApiKeyCommand::List => AuthOperation::ApiKeysQuery,
            ApiKeyCommand::Create { name, description, expires_at, access_mode, channel } =>
                AuthOperation::CreateApiKeyMutation(CreateApiKeyVars {
                    name: name.clone(),
                    description: clone_opt(description),
                    expires_at: match expires_at {
                        Some(t) => Some(DateTime(t.clone())),
                        None => None,
                    },
                    access_mode: match access_mode {
                        Some(a) => Some(channel_access_mode(*a)),
                        None => None,
                    },
                    channel_name: clone_opt(channel),
                }),
            ApiKeyCommand::Revoke { name } => AuthOperation::RevokeApiKeyMutation(ApiKeyNameVars { name: name.clone() }),
            ApiKeyCommand::Delete { name } => AuthOperation::DeleteApiKeyMutation(ApiKeyNameVars { name: name.clone() }),
        },
    }
}

/// Where in the data of its answer the result of an authentication operation lies: the
/// member it asks for, and for the mutations that answer with a wrapper,
/// the `channel` inside it.
pub open spec fn auth_result_path_of(op: AuthOperation) -> Seq<Seq<char>> {
    match op {
        AuthOperation::ViewerQuery => seq!["viewer"@],
        AuthOperation::ApiKeysQuery => seq!["apiKeys"@],
        AuthOperation::CreateApiKeyMutation(_) => seq!["createApiKey"@],
        AuthOperation::RevokeApiKeyMutation(_) => seq!["revokeApiKey"@],
        AuthOperation::DeleteApiKeyMutation(_) => seq!["deleteApiKey"@],
    }
}

/// Where in the data of its answer the result of an authentication operation lies.
pub fn auth_result_path(op: &AuthOperation) -> (r: Vec<&'static str>)
    ensures
        str_texts(r@) == auth_result_path_of(*op),
{
    match op {
        AuthOperation::ViewerQuery => path1("viewer"),
        AuthOperation::ApiKeysQuery => path1("apiKeys"),
        AuthOperation::CreateApiKeyMutation(_) => path1("createApiKey"),
        AuthOperation::RevokeApiKeyMutation(_) => path1("revokeApiKey"),
        AuthOperation::DeleteApiKeyMutation(_) => path1("deleteApiKey"),
    }
}

} // verus!
