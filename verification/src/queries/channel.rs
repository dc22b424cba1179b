//! Variables and operations about channels.
use vstd::prelude::*;

use super::common::{ChannelAccessMode, ChannelFilter, ChannelMemberRole, ChannelOrderBy, DateTime};

verus! {

/// The level of a channel notice.
#[derive(Debug, Clone, Copy, PartialEq, Eq, Structural)]
pub enum ChannelNoticeLevel {
    Info,
    Warning,
    Critical,
}

/// Variables naming a channel to read.
#[derive(Debug)]
pub struct ChannelGetVars {
    pub name: String,
}

/// Variables of the channel list query.
#[derive(Debug)]
pub struct ChannelListVars {
    pub filters: Option<ChannelFilter>,
    pub order_by: Option<ChannelOrderBy>,
    pub limit: Option<i32>,
    pub page: Option<i32>,
}

/// Variables of the mutation that creates a channel.
#[derive(Debug)]
pub struct CreateChannelVars {
    pub name: String,
    pub description: Option<String>,
    pub is_public: Option<bool>,
    pub logo: Option<String>,
    pub channel_relation_base: Option<String>,
    pub channel_relation_overrides: Option<String>,
    pub allow_v3_uploads: Option<bool>,
}

/// Variables of the mutation that updates a channel.
#[derive(Debug)]
pub struct UpdateChannelVars {
    pub name: String,
    pub description: Option<String>,
    pub is_public: Option<bool>,
    pub logo: Option<String>,
    pub channel_relation_base: Option<String>,
    pub channel_relation_overrides: Option<String>,
    pub allow_v3_uploads: Option<bool>,
}

/// Variables naming a channel to delete.
#[derive(Debug)]
pub struct DeleteChannelVars {
    pub name: String,
}

/// Variables of the mutation that adds a member.
#[derive(Debug)]
pub struct AddChannelMemberVars {
    pub user_name: String,
    pub channel_name: String,
    pub role: ChannelMemberRole,
}

/// Variables of the mutation that removes a member.
#[derive(Debug)]
pub struct DeleteChannelMemberVars {
    pub user_name: String,
    pub channel_name: String,
}

/// Variables of the mutation that adds a GitHub OIDC publisher.
#[derive(Debug)]
pub struct AddGithubOidcVars {
    pub channel_name: String,
    pub repository_owner: String,
    pub repository_name: String,
    pub workflow_filename: String,
    pub environment: Option<String>,
    pub access_mode: Option<ChannelAccessMode>,
}

/// Variables of the mutation that adds a GitLab OIDC publisher.
#[derive(Debug)]
pub struct AddGitlabOidcVars {
    pub channel_name: String,
    pub namespace: String,
    pub project: String,
    pub workflow_filepath: String,
    pub environment: Option<String>,
    pub access_mode: Option<ChannelAccessMode>,
}

/// Variables of the mutation that adds a Google OIDC publisher.
#[derive(Debug)]
pub struct AddGoogleOidcVars {
    pub channel_name: String,
    pub email: String,
    pub sub: Option<String>,
    pub access_mode: Option<ChannelAccessMode>,
}

/// Variables of the mutation that deletes an OIDC publisher.
#[derive(Debug)]
pub struct DeleteOidcVars {
    pub channel_name: String,
    pub id: String,
}

/// Variables of the mutation that transfers a channel.
#[derive(Debug)]
pub struct TransferChannelVars {
    pub channel_name: String,
    pub new_owner_username: String,
}

/// Variables of the mutations that create or update a notice.
#[derive(Debug)]
pub struct UpsertChannelNoticeVars {
    pub channel_name: String,
    pub id: String,
    pub message: String,
    pub level: ChannelNoticeLevel,
    pub expires_at: Option<DateTime>,
}

/// Variables of the mutation that deletes a notice.
#[derive(Debug)]
pub struct DeleteChannelNoticeVars {
    pub channel_name: String,
    pub id: String,
}

/// The operations about channels, with their variables.
#[derive(Debug)]
pub enum ChannelOperation {
    ChannelGetQuery(ChannelGetVars),
    ChannelListQuery(ChannelListVars),
    CreateChannelMutation(CreateChannelVars),
    UpdateChannelMutation(UpdateChannelVars),
    CreateChannelNoticeMutation(UpsertChannelNoticeVars),
    UpdateChannelNoticeMutation(UpsertChannelNoticeVars),
    DeleteChannelNoticeMutation(DeleteChannelNoticeVars),
    DeleteChannelMutation(DeleteChannelVars),
    AddChannelMemberMutation(AddChannelMemberVars),
    DeleteChannelMemberMutation(DeleteChannelMemberVars),
    AddGithubOidcMutation(AddGithubOidcVars),
    AddGitlabOidcMutation(AddGitlabOidcVars),
    AddGoogleOidcMutation(AddGoogleOidcVars),
    DeleteOidcMutation(DeleteOidcVars),
    TransferChannelMutation(TransferChannelVars),
}

} // verus!
