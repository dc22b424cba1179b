//! The channel commands: which operation each one sends, with which
//! variables, and where its result lies in the answer.
use vstd::prelude::*;

use crate::cli::{AccessMode, ChannelCommand, ChannelOrderField, MemberRole, NoticeLevel, SortDirection};
use crate::queries::channel::{
    AddChannelMemberVars, AddGithubOidcVars, AddGitlabOidcVars, AddGoogleOidcVars, ChannelGetVars,
    ChannelListVars, ChannelNoticeLevel, ChannelOperation, CreateChannelVars, DeleteChannelMemberVars,
    DeleteChannelNoticeVars, DeleteChannelVars, DeleteOidcVars, TransferChannelVars,
    UpdateChannelVars, UpsertChannelNoticeVars,
};
use crate::queries::common::{
    ChannelAccessMode, ChannelFilter, ChannelMemberRole, ChannelOrderBy, ChannelOrderByField,
    ChannelOrderByFieldField, ChannelOrderBySimilarity, ChannelOrderBySimilarityField, DateTime,
    OrderDirection, StringFilter,
};
use crate::response::{path1, path2};
use crate::text::str_texts;

verus! {

/// The access mode the API is sent for a command-line access mode.
pub open spec fn access_mode_of(mode: AccessMode) -> ChannelAccessMode {
    match mode {
        AccessMode::All => ChannelAccessMode::All,
        AccessMode::Read => ChannelAccessMode::Read,
        AccessMode::ReadWrite => ChannelAccessMode::ReadWrite,
        AccessMode::ReadWriteDelete => ChannelAccessMode::ReadWriteDelete,
    }
}

/// The notice level the API is sent for a command-line level.
pub open spec fn notice_level_of(level: NoticeLevel) -> ChannelNoticeLevel {
    match level {
        NoticeLevel::Info => ChannelNoticeLevel::Info,
        NoticeLevel::Warning => ChannelNoticeLevel::Warning,
        NoticeLevel::Critical => ChannelNoticeLevel::Critical,
    }
}

/// The member role the API is sent for a command-line role.
pub open spec fn member_role_of(role: MemberRole) -> ChannelMemberRole {
    match role {
        MemberRole::Owner => ChannelMemberRole::Owner,
        MemberRole::Contributor => ChannelMemberRole::Contributor,
        MemberRole::Viewer => ChannelMemberRole::Viewer,
    }
}

/// The order direction the API is sent for a sort direction.
pub open spec fn direction_of(d: SortDirection) -> OrderDirection {
    match d {
        SortDirection::Asc => OrderDirection::Asc,
        SortDirection::Desc => OrderDirection::Desc,
    }
}

/// The channel field the API is sent for a command-line order field.
pub open spec fn channel_field_of(f: ChannelOrderField) -> ChannelOrderByFieldField {
    match f {
        ChannelOrderField::Name => ChannelOrderByFieldField::Name,
        ChannelOrderField::BillingOwner => ChannelOrderByFieldField::BillingOwner,
        ChannelOrderField::Namespace => ChannelOrderByFieldField::Namespace,
        ChannelOrderField::Size => ChannelOrderByFieldField::Size,
        ChannelOrderField::CreatedAt => ChannelOrderByFieldField::CreatedAt,
        ChannelOrderField::PackageCount => ChannelOrderByFieldField::PackageCount,
    }
}

/// The access mode the API is sent for a command-line access mode.
pub fn channel_access_mode(mode: AccessMode) -> (r: ChannelAccessMode)
    ensures
        r == access_mode_of(mode),
{
    match mode {
        AccessMode::All => ChannelAccessMode::All,
        AccessMode::Read => ChannelAccessMode::Read,
        AccessMode::ReadWrite => ChannelAccessMode::ReadWrite,
        AccessMode::ReadWriteDelete => ChannelAccessMode::ReadWriteDelete,
    }
}

/// The notice level the API is sent for a command-line level.
pub fn notice_level(level: NoticeLevel) -> (r: ChannelNoticeLevel)
    ensures
        r == notice_level_of(level),
{
    match level {
        NoticeLevel::Info => ChannelNoticeLevel::Info,
        NoticeLevel::Warning => ChannelNoticeLevel::Warning,
        NoticeLevel::Critical => ChannelNoticeLevel::Critical,
    }
}

/// The member role the API is sent for a command-line role.
pub fn member_role(role: MemberRole) -> (r: ChannelMemberRole)
    ensures
        r == member_role_of(role),
{
    match role {
        MemberRole::Owner => ChannelMemberRole::Owner,
        MemberRole::Contributor => ChannelMemberRole::Contributor,
        MemberRole::Viewer => ChannelMemberRole::Viewer,
    }
}

/// The order direction the API is sent for a sort direction.
pub fn order_direction(d: SortDirection) -> (r: OrderDirection)
    ensures
        r == direction_of(d),
{
    match d {
        SortDirection::Asc => OrderDirection::Asc,
        SortDirection::Desc => OrderDirection::Desc,
    }
}

/// A string filter that only asks for equality.
pub open spec fn eq_filter(s: String) -> StringFilter {
    StringFilter {
        eq: Some(s),
        ne: None,
        is_in: None,
        is_not_in: None,
        starts_with: None,
        ends_with: None,
        contains: None,
    }
}

/// The filters of a channel list: on the owner and on being public, none
/// when neither is asked for.
pub open spec fn channel_list_filters(owner: Option<String>, public: bool) -> Option<ChannelFilter> {
    if owner is Some || public {
        Some(ChannelFilter {
            or: None,
            and: None,
            name: None,
            owner: match owner {
                Some(o) => Some(eq_filter(o)),
                None => None,
            },
            namespace: None,
            is_public: if public { Some(true) } else { None },
            has_owner: None,
            has_mirror: None,
        })
    } else {
        None
    }
}

/// The ordering of a channel list: by similarity to the search text when
/// there is one (descending), else by the field asked for, else none.
pub open spec fn channel_list_order(
    order_by: Option<ChannelOrderField>,
    direction: SortDirection,
    search: Option<String>,
) -> Option<ChannelOrderBy> {
    match search {
        Some(q) => Some(ChannelOrderBy {
            by_field: None,
            by_similarity: Some(ChannelOrderBySimilarity {
                field: ChannelOrderBySimilarityField::Name,
                direction: OrderDirection::Desc,
                matches: q,
            }),
        }),
        None => match order_by {
            Some(f) => Some(ChannelOrderBy {
                by_field: Some(ChannelOrderByField { field: channel_field_of(f), direction: direction_of(direction) }),
                by_similarity: None,
            }),
            None => None,
        },
    }
}

/// An optional timestamp as a `DateTime` scalar.
pub open spec fn date_time_of(s: Option<String>) -> Option<DateTime> {
    match s {
        Some(t) => Some(DateTime(t)),
        None => None,
    }
}

/// An optional access mode as the API's.
pub open spec fn opt_access_mode_of(m: Option<AccessMode>) -> Option<ChannelAccessMode> {
    match m {
        Some(a) => Some(access_mode_of(a)),
        None => None,
    }
}

/// The operation a channel command sends.
pub open spec fn channel_operation_of(c: ChannelCommand) -> ChannelOperation {
    match c {
        ChannelCommand::Get { name } => ChannelOperation::ChannelGetQuery(ChannelGetVars { name }),
        ChannelCommand::List { owner, public, limit, page, order_by, direction, search } =>
            ChannelOperation::ChannelListQuery(ChannelListVars {
                filters: channel_list_filters(owner, public),
                order_by: channel_list_order(order_by, direction, search),
                limit: Some(limit),
                page: Some(page),
            }),
        ChannelCommand::Create { name, description, public, logo, relation_base, relation_overrides, allow_v3_uploads } =>
            ChannelOperation::CreateChannelMutation(CreateChannelVars {
                name,
                description,
                is_public: Some(public),
                logo,
                channel_relation_base: relation_base,
                channel_relation_overrides: relation_overrides,
                allow_v3_uploads,
            }),
        ChannelCommand::Update { name, description, public, logo, relation_base, relation_overrides, allow_v3_uploads } =>
            ChannelOperation::UpdateChannelMutation(UpdateChannelVars {
                name,
                description,
                is_public: public,
                logo,
                channel_relation_base: relation_base,
                channel_relation_overrides: relation_overrides,
                allow_v3_uploads,
            }),
        ChannelCommand::AddNotice { channel, id, message, level, expires_at } =>
            ChannelOperation::CreateChannelNoticeMutation(UpsertChannelNoticeVars {
                channel_name: channel,
                id,
                message,
                level: notice_level_of(level),
                expires_at: date_time_of(expires_at),
            }),
        ChannelCommand::UpdateNotice { channel, id, message, level, expires_at } =>
            ChannelOperation::UpdateChannelNoticeMutation(UpsertChannelNoticeVars {
                channel_name: channel,
                id,
                message,
                level: notice_level_of(level),
                expires_at: date_time_of(expires_at),
            }),
        ChannelCommand::DeleteNotice { channel, id } =>
            ChannelOperation::DeleteChannelNoticeMutation(DeleteChannelNoticeVars { channel_name: channel, id }),
        ChannelCommand::Delete { name } => ChannelOperation::DeleteChannelMutation(DeleteChannelVars { name }),
        ChannelCommand::AddMember { channel, username, role } =>
            ChannelOperation::AddChannelMemberMutation(AddChannelMemberVars {
                user_name: username,
                channel_name: channel,
                role: member_role_of(role),
            }),
        ChannelCommand::RemoveMember { channel, username } =>
            ChannelOperation::DeleteChannelMemberMutation(DeleteChannelMemberVars {
                user_name: username,
                channel_name: channel,
            }),
        ChannelCommand::AddGithubOidc { channel, owner, repo, workflow, environment, access_mode } =>
            ChannelOperation::AddGithubOidcMutation(AddGithubOidcVars {
                channel_name: channel,
                repository_owner: owner,
                repository_name: repo,
                workflow_filename: workflow,
                environment,
                access_mode: opt_access_mode_of(access_mode),
            }),
        ChannelCommand::AddGitlabOidc { channel, namespace, project, workflow, environment, access_mode } =>
            ChannelOperation::AddGitlabOidcMutation(AddGitlabOidcVars {
                channel_name: channel,
                namespace,
                project,
                workflow_filepath: workflow,
                environment,
                access_mode: opt_access_mode_of(access_mode),
            }),
        ChannelCommand::AddGoogleOidc { channel, email, sub, access_mode } =>
            ChannelOperation::AddGoogleOidcMutation(AddGoogleOidcVars {
                channel_name: channel,
                email,
                sub,
                access_mode: opt_access_mode_of(access_mode),
            }),
        ChannelCommand::DeleteOidc { channel, id } =>
            ChannelOperation::DeleteOidcMutation(DeleteOidcVars { channel_name: channel, id }),
        ChannelCommand::Transfer { channel, new_owner } =>
            ChannelOperation::TransferChannelMutation(TransferChannelVars {
                channel_name: channel,
                new_owner_username: new_owner,
            }),
    }
}

/// A copy of an optional string.
pub fn clone_opt(s: &Option<String>) -> (r: Option<String>)
    ensures
        r == *s,
{
    match s {
        Some(t) => Some(t.clone()),
        None => None,
    }
}

/// An optional timestamp as a `DateTime` scalar.
fn date_time(s: &Option<String>) -> (r: Option<DateTime>)
    ensures
        r == date_time_of(*s),
{
    match s {
        Some(t) => Some(DateTime(t.clone())),
        None => None,
    }
}

/// An optional access mode as the API's.
fn opt_access_mode(m: &Option<AccessMode>) -> (r: Option<ChannelAccessMode>)
    ensures
        r == opt_access_mode_of(*m),
{
    match m {
        Some(a) => Some(channel_access_mode(*a)),
        None => None,
    }
}

/// The operation a channel command sends, with its variables.
pub fn channel_operation(command: &ChannelCommand) -> (r: ChannelOperation)
    ensures
        r == channel_operation_of(*command),
{
    match command {
        ChannelCommand::Get { name } => ChannelOperation::ChannelGetQuery(ChannelGetVars { name: name.clone() }),
        ChannelCommand::List { owner, public, limit, page, order_by, direction, search } => {
            let filters = if owner.is_some() || *public {
                Some(ChannelFilter {
                    or: None,
                    and: None,
                    name: None,
                    owner: match owner {
                        Some(o) => Some(StringFilter {
                            eq: Some(o.clone()),
                            ne: None,
                            is_in: None,
                            is_not_in: None,
                            starts_with: None,
                            ends_with: None,
                            contains: None,
                        }),
                        None => None,
                    },
                    namespace: None,
                    is_public: if *public { Some(true) } else { None },
                    has_owner: None,
                    has_mirror: None,
                })
            } else {
                None
            };
            let order = match search {
                Some(q) => Some(ChannelOrderBy {
                    by_field: None,
                    by_similarity: Some(ChannelOrderBySimilarity {
                        field: ChannelOrderBySimilarityField::Name,
                        direction: OrderDirection::Desc,
                        matches: q.clone(),
                    }),
                }),
                None => match order_by {
                    Some(f) => Some(ChannelOrderBy {
                        by_field: Some(ChannelOrderByField {
                            field: match f {
                                ChannelOrderField::Name => ChannelOrderByFieldField::Name,
                                ChannelOrderField::BillingOwner => ChannelOrderByFieldField::BillingOwner,
                                ChannelOrderField::Namespace => ChannelOrderByFieldField::Namespace,
                                ChannelOrderField::Size => ChannelOrderByFieldField::Size,
                                ChannelOrderField::CreatedAt => ChannelOrderByFieldField::CreatedAt,
                                ChannelOrderField::PackageCount => ChannelOrderByFieldField::PackageCount,
                            },
                            direction: order_direction(*direction),
                        }),
                        by_similarity: None,
                    }),
                    None => None,
                },
            };
            ChannelOperation::ChannelListQuery(ChannelListVars {
                filters,
                order_by: order,
                limit: Some(*limit),
                page: Some(*page),
            })
        },
        ChannelCommand::Create { name, description, public, logo, relation_base, relation_overrides, allow_v3_uploads } =>
            ChannelOperation::CreateChannelMutation(CreateChannelVars {
                name: name.clone(),
                description: clone_opt(description),
                is_public: Some(*public),
                logo: clone_opt(logo),
                channel_relation_base: clone_opt(relation_base),
                channel_relation_overrides: clone_opt(relation_overrides),
                allow_v3_uploads: *allow_v3_uploads,
            }),
        ChannelCommand::Update { name, description, public, logo, relation_base, relation_overrides, allow_v3_uploads } =>
            ChannelOperation::UpdateChannelMutation(UpdateChannelVars {
                name: name.clone(),
                description: clone_opt(description),
                is_public: *public,
                logo: clone_opt(logo),
                channel_relation_base: clone_opt(relation_base),
                channel_relation_overrides: clone_opt(relation_overrides),
                allow_v3_uploads: *allow_v3_uploads,
            }),
        ChannelCommand::AddNotice { channel, id, message, level, expires_at } =>
            ChannelOperation::CreateChannelNoticeMutation(UpsertChannelNoticeVars {
                channel_name: channel.clone(),
                id: id.clone(),
                message: message.clone(),
                level: notice_level(*level),
                expires_at: date_time(expires_at),
            }),
        ChannelCommand::UpdateNotice { channel, id, message, level, expires_at } =>
            ChannelOperation::UpdateChannelNoticeMutation(UpsertChannelNoticeVars {
                channel_name: channel.clone(),
                id: id.clone(),
                message: message.clone(),
                level: notice_level(*level),
                expires_at: date_time(expires_at),
            }),
        ChannelCommand::DeleteNotice { channel, id } =>
            ChannelOperation::DeleteChannelNoticeMutation(DeleteChannelNoticeVars {
                channel_name: channel.clone(),
                id: id.clone(),
            }),
        ChannelCommand::Delete { name } => ChannelOperation::DeleteChannelMutation(DeleteChannelVars { name: name.clone() }),
        ChannelCommand::AddMember { channel, username, role } =>
            ChannelOperation::AddChannelMemberMutation(AddChannelMemberVars {
                user_name: username.clone(),
                channel_name: channel.clone(),
                role: member_role(*role),
            }),
        ChannelCommand::RemoveMember { channel, username } =>
            ChannelOperation::DeleteChannelMemberMutation(DeleteChannelMemberVars {
                user_name: username.clone(),
                channel_name: channel.clone(),
            }),
        ChannelCommand::AddGithubOidc { channel, owner, repo, workflow, environment, access_mode } =>
            ChannelOperation::AddGithubOidcMutation(AddGithubOidcVars {
                channel_name: channel.clone(),
                repository_owner: owner.clone(),
                repository_name: repo.clone(),
                workflow_filename: workflow.clone(),
                environment: clone_opt(environment),
                access_mode: opt_access_mode(access_mode),
            }),
        ChannelCommand::AddGitlabOidc { channel, namespace, project, workflow, environment, access_mode } =>
            ChannelOperation::AddGitlabOidcMutation(AddGitlabOidcVars {
                channel_name: channel.clone(),
                namespace: namespace.clone(),
                project: project.clone(),
                workflow_filepath: workflow.clone(),
                environment: clone_opt(environment),
                access_mode: opt_access_mode(access_mode),
            }),
        ChannelCommand::AddGoogleOidc { channel, email, sub, access_mode } =>
            ChannelOperation::AddGoogleOidcMutation(AddGoogleOidcVars {
                channel_name: channel.clone(),
                email: email.clone(),
                sub: clone_opt(sub),
                access_mode: opt_access_mode(access_mode),
            }),
        ChannelCommand::DeleteOidc { channel, id } =>
            ChannelOperation::DeleteOidcMutation(DeleteOidcVars { channel_name: channel.clone(), id: id.clone() }),
        ChannelCommand::Transfer { channel, new_owner } =>
            ChannelOperation::TransferChannelMutation(TransferChannelVars {
                channel_name: channel.clone(),
                new_owner_username: new_owner.clone(),
            }),
    }
}

/// Where in the data of its answer the result of a channel operation lies: the
/// member it asks for, and for the mutations that answer with a wrapper,
/// the `channel` inside it.
pub open spec fn channel_result_path_of(op: ChannelOperation) -> Seq<Seq<char>> {
    match op {
        ChannelOperation::ChannelGetQuery(_) => seq!["channel"@],
        ChannelOperation::ChannelListQuery(_) => seq!["channels"@],
        ChannelOperation::CreateChannelMutation(_) => seq!["createChannel"@, "channel"@],
        ChannelOperation::UpdateChannelMutation(_) => seq!["updateChannel"@, "channel"@],
        ChannelOperation::CreateChannelNoticeMutation(_) => seq!["createChannelNotice"@],
        ChannelOperation::UpdateChannelNoticeMutation(_) => seq!["updateChannelNotice"@],
        ChannelOperation::DeleteChannelNoticeMutation(_) => seq!["deleteChannelNotice"@],
        ChannelOperation::DeleteChannelMutation(_) => seq!["deleteChannel"@, "channel"@],
        ChannelOperation::AddChannelMemberMutation(_) => seq!["addChannelMember"@],
        ChannelOperation::DeleteChannelMemberMutation(_) => seq!["deleteChannelMember"@],
        ChannelOperation::AddGithubOidcMutation(_) => seq!["addGithubOidcPublisher"@],
        ChannelOperation::AddGitlabOidcMutation(_) => seq!["addGitlabOidcPublisher"@],
        ChannelOperation::AddGoogleOidcMutation(_) => seq!["addGoogleOidcPublisher"@],
        ChannelOperation::DeleteOidcMutation(_) => seq!["deleteOidcPublisher"@],
        ChannelOperation::TransferChannelMutation(_) => seq!["transferChannelOwnership"@, "channel"@],
    }
}

/// Where in the data of its answer the result of a channel operation lies.
pub fn channel_result_path(op: &ChannelOperation) -> (r: Vec<&'static str>)
    ensures
        str_texts(r@) == channel_result_path_of(*op),
{
    match op {
        ChannelOperation::ChannelGetQuery(_) => path1("channel"),
        ChannelOperation::ChannelListQuery(_) => path1("channels"),
        ChannelOperation::CreateChannelMutation(_) => path2("createChannel", "channel"),
        ChannelOperation::UpdateChannelMutation(_) => path2("updateChannel", "channel"),
        ChannelOperation::CreateChannelNoticeMutation(_) => path1("createChannelNotice"),
        ChannelOperation::UpdateChannelNoticeMutation(_) => path1("updateChannelNotice"),
        ChannelOperation::DeleteChannelNoticeMutation(_) => path1("deleteChannelNotice"),
        ChannelOperation::DeleteChannelMutation(_) => path2("deleteChannel", "channel"),
        ChannelOperation::AddChannelMemberMutation(_) => path1("addChannelMember"),
        ChannelOperation::DeleteChannelMemberMutation(_) => path1("deleteChannelMember"),
        ChannelOperation::AddGithubOidcMutation(_) => path1("addGithubOidcPublisher"),
        ChannelOperation::AddGitlabOidcMutation(_) => path1("addGitlabOidcPublisher"),
        ChannelOperation::AddGoogleOidcMutation(_) => path1("addGoogleOidcPublisher"),
        ChannelOperation::DeleteOidcMutation(_) => path1("deleteOidcPublisher"),
        ChannelOperation::TransferChannelMutation(_) => path2("transferChannelOwnership", "channel"),
    }
}

} // verus!
