//! The commands the program accepts, with their arguments.
use vstd::prelude::*;

verus! {

/// The parsed command line.
#[derive(Debug)]
pub struct Cli {
    /// API authentication token (or the `PREFIX_DEV_API_TOKEN` variable).
    pub token: Option<String>,
    /// GraphQL endpoint URL.
    pub endpoint: String,
    /// Print results as JSON rather than for people.
    pub json: bool,
    pub command: Command,
}

/// The top-level commands.
#[derive(Debug)]
pub enum Command {
    /// Manage channels.
    Channel { command: ChannelCommand },
    /// Manage packages.
    Package { command: PackageCommand },
    /// Authentication and API key management.
    Auth { command: AuthCommand },
    /// Describe the commands as JSON, all of them or the one at a path.
    Describe { command_path: Vec<String> },
}

/// Channel commands.
#[derive(Debug)]
pub enum ChannelCommand {
    /// Get channel details by name.
    Get { name: String },
    /// List channels with filtering and pagination.
    List {
        owner: Option<String>,
        public: bool,
        limit: i32,
        page: i32,
        order_by: Option<ChannelOrderField>,
        direction: SortDirection,
        search: Option<String>,
    },
    /// Create a new channel.
    Create {
        name: String,
        description: Option<String>,
        public: bool,
        logo: Option<String>,
        relation_base: Option<String>,
        relation_overrides: Option<String>,
        allow_v3_uploads: Option<bool>,
    },
    /// Update an existing channel.
    Update {
        name: String,
        description: Option<String>,
        public: Option<bool>,
        logo: Option<String>,
        relation_base: Option<String>,
        relation_overrides: Option<String>,
        allow_v3_uploads: Option<bool>,
    },
    /// Add a notice to a channel.
    AddNotice {
        channel: String,
        id: String,
        message: String,
        level: NoticeLevel,
        expires_at: Option<String>,
    },
    /// Update a channel notice.
    UpdateNotice {
        channel: String,
        id: String,
        message: String,
        level: NoticeLevel,
        expires_at: Option<String>,
    },
    /// Delete a channel notice.
    DeleteNotice { channel: String, id: String },
    /// Delete a channel.
    Delete { name: String },
    /// Add a member to a channel.
    AddMember { channel: String, username: String, role: MemberRole },
    /// Remove a member from a channel.
    RemoveMember { channel: String, username: String },
    /// Add a GitHub OIDC publisher to a channel.
    AddGithubOidc {
        channel: String,
        owner: String,
        repo: String,
        workflow: String,
        environment: Option<String>,
        access_mode: Option<AccessMode>,
    },
    /// Add a GitLab OIDC publisher to a channel.
    AddGitlabOidc {
        channel: String,
        namespace: String,
        project: String,
        workflow: String,
        environment: Option<String>,
        access_mode: Option<AccessMode>,
    },
    /// Add a Google OIDC publisher to a channel.
    AddGoogleOidc {
        channel: String,
        email: String,
        sub: Option<String>,
        access_mode: Option<AccessMode>,
    },
    /// Delete an OIDC publisher from a channel.
    DeleteOidc { channel: String, id: String },
    /// Transfer channel ownership to another user.
    Transfer { channel: String, new_owner: String },
}

/// Package commands.
#[derive(Debug)]
pub enum PackageCommand {
    /// Get package details.
    Get { channel: String, name: String, variants_page: i32, variants_limit: i32 },
    /// Search packages by name (similarity-based).
    Search { query: String, limit: i32, page: i32 },
    /// List packages with filtering and pagination.
    List {
        name_contains: Option<String>,
        limit: i32,
        page: i32,
        order_by: Option<PackageOrderField>,
        direction: SortDirection,
    },
    /// Find a package matching a matchspec.
    Matchspec { spec: String, channels: Vec<String> },
    /// Get a specific package variant.
    Variant { channel: String, package: String, platform: String, filename: String },
    /// List package versions.
    Versions { channel: String, name: String, limit: i32, page: i32 },
    /// Yank a package variant.
    Yank { channel: String, subdir: String, filename: String, reason: String },
    /// Unyank a package variant.
    Unyank { channel: String, subdir: String, filename: String },
    /// Copy pinned package files (a JSON array of `url` and `sha256`) into a channel.
    Copy { channel: String, packages: String },
    /// Copy the variants of packages of another channel into a channel.
    CopyFromChannel {
        destination: String,
        source: String,
        packages: Vec<String>,
        version: Option<String>,
        platform: Option<String>,
    },
    /// Show a copy job.
    CopyStatus { id: String },
    /// Show the copy job running on a channel.
    ActiveCopy { channel: String },
    /// Batch delete package variants (a JSON array of `subdir` and `filename`).
    BatchDelete { channel: String, entries: String },
}

/// Authentication commands.
#[derive(Debug)]
pub enum AuthCommand {
    /// Show the currently authenticated user.
    Whoami,
    /// Manage API keys.
    ApiKey { command: ApiKeyCommand },
}

/// API key commands.
#[derive(Debug)]
pub enum ApiKeyCommand {
    /// List all API keys.
    List,
    /// Create a new API key, optionally scoped to one channel.
    Create {
        name: String,
        description: Option<String>,
        expires_at: Option<String>,
        access_mode: Option<AccessMode>,
        channel: Option<String>,
    },
    /// Revoke an API key.
    Revoke { name: String },
    /// Delete an API key.
    Delete { name: String },
}

/// The fields channels can be listed in order of.
#[derive(Debug, Clone, Copy, PartialEq, Eq, Structural)]
pub enum ChannelOrderField {
    Name,
    BillingOwner,
    Namespace,
    Size,
    CreatedAt,
    PackageCount,
}

/// The fields packages can be listed in order of.
#[derive(Debug, Clone, Copy, PartialEq, Eq, Structural)]
pub enum PackageOrderField {
    Name,
    LastCreatedDate,
    TotalSize,
}

/// A sort direction.
#[derive(Debug, Clone, Copy, PartialEq, Eq, Structural)]
pub enum SortDirection {
    Asc,
    Desc,
}

/// The role given to a new channel member.
#[derive(Debug, Clone, Copy, PartialEq, Eq, Structural)]
pub enum MemberRole {
    Owner,
    Contributor,
    Viewer,
}

/// What an OIDC publisher or API key may do on a channel.
#[derive(Debug, Clone, Copy, PartialEq, Eq, Structural)]
pub enum AccessMode {
    All,
    Read,
    ReadWrite,
    ReadWriteDelete,
}

/// The level of a channel notice.
#[derive(Debug, Clone, Copy, PartialEq, Eq, Structural)]
pub enum NoticeLevel {
    Info,
    Warning,
    Critical,
}

} // verus!
