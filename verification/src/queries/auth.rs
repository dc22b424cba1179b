//! Variables and operations about the viewer and API keys.
use vstd::prelude::*;

use super::common::{ChannelAccessMode, DateTime};

verus! {

/// Variables of the mutation that creates an API key.
#[derive(Debug)]
pub struct CreateApiKeyVars {
    pub name: String,
    pub description: Option<String>,
    pub expires_at: Option<DateTime>,
    pub access_mode: Option<ChannelAccessMode>,
    pub channel_name: Option<String>,
}

/// Variables naming an API key.
#[derive(Debug)]
pub struct ApiKeyNameVars {
    pub name: String,
}

/// The operations about the viewer and API keys, with their variables.
#[derive(Debug)]
pub enum AuthOperation {
    /// Who is logged in.
    ViewerQuery,
    /// The viewer's API keys.
    ApiKeysQuery,
    /// Create an API key.
    CreateApiKeyMutation(CreateApiKeyVars),
    /// Revoke an API key.
    RevokeApiKeyMutation(ApiKeyNameVars),
    /// Delete an API key.
    DeleteApiKeyMutation(ApiKeyNameVars),
}

} // verus!
