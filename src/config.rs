use vstd::prelude::*;

verus! {

/// The stored credentials and identity of the assistant's user.
#[derive(Debug, Clone, Default, PartialEq, Eq)]
pub struct Config {
    pub api_key: Option<String>,
    pub app_id: Option<String>,
    pub user_auth_token: Option<String>,
    pub username: Option<String>,
    pub user_id: Option<String>,
    pub channel_id: Option<String>,
}

} // verus!
