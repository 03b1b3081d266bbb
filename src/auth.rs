use vstd::prelude::*;
use crate::errors::YuchiError;

verus! {

pub const NO_APP_ID: &'static str = "No app ID set for user auth token.";

pub const NO_CREDENTIAL: &'static str = "No API key or user auth token provided.";

/// How a request authenticates: exactly one of the two schemes.
#[derive(Debug, Clone, PartialEq, Eq)]
pub enum Auth {
    /// A user auth token, sent with the application id it was issued for.
    Token { app_id: String, token: String },
    /// An API key, sent with the user and channel the conversation belongs to.
    Key { user_id: String, channel_id: String, api_key: String },
}

/// The names and values of a list of headers.
pub open spec fn header_views(h: Seq<(String, String)>) -> Seq<(Seq<char>, Seq<char>)> {
    h.map_values(|p: (String, String)| (p.0@, p.1@))
}

/// Whether `r` is the scheme chosen from the stored credentials: the token where
/// there is one (which needs an application id), else the API key, else an error.
pub open spec fn auth_chosen(
    r: Result<Auth, YuchiError>,
    api_key: Option<Seq<char>>,
    token: Option<Seq<char>>,
    app_id: Option<Seq<char>>,
    user_id: Seq<char>,
    channel_id: Seq<char>,
) -> bool {
    match token {
        Some(t) => match app_id {
            Some(a) => r matches Ok(Auth::Token { app_id: x, token: y }) && x@ == a && y@ == t,
            None => r matches Err(YuchiError::Config(m)) && m@ == NO_APP_ID@,
        },
        None => match api_key {
            Some(k) => r matches Ok(Auth::Key { user_id: u, channel_id: c, api_key: z }) && u@
                == user_id && c@ == channel_id && z@ == k,
            None => r matches Err(YuchiError::Api(m)) && m@ == NO_CREDENTIAL@,
        },
    }
}

/// Chooses the authentication scheme: token mode where a token is given (a
/// `Config` error without an application id), else key mode where a key is given,
/// else an `Api` error.
pub fn select_auth(
    api_key: Option<&str>,
    user_auth_token: Option<&str>,
    app_id: Option<&str>,
    user_id: &str,
    channel_id: &str,
) -> (r: Result<Auth, YuchiError>)
    ensures
        auth_chosen(
            r,
            crate::text::opt_view(api_key),
            crate::text::opt_view(user_auth_token),
            crate::text::opt_view(app_id),
            user_id@,
            channel_id@,
        ),
{
    match user_auth_token {
        Some(t) => match app_id {
            Some(a) => Ok(Auth::Token { app_id: a.to_owned(), token: t.to_owned() }),
            None => Err(YuchiError::Config(NO_APP_ID.to_owned())),
        },
        None => match api_key {
            Some(k) => Ok(
                Auth::Key {
                    user_id: user_id.to_owned(),
                    channel_id: channel_id.to_owned(),
                    api_key: k.to_owned(),
                },
            ),
            None => Err(YuchiError::Api(NO_CREDENTIAL.to_owned())),
        },
    }
}

impl Auth {
    /// The headers of the scheme: `X-App-ID` and `X-User-Auth` for a token;
    /// `X-User-ID`, `X-Channel-ID` and a bearer `Authorization` for a key.
    pub open spec fn spec_headers(self) -> Seq<(Seq<char>, Seq<char>)> {
        match self {
            Auth::Token { app_id, token } => seq![
                ("X-App-ID"@, app_id@),
                ("X-User-Auth"@, token@),
            ],
            Auth::Key { user_id, channel_id, api_key } => seq![
                ("X-User-ID"@, user_id@),
                ("X-Channel-ID"@, channel_id@),
                ("Authorization"@, "Bearer "@ + api_key@),
            ],
        }
    }

    /// The headers that carry the scheme on a request.
    pub fn headers(&self) -> (r: Vec<(String, String)>)
        ensures
            header_views(r@) == self.spec_headers(),
    {
        let mut h: Vec<(String, String)> = Vec::new();
        match self {
            Auth::Token { app_id, token } => {
                h.push((String::from_str("X-App-ID"), app_id.clone()));
                h.push((String::from_str("X-User-Auth"), token.clone()));
            },
            Auth::Key { user_id, channel_id, api_key } => {
                h.push((String::from_str("X-User-ID"), user_id.clone()));
                h.push((String::from_str("X-Channel-ID"), channel_id.clone()));
                h.push(
                    (String::from_str("Authorization"), String::from_str("Bearer ").concat(api_key.as_str())),
                );
            },
        }
        assert(header_views(h@) =~= self.spec_headers());
        h
    }
}

} // verus!
