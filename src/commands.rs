use vstd::prelude::*;
use crate::config::Config;
use crate::conversation::{Session, start, started, image_view};
use crate::errors::YuchiError;
use crate::image::{ImageSource, encodable};
use crate::json::{parse_json, error_text};
use crate::text::{is_white, occurs_at, opt_view, trim, trimmed};

verus! {

/// The application id that user auth tokens are issued for.
pub const APP_ID: &'static str = "3718bde3-c803-4bfc-b41b-3b5f0aa0ddd8";

pub const NO_USER_ID: &'static str = "No user ID set. Run `yuchi --login` first.";

pub const NO_CHANNEL_ID: &'static str = "No channel ID set. Run `yuchi --login` first.";

pub const NO_CREDENTIALS: &'static str = "No API key or user auth token set. Run `yuchi --login` first.";

pub const MODEL_PREFIX: &'static str = "shapesinc/";

pub const DEFAULT_MODEL: &'static str = "shapesinc/ariwa";

/// The characters of an optional stored string.
pub open spec fn stored(o: Option<String>) -> Option<Seq<char>> {
    match o {
        Some(s) => Some(s@),
        None => None,
    }
}

/// The model a question goes to: the one asked for, else the user's shape, else
/// the default.
pub open spec fn chosen_model(config: Config, model_override: Option<Seq<char>>) -> Seq<char> {
    match model_override {
        Some(m) => m,
        None => match config.username {
            Some(u) => MODEL_PREFIX@ + u@,
            None => DEFAULT_MODEL@,
        },
    }
}

/// The model of a shape, by its username.
pub fn shape_model(username: &str) -> (r: String)
    ensures
        r@ == MODEL_PREFIX@ + username@,
{
    String::from_str(MODEL_PREFIX).concat(username)
}

/// The model a question goes to.
pub fn model_for(config: &Config, model_override: Option<&str>) -> (r: String)
    ensures
        r@ == chosen_model(*config, opt_view(model_override)),
{
    match model_override {
        Some(m) => m.to_owned(),
        None => match &config.username {
            Some(u) => shape_model(u.as_str()),
            None => DEFAULT_MODEL.to_owned(),
        },
    }
}

fn as_opt_str(o: &Option<String>) -> (r: Option<&str>)
    ensures
        opt_view(r) == stored(*o),
{
    match o {
        Some(s) => Some(s.as_str()),
        None => None,
    }
}

/// Starts the exchange for a question with the stored configuration: it needs a
/// user id, a channel id and a credential, and prefers the token to the key.
pub fn ask(
    config: &Config,
    question: &str,
    model_override: Option<&str>,
    image: Option<(&str, ImageSource)>,
) -> (r: Result<Session, YuchiError>)
    requires
        image matches Some((_, source)) ==> encodable(&source),
    ensures
        config.user_id is None ==> (r matches Err(YuchiError::Config(m)) && m@ == NO_USER_ID@),
        config.user_id is Some && config.channel_id is None ==> (r matches Err(
            YuchiError::Config(m),
        ) && m@ == NO_CHANNEL_ID@),
        config.user_id is Some && config.channel_id is Some && config.user_auth_token is None
            && config.api_key is None ==> (r matches Err(YuchiError::Config(m)) && m@
            == NO_CREDENTIALS@),
        config.user_id is Some && config.channel_id is Some && (config.user_auth_token is Some
            || config.api_key is Some) ==> started(
            r,
            question@,
            if config.user_auth_token is Some {
                None
            } else {
                stored(config.api_key)
            },
            stored(config.user_auth_token),
            stored(config.app_id),
            chosen_model(*config, opt_view(model_override)),
            config.user_id->0@,
            config.channel_id->0@,
            image_view(image),
        ),
{
    let user_id = match &config.user_id {
        Some(u) => u,
        None => return Err(YuchiError::Config(NO_USER_ID.to_owned())),
    };
    let channel_id = match &config.channel_id {
        Some(c) => c,
        None => return Err(YuchiError::Config(NO_CHANNEL_ID.to_owned())),
    };
    let model = model_for(config, model_override);
    let app_id = as_opt_str(&config.app_id);
    match &config.user_auth_token {
        Some(token) => start(
            question,
            None,
            Some(token.as_str()),
            app_id,
            model.as_str(),
            user_id.as_str(),
            channel_id.as_str(),
            image,
        ),
        None => match &config.api_key {
            Some(key) => start(
                question,
                Some(key.as_str()),
                None,
                app_id,
                model.as_str(),
                user_id.as_str(),
                channel_id.as_str(),
                image,
            ),
            None => Err(YuchiError::Config(NO_CREDENTIALS.to_owned())),
        },
    }
}

// ---------------------------------------------------------------------------
// Signing in

pub const BAD_METHOD: &'static str = "Invalid authentication method. Choose 1 for API key or 2 for user auth token.";

pub const EMPTY_KEY: &'static str = "API key cannot be empty";

pub const EMPTY_CODE: &'static str = "One-time code cannot be empty";

pub const KEY_NOT_VALIDATED: &'static str = "API key validation failed: No response received";

pub const TOKEN_NOT_VALIDATED: &'static str = "User auth token validation failed: No response received";

pub const SHAPE_NOT_VALIDATED: &'static str = "Username validation failed: No response received.";

pub const MISSING_AUTH_TOKEN: &'static str = "Missing auth_token in response";

pub const BAD_TOKEN_REPLY: &'static str = "Failed to parse auth token response: ";

pub const AUTHORIZE_URL: &'static str = "https://shapes.inc/authorize?app_id=";

/// The two ways to sign in.
#[derive(Debug, Clone, Copy, PartialEq, Eq)]
pub enum AuthMethod {
    ApiKey,
    UserToken,
}

/// The sign-in method the user chose: `1` for an API key, `2` for a user auth token.
pub fn auth_method(answer: &str) -> (r: Result<AuthMethod, YuchiError>)
    ensures
        trimmed(answer@) == "1"@ ==> r == Ok::<AuthMethod, YuchiError>(AuthMethod::ApiKey),
        trimmed(answer@) == "2"@ ==> r == Ok::<AuthMethod, YuchiError>(AuthMethod::UserToken),
        trimmed(answer@) != "1"@ && trimmed(answer@) != "2"@ ==> (r matches Err(YuchiError::Input(m))
            && m@ == BAD_METHOD@),
{
    proof {
        reveal_strlit("1");
        reveal_strlit("2");
        assert("1"@[0] != "2"@[0]);
    }
    let t = trim(answer).to_owned();
    if t == String::from_str("1") {
        Ok(AuthMethod::ApiKey)
    } else if t == String::from_str("2") {
        Ok(AuthMethod::UserToken)
    } else {
        Err(YuchiError::Input(BAD_METHOD.to_owned()))
    }
}

/// Rejects an entry that is only white space with the `Input` error `what`.
pub fn require_entry(value: &str, what: &str) -> (r: Result<(), YuchiError>)
    ensures
        trimmed(value@).len() == 0 ==> (r matches Err(YuchiError::Input(m)) && m@ == what@),
        trimmed(value@).len() > 0 ==> r is Ok,
{
    if trim(value).unicode_len() == 0 {
        Err(YuchiError::Input(what.to_owned()))
    } else {
        Ok(())
    }
}

/// Rejects an empty test reply with the `Api` error `what`.
pub fn require_reply(reply: &str, what: &str) -> (r: Result<(), YuchiError>)
    ensures
        reply@.len() == 0 ==> (r matches Err(YuchiError::Api(m)) && m@ == what@),
        reply@.len() > 0 ==> r is Ok,
{
    if reply.unicode_len() == 0 {
        Err(YuchiError::Api(what.to_owned()))
    } else {
        Ok(())
    }
}

/// Relies on `uuid::Uuid::new_v4` and its `Display`: a random identifier. Nothing is
/// known of it.
#[verifier::external_body]
fn new_id() -> String {
    uuid::Uuid::new_v4().to_string()
}

/// Gives the configuration a new random user id and channel id where it has none;
/// says which were made.
pub fn fill_ids(config: &mut Config) -> (r: (bool, bool))
    ensures
        r.0 == old(config).user_id is None,
        r.1 == old(config).channel_id is None,
        final(config).user_id is Some,
        final(config).channel_id is Some,
        old(config).user_id is Some ==> final(config).user_id == old(config).user_id,
        old(config).channel_id is Some ==> final(config).channel_id == old(config).channel_id,
        final(config).api_key == old(config).api_key,
        final(config).app_id == old(config).app_id,
        final(config).user_auth_token == old(config).user_auth_token,
        final(config).username == old(config).username,
{
    let made_user = config.user_id.is_none();
    if made_user {
        config.user_id = Some(new_id());
    }
    let made_channel = config.channel_id.is_none();
    if made_channel {
        config.channel_id = Some(new_id());
    }
    (made_user, made_channel)
}

/// Keeps a validated API key as the only credential.
pub fn keep_api_key(config: &mut Config, key: String)
    ensures
        final(config).api_key == Some(key),
        final(config).app_id is None,
        final(config).user_auth_token is None,
        final(config).username == old(config).username,
        final(config).user_id == old(config).user_id,
        final(config).channel_id == old(config).channel_id,
{
    config.api_key = Some(key);
    config.app_id = None;
    config.user_auth_token = None;
}

/// Records the application that user auth tokens are issued for.
pub fn set_app_id(config: &mut Config)
    ensures
        final(config).app_id matches Some(a) && a@ == APP_ID@,
        final(config).api_key == old(config).api_key,
        final(config).user_auth_token == old(config).user_auth_token,
        final(config).username == old(config).username,
        final(config).user_id == old(config).user_id,
        final(config).channel_id == old(config).channel_id,
{
    config.app_id = Some(APP_ID.to_owned());
}

/// Keeps a validated user auth token as the only credential.
pub fn keep_token(config: &mut Config, token: String)
    ensures
        final(config).user_auth_token == Some(token),
        final(config).api_key is None,
        final(config).app_id == old(config).app_id,
        final(config).username == old(config).username,
        final(config).user_id == old(config).user_id,
        final(config).channel_id == old(config).channel_id,
{
    config.user_auth_token = Some(token);
    config.api_key = None;
}

/// The page where the user authorizes the application.
pub fn authorize_url() -> (r: String)
    ensures
        r@ == AUTHORIZE_URL@ + APP_ID@,
{
    String::from_str(AUTHORIZE_URL).concat(APP_ID)
}

/// The user auth token given in exchange for a one-time code: an `Api` error for a
/// failed status, a body that is not JSON, or one without an `auth_token` string.
pub fn read_auth_token(status: u16, status_line: &str, body: Option<&str>) -> (r: Result<String, YuchiError>)
    ensures
        !crate::conversation::is_success(status) ==> (r matches Err(YuchiError::Api(m)) && m@
            == "Failed to exchange one-time code with status: "@ + status_line@ + ". Response: "@
            + crate::conversation::body_or_default(opt_view(body))),
        crate::conversation::is_success(status) ==> match crate::conversation::parsed(opt_view(body)) {
            None => r matches Err(YuchiError::Api(m)) && crate::text::has_prefix(m@, BAD_TOKEN_REPLY@),
            Some(j) => match crate::conversation::text_of(j.member("auth_token"@)) {
                Some(t) => r matches Ok(s) && s@ == t,
                None => r matches Err(YuchiError::Api(m)) && m@ == MISSING_AUTH_TOKEN@,
            },
        },
{
    if !(200 <= status && status <= 299) {
        let text = match body {
            Some(b) => b,
            None => crate::conversation::NO_BODY,
        };
        return Err(
            YuchiError::Api(
                String::from_str("Failed to exchange one-time code with status: ").concat(
                    status_line,
                ).concat(". Response: ").concat(text),
            ),
        );
    }
    let why = match body {
        Some(b) => match parse_json(b) {
            Ok(j) => {
                return match j.get("auth_token") {
                    Some(t) => match t.as_str() {
                        Some(s) => Ok(s.clone()),
                        None => Err(YuchiError::Api(MISSING_AUTH_TOKEN.to_owned())),
                    },
                    None => Err(YuchiError::Api(MISSING_AUTH_TOKEN.to_owned())),
                };
            },
            Err(e) => error_text(&e),
        },
        None => crate::conversation::NO_BODY.to_owned(),
    };
    proof {
        crate::text::lemma_prefix_concat(BAD_TOKEN_REPLY@, why@);
    }
    Err(YuchiError::Api(String::from_str(BAD_TOKEN_REPLY).concat(why.as_str())))
}

// ---------------------------------------------------------------------------
// Generated images

pub const IMAGE_HOST: &'static str = "https://files.shapes.inc/";

pub const NO_IMAGE_URL: &'static str = "No valid image URL found in response";

/// An image URL begins at `i`: the host, then at least one character that is not
/// white space.
pub open spec fn url_starts(t: Seq<char>, i: int) -> bool {
    occurs_at(t, IMAGE_HOST@, i) && i + IMAGE_HOST@.len() < t.len() && !is_white(
        t[i + IMAGE_HOST@.len()],
    )
}

/// The URL that begins at `i` ends before `e`: at the first white space, or the end.
pub open spec fn url_ends(t: Seq<char>, i: int, e: int) -> bool {
    &&& i + IMAGE_HOST@.len() < e <= t.len()
    &&& forall|k: int| i + IMAGE_HOST@.len() <= k < e ==> !is_white(#[trigger] t[k])
    &&& (e == t.len() || is_white(t[e]))
}

/// The leftmost match of `https://files\.shapes\.inc/[^\s]+` in `t`: the first place
/// where an image URL begins, up to the white space that ends it.
pub open spec fn image_url_in(t: Seq<char>) -> Option<Seq<char>> {
    if exists|i: int| url_starts(t, i) {
        let i = choose|i: int| url_starts(t, i) && forall|j: int| 0 <= j < i ==> !url_starts(t, j);
        let e = choose|e: int| url_ends(t, i, e);
        Some(t.subrange(i, e))
    } else {
        None
    }
}

/// Relies on `regex::Regex::find`: the leftmost-first match of the pattern, where
/// `\s` is Unicode white space and `+` is greedy.
#[verifier::external_body]
fn find_url(text: &str) -> (r: Option<String>)
    ensures
        match r {
            Some(u) => image_url_in(text@) == Some(u@),
            None => image_url_in(text@) is None,
        },
{
    match regex::Regex::new(r"https://files\.shapes\.inc/[^\s]+") {
        Ok(re) => re.find(text).map(|m| m.as_str().to_string()),
        Err(_) => None,
    }
}

/// The URL of the generated image that a reply links to.
pub fn find_image_url(response: &str) -> (r: Result<String, YuchiError>)
    ensures
        match image_url_in(response@) {
            Some(u) => r matches Ok(s) && s@ == u,
            None => r matches Err(YuchiError::Api(m)) && m@ == NO_IMAGE_URL@,
        },
{
    match find_url(response) {
        Some(u) => Ok(u),
        None => Err(YuchiError::Api(NO_IMAGE_URL.to_owned())),
    }
}

/// Where a downloaded image is saved, by its identifier.
pub fn image_file_name(id: &str) -> (r: String)
    ensures
        r@ == "/sdcard/yuchi_image_"@ + id@ + ".png"@,
{
    String::from_str("/sdcard/yuchi_image_").concat(id).concat(".png")
}

/// A new file name for a downloaded image, unique by a random identifier.
pub fn new_image_file_name() -> (r: String)
    ensures
        exists|id: Seq<char>| r@ == "/sdcard/yuchi_image_"@ + id + ".png"@,
{
    let id = new_id();
    image_file_name(id.as_str())
}

} // verus!
