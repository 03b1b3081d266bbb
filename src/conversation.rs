use vstd::prelude::*;
use crate::auth::{Auth, auth_chosen, select_auth};
use crate::errors::YuchiError;
use crate::image::{ImageSource, encodable, image_data_url, image_outcome};
use crate::json::{Json, json_parse, parse_json, error_text};
use crate::text::{has_infix, has_prefix, has_suffix, opt_view, contains, starts_with, ends_with, lemma_prefix_concat};

verus! {

pub const TEXT_REQUEST: &'static str = "Extract the text from this image: ";

pub const RATE_LIMITED: &'static str = "Blame Shapes, I got rate-limited. Try again later.";

pub const NOT_FOUND: &'static str = "The resource couldn't be found.";

pub const FORBIDDEN: &'static str = "I don't have access to the AccessVerse.";

pub const NO_TOOL_REPLY: &'static str = "No response from tool execution.";

pub const NO_BODY: &'static str = "No response body";

pub const FALLBACK_ID: &'static str = "fallback";

/// The content of a user message.
#[derive(Debug, Clone, PartialEq, Eq)]
pub enum Content {
    /// The prompt alone.
    Text(String),
    /// The prompt, then an image given by its data URL.
    WithImage { text: String, image_url: String },
}

/// One message of the exchange, in the order the remote service expects.
#[derive(Debug, PartialEq)]
pub enum Message {
    /// What the user asks.
    User(Content),
    /// The remote model's request for tool calls, as it sent them.
    Assistant(Vec<Json>),
    /// The outcome of one tool call.
    Tool { call_id: String, content: String },
}

/// A command that the remote model asked to run, with the id of its request.
#[derive(Debug, Clone, PartialEq, Eq)]
pub struct ToolCall {
    pub id: String,
    pub command: String,
}

/// Whether a request offers the shell tool to the remote model.
#[derive(Debug, Clone, Copy, PartialEq, Eq)]
pub enum ToolChoice {
    /// The tool is declared and the model may call it.
    Auto,
    /// No tool is declared and the model must answer in text.
    Disabled,
}

/// What the driver asks its caller to do next.
#[derive(Debug, PartialEq)]
pub enum Step {
    /// Send the session's messages, with the given tool choice.
    Send(ToolChoice),
    /// Ask for confirmation, then run this command.
    Run(String),
    /// The exchange is over: the reply, or why it failed.
    Done(Result<String, YuchiError>),
}

/// Where a session stands.
#[derive(Debug, Clone, Copy, PartialEq, Eq)]
pub enum Stage {
    AwaitingReply,
    RunningTools,
    AwaitingFinalReply,
    Finished,
}

/// One exchange with the remote service: the messages so far, the tool calls that
/// the first reply asked for, and how far they have run.
#[derive(Debug)]
pub struct Session {
    pub model: String,
    pub auth: Auth,
    pub messages: Vec<Message>,
    pub calls: Vec<ToolCall>,
    pub next: usize,
    /// Why the call after the last one in `calls` could not be read, if one could not.
    pub fault: Option<YuchiError>,
    pub stage: Stage,
}

// ---------------------------------------------------------------------------
// The prompt

/// The lower-case form of a text, as `str::to_lowercase` gives it.
pub uninterp spec fn lower_of(s: Seq<char>) -> Seq<char>;

/// Relies on `str::to_lowercase`: the result depends on the characters alone.
#[verifier::external_body]
fn lowercase(s: &str) -> (r: String)
    ensures
        r@ == lower_of(s@),
{
    s.to_lowercase()
}

/// The prompt sent with an image, given the prompt's lower-case form: a prompt that
/// mentions "text" becomes an explicit request to extract it.
pub open spec fn image_prompt(prompt: Seq<char>, lowered: Seq<char>) -> Seq<char> {
    if has_infix(lowered, "text"@) {
        TEXT_REQUEST@ + prompt
    } else {
        prompt
    }
}

/// The prompt that is sent: rewritten only where an image is attached.
pub open spec fn effective_prompt(prompt: Seq<char>, has_image: bool) -> Seq<char> {
    if has_image {
        image_prompt(prompt, lower_of(prompt))
    } else {
        prompt
    }
}

/// The prompt sent with an image, from the prompt and its lower-case form.
pub fn prompt_for_image(prompt: &str, lowered: &str) -> (r: String)
    ensures
        r@ == image_prompt(prompt@, lowered@),
{
    if contains(lowered, "text") {
        String::from_str(TEXT_REQUEST).concat(prompt)
    } else {
        prompt.to_owned()
    }
}

/// The prompt that is sent: with an image, one that mentions "text" in any case is
/// prefixed with an explicit request to extract it; otherwise it is unchanged.
pub fn adjust_prompt(prompt: &str, has_image: bool) -> (r: String)
    ensures
        r@ == effective_prompt(prompt@, has_image),
{
    if has_image {
        let lowered = lowercase(prompt);
        prompt_for_image(prompt, lowered.as_str())
    } else {
        prompt.to_owned()
    }
}

// ---------------------------------------------------------------------------
// Reading a chat-completion reply

pub const MISSING_ID: &'static str = "Missing tool call ID";

pub const MISSING_ARGUMENTS: &'static str = "Missing tool arguments";

pub const ARGUMENTS_NOT_TEXT: &'static str = "Tool arguments must be a JSON string";

pub const BAD_ARGUMENTS: &'static str = "Failed to parse tool arguments: ";

pub const MISSING_COMMAND: &'static str = "Missing command parameter";

pub const OPEN_TAG: &'static str = "<function>";

pub const CLOSE_TAG: &'static str = "</function>";

pub open spec fn opt_member(o: Option<Json>, key: Seq<char>) -> Option<Json> {
    match o {
        Some(j) => j.member(key),
        None => None,
    }
}

pub open spec fn first_of(o: Option<Json>) -> Option<Json> {
    match o {
        Some(j) => match j.elements() {
            Some(es) => if es.len() > 0 {
                Some(es[0])
            } else {
                None
            },
            None => None,
        },
        None => None,
    }
}

pub open spec fn text_of(o: Option<Json>) -> Option<Seq<char>> {
    match o {
        Some(j) => j.text(),
        None => None,
    }
}

/// The message of the first choice of a chat-completion reply.
pub open spec fn reply_message(j: Json) -> Option<Json> {
    opt_member(first_of(j.member("choices"@)), "message"@)
}

/// The tool-calls array of a reply's message, where it has one.
pub open spec fn reply_tool_calls(j: Json) -> Option<Seq<Json>> {
    match opt_member(reply_message(j), "tool_calls"@) {
        Some(t) => t.elements(),
        None => None,
    }
}

/// The textual content of a reply's message, where it has one.
pub open spec fn reply_content(j: Json) -> Option<Seq<char>> {
    text_of(opt_member(reply_message(j), "content"@))
}

/// The text inside a `<function>...</function>` envelope.
pub open spec fn envelope(c: Seq<char>) -> Option<Seq<char>> {
    if c.len() >= OPEN_TAG@.len() + CLOSE_TAG@.len() && has_prefix(c, OPEN_TAG@) && has_suffix(
        c,
        CLOSE_TAG@,
    ) {
        Some(c.subrange(OPEN_TAG@.len() as int, c.len() - CLOSE_TAG@.len()))
    } else {
        None
    }
}

/// The `command` of a tool's arguments.
pub open spec fn command_of(args: Json) -> Option<Seq<char>> {
    text_of(args.member("command"@))
}

/// Why an entry of the tool-calls array names no command.
#[derive(Debug, Clone, Copy, PartialEq, Eq)]
pub enum EntryFault {
    MissingId,
    MissingArguments,
    ArgumentsNotText,
    BadArguments,
    MissingCommand,
}

/// The id and command of an entry of the tool-calls array: its `id`, and the
/// `command` of the JSON object that its `function.arguments` string holds.
pub open spec fn entry_call(e: Json) -> Result<(Seq<char>, Seq<char>), EntryFault> {
    match text_of(e.member("id"@)) {
        None => Err(EntryFault::MissingId),
        Some(id) => match opt_member(e.member("function"@), "arguments"@) {
            None => Err(EntryFault::MissingArguments),
            Some(a) => match a.text() {
                None => Err(EntryFault::ArgumentsNotText),
                Some(t) => match json_parse(t) {
                    Some(args) => if args matches Json::Object(_) {
                        match command_of(args) {
                            Some(c) => Ok((id, c)),
                            None => Err(EntryFault::MissingCommand),
                        }
                    } else {
                        Err(EntryFault::BadArguments)
                    },
                    None => Err(EntryFault::BadArguments),
                },
            },
        },
    }
}

/// `e` is the `Api` error that reports `f`.
pub open spec fn reports(f: EntryFault, e: YuchiError) -> bool {
    e matches YuchiError::Api(m) && match f {
        EntryFault::MissingId => m@ == MISSING_ID@,
        EntryFault::MissingArguments => m@ == MISSING_ARGUMENTS@,
        EntryFault::ArgumentsNotText => m@ == ARGUMENTS_NOT_TEXT@,
        EntryFault::BadArguments => has_prefix(m@, BAD_ARGUMENTS@),
        EntryFault::MissingCommand => m@ == MISSING_COMMAND@,
    }
}

fn api_error(m: &str) -> (r: YuchiError)
    ensures
        r matches YuchiError::Api(x) && x@ == m@,
{
    YuchiError::Api(m.to_owned())
}

fn message_of(j: &Json) -> (r: Option<&Json>)
    ensures
        match r {
            Some(m) => reply_message(*j) == Some(*m),
            None => reply_message(*j) is None,
        },
{
    match j.get("choices") {
        Some(c) => match c.at(0) {
            Some(first) => first.get("message"),
            None => None,
        },
        None => None,
    }
}

/// The textual content of a reply's message.
pub fn content_text(j: &Json) -> (r: Option<String>)
    ensures
        match r {
            Some(s) => reply_content(*j) == Some(s@),
            None => reply_content(*j) is None,
        },
{
    match message_of(j) {
        Some(m) => match m.get("content") {
            Some(c) => match c.as_str() {
                Some(s) => Some(s.clone()),
                None => None,
            },
            None => None,
        },
        None => None,
    }
}

/// The tool-calls array of a reply's message, taken out of the reply.
pub fn take_tool_calls(j: Json) -> (r: Option<Vec<Json>>)
    ensures
        match r {
            Some(v) => reply_tool_calls(j) == Some(v@),
            None => reply_tool_calls(j) is None,
        },
{
    let choices = match j.take("choices") {
        Some(c) => c,
        None => return None,
    };
    let first = match choices.take_first() {
        Some(f) => f,
        None => return None,
    };
    let message = match first.take("message") {
        Some(m) => m,
        None => return None,
    };
    match message.take("tool_calls") {
        Some(t) => t.into_array(),
        None => None,
    }
}

/// The text inside a `<function>...</function>` envelope.
pub fn envelope_inner(c: &str) -> (r: Option<&str>)
    ensures
        match r {
            Some(i) => envelope(c@) == Some(i@),
            None => envelope(c@) is None,
        },
{
    let n = c.unicode_len();
    let open = OPEN_TAG.unicode_len();
    let close = CLOSE_TAG.unicode_len();
    if n >= open && n - open >= close && starts_with(c, OPEN_TAG) && ends_with(c, CLOSE_TAG) {
        Some(c.substring_char(open, n - close))
    } else {
        None
    }
}

/// The `command` string of a tool's arguments.
fn command_text(args: &Json) -> (r: Option<String>)
    ensures
        match r {
            Some(s) => command_of(*args) == Some(s@),
            None => command_of(*args) is None,
        },
{
    match args.get("command") {
        Some(c) => match c.as_str() {
            Some(s) => Some(s.clone()),
            None => None,
        },
        None => None,
    }
}

/// Reads the id and command of one entry of a reply's tool-calls array.
pub fn parse_entry(e: &Json) -> (r: Result<ToolCall, YuchiError>)
    ensures
        match entry_call(*e) {
            Ok((id, c)) => r matches Ok(t) && t.id@ == id && t.command@ == c,
            Err(f) => r matches Err(x) && reports(f, x),
        },
{
    let id = match e.get("id") {
        Some(v) => match v.as_str() {
            Some(s) => s.clone(),
            None => return Err(api_error(MISSING_ID)),
        },
        None => return Err(api_error(MISSING_ID)),
    };
    let arguments = match e.get("function") {
        Some(f) => match f.get("arguments") {
            Some(a) => a,
            None => return Err(api_error(MISSING_ARGUMENTS)),
        },
        None => return Err(api_error(MISSING_ARGUMENTS)),
    };
    let text = match arguments.as_str() {
        Some(t) => t,
        None => return Err(api_error(ARGUMENTS_NOT_TEXT)),
    };
    proof {
        lemma_prefix_concat(BAD_ARGUMENTS@, "invalid type: expected a JSON object"@);
    }
    match parse_json(text.as_str()) {
        Ok(args) => {
            if let Json::Object(_) = args {
                match command_text(&args) {
                    Some(command) => Ok(ToolCall { id, command }),
                    None => Err(api_error(MISSING_COMMAND)),
                }
            } else {
                Err(
                    YuchiError::Api(
                        String::from_str(BAD_ARGUMENTS).concat("invalid type: expected a JSON object"),
                    ),
                )
            }
        },
        Err(err) => {
            let why = error_text(&err);
            proof {
                lemma_prefix_concat(BAD_ARGUMENTS@, why@);
            }
            Err(YuchiError::Api(String::from_str(BAD_ARGUMENTS).concat(why.as_str())))
        },
    }
}

/// `c` is the call that an entry reads as.
pub open spec fn call_is(c: ToolCall, o: Result<(Seq<char>, Seq<char>), EntryFault>) -> bool {
    o matches Ok((id, command)) && c.id@ == id && c.command@ == command
}

/// `e` is the error of an entry that reads as a fault.
pub open spec fn fault_is(e: YuchiError, o: Result<(Seq<char>, Seq<char>), EntryFault>) -> bool {
    o matches Err(f) && reports(f, e)
}

/// The calls of a tool-calls array, read in order up to the first entry that
/// cannot be read, and the error that reports that entry.
pub open spec fn planned(calls: Seq<ToolCall>, fault: Option<YuchiError>, entries: Seq<Json>) -> bool {
    &&& calls.len() <= entries.len()
    &&& forall|k: int| 0 <= k < calls.len() ==> call_is(#[trigger] calls[k], entry_call(entries[k]))
    &&& match fault {
        None => calls.len() == entries.len(),
        Some(e) => calls.len() < entries.len() && fault_is(e, entry_call(entries[calls.len() as int])),
    }
}

/// Reads the entries of a tool-calls array in order, stopping at the first one that
/// names no command.
pub fn plan_calls(entries: &Vec<Json>) -> (r: (Vec<ToolCall>, Option<YuchiError>))
    ensures
        planned(r.0@, r.1, entries@),
{
    let mut calls: Vec<ToolCall> = Vec::new();
    let mut i: usize = 0;
    while i < entries.len()
        invariant
            i <= entries@.len(),
            calls@.len() == i,
            forall|k: int|
                0 <= k < calls@.len() ==> call_is(#[trigger] calls@[k], entry_call(entries@[k])),
        decreases entries@.len() - i,
    {
        match parse_entry(&entries[i]) {
            Ok(c) => {
                calls.push(c);
            },
            Err(e) => {
                return (calls, Some(e));
            },
        }
        i = i + 1;
    }
    (calls, None)
}

// ---------------------------------------------------------------------------
// The exchange

pub const SEND_FAILED: &'static str = "Failed to send request to ShapesAI API: ";

pub const SECOND_SEND_FAILED: &'static str = "Failed to send second request to ShapesAI API: ";

pub const BAD_REPLY: &'static str = "Failed to parse API response: ";

pub const BAD_SECOND_REPLY: &'static str = "Failed to parse second API response: ";

pub const BAD_FUNCTION: &'static str = "Failed to parse function arguments: ";

pub open spec fn is_success(status: u16) -> bool {
    200 <= status <= 299
}

/// A reply's body, or a stand-in where it could not be read.
pub open spec fn body_or_default(body: Option<Seq<char>>) -> Seq<char> {
    match body {
        Some(b) => b,
        None => NO_BODY@,
    }
}

/// The message for a first reply that did not succeed: fixed ones for 429, 404 and
/// 403, the status and body for any other.
pub open spec fn status_message(status: u16, line: Seq<char>, body: Seq<char>) -> Seq<char> {
    if status == 429 {
        RATE_LIMITED@
    } else if status == 404 {
        NOT_FOUND@
    } else if status == 403 {
        FORBIDDEN@
    } else {
        "API request failed with status: "@ + line + ". Response: "@ + body
    }
}

/// The message for a second reply that did not succeed.
pub open spec fn second_status_message(line: Seq<char>, body: Seq<char>) -> Seq<char> {
    "Second API request failed with status: "@ + line + ". Response: "@ + body
}

/// The exchange ends with the `Api` error `m`.
pub open spec fn fails_with(step: Step, m: Seq<char>) -> bool {
    step matches Step::Done(Err(YuchiError::Api(x))) && x@ == m
}

/// The exchange ends with an `Api` error whose message begins with `p`.
pub open spec fn fails_prefixed(step: Step, p: Seq<char>) -> bool {
    step matches Step::Done(Err(YuchiError::Api(x))) && has_prefix(x@, p)
}

/// The exchange ends with the reply `a`.
pub open spec fn answers(step: Step, a: Seq<char>) -> bool {
    step matches Step::Done(Ok(x)) && x@ == a
}

/// The user message of a new exchange: the prompt, then the image where there is one.
pub open spec fn user_message_is(m: Message, text: Seq<char>, image_url: Option<Seq<char>>) -> bool {
    match image_url {
        None => m matches Message::User(Content::Text(t)) && t@ == text,
        Some(u) => m matches Message::User(Content::WithImage { text: t, image_url: x }) && t@ == text
            && x@ == u,
    }
}

impl Session {
    /// The tool calls that have run are a prefix of those planned.
    pub open spec fn wf(self) -> bool {
        &&& self.next <= self.calls@.len()
        &&& self.stage == Stage::RunningTools ==> self.next < self.calls@.len()
    }

    /// A session that has sent nothing yet and holds only the user message.
    pub open spec fn fresh(self, model: Seq<char>, text: Seq<char>, image_url: Option<Seq<char>>) -> bool {
        &&& self.model@ == model
        &&& self.stage == Stage::AwaitingReply
        &&& self.calls@.len() == 0
        &&& self.next == 0
        &&& self.fault is None
        &&& self.messages@.len() == 1
        &&& user_message_is(self.messages@[0], text, image_url)
    }

    /// What follows once the calls before `next` have run: the next call, or the
    /// error of the entry that could not be read, or the final request.
    pub open spec fn continues(self, step: Step) -> bool {
        if self.next < self.calls@.len() {
            &&& self.stage == Stage::RunningTools
            &&& (step matches Step::Run(c) && c@ == self.calls@[self.next as int].command@)
        } else {
            match self.fault {
                Some(e) => self.stage == Stage::Finished && step == Step::Done(Err(e)),
                None => self.stage == Stage::AwaitingFinalReply && step == Step::Send(
                    ToolChoice::Disabled,
                ),
            }
        }
    }

    /// The same exchange, with only the stage and the step taken moved on.
    pub open spec fn keeps(self, other: Session) -> bool {
        &&& other.model == self.model
        &&& other.auth == self.auth
        &&& other.messages@ == self.messages@
        &&& other.calls@ == self.calls@
        &&& other.next == self.next
    }

    /// Ends the exchange with `e`.
    fn finish(&mut self, e: YuchiError) -> (step: Step)
        ensures
            old(self).keeps(*final(self)),
            final(self).fault == old(self).fault,
            final(self).stage == Stage::Finished,
            step == Step::Done(Err(e)),
    {
        self.stage = Stage::Finished;
        Step::Done(Err(e))
    }

    /// Moves on after the calls before `next` have run.
    fn advance(&mut self) -> (step: Step)
        requires
            old(self).next <= old(self).calls@.len(),
        ensures
            old(self).keeps(*final(self)),
            final(self).fault == old(self).fault,
            final(self).wf(),
            final(self).continues(step),
    {
        if self.next < self.calls.len() {
            self.stage = Stage::RunningTools;
            Step::Run(self.calls[self.next].command.clone())
        } else {
            match &self.fault {
                Some(e) => {
                    let e = e.duplicate();
                    self.finish(e)
                },
                None => {
                    self.stage = Stage::AwaitingFinalReply;
                    Step::Send(ToolChoice::Disabled)
                },
            }
        }
    }

    /// The headers that authenticate the session's requests.
    pub fn headers(&self) -> (r: Vec<(String, String)>)
        ensures
            crate::auth::header_views(r@) == self.auth.spec_headers(),
    {
        self.auth.headers()
    }
}

/// The image argument, with its path as characters.
pub open spec fn image_view(image: Option<(&str, ImageSource)>) -> Option<(Seq<char>, ImageSource)> {
    match image {
        Some((p, s)) => Some((p@, s)),
        None => None,
    }
}

/// The scheme of a started session, or why it did not start.
pub open spec fn session_auth(r: Result<Session, YuchiError>) -> Result<Auth, YuchiError> {
    match r {
        Ok(s) => Ok(s.auth),
        Err(e) => Err(e),
    }
}

/// Whether `r` is how an exchange starts: an `Image` error where the image cannot be
/// attached; else the scheme chosen from the credentials, or why none can be; and a
/// fresh session holding the user message.
pub open spec fn started(
    r: Result<Session, YuchiError>,
    prompt: Seq<char>,
    api_key: Option<Seq<char>>,
    token: Option<Seq<char>>,
    app_id: Option<Seq<char>>,
    model: Seq<char>,
    user_id: Seq<char>,
    channel_id: Seq<char>,
    image: Option<(Seq<char>, ImageSource)>,
) -> bool {
    let text = effective_prompt(prompt, image is Some);
    match image {
        Some((path, source)) => match image_outcome(path, source) {
            Err(m) => r matches Err(YuchiError::Image(e)) && e@ == m,
            Ok(url) => {
                &&& auth_chosen(session_auth(r), api_key, token, app_id, user_id, channel_id)
                &&& (r matches Ok(s) ==> s.fresh(model, text, Some(url)))
            },
        },
        None => {
            &&& auth_chosen(session_auth(r), api_key, token, app_id, user_id, channel_id)
            &&& (r matches Ok(s) ==> s.fresh(model, text, None))
        },
    }
}

/// Starts an exchange: builds the user message (with the image's data URL where one
/// is attached) and chooses the authentication scheme. Nothing is sent until the
/// session's first step.
pub fn start(
    prompt: &str,
    api_key: Option<&str>,
    user_auth_token: Option<&str>,
    app_id: Option<&str>,
    model: &str,
    user_id: &str,
    channel_id: &str,
    image: Option<(&str, ImageSource)>,
) -> (r: Result<Session, YuchiError>)
    requires
        image matches Some((_, source)) ==> encodable(&source),
    ensures
        started(
            r,
            prompt@,
            opt_view(api_key),
            opt_view(user_auth_token),
            opt_view(app_id),
            model@,
            user_id@,
            channel_id@,
            image_view(image),
        ),
        image is None ==> (r matches Ok(s) ==> (s.messages@[0] matches Message::User(
            Content::Text(t),
        ) && t@ == prompt@)),
        image is Some && has_infix(lower_of(prompt@), "text"@) ==> (r matches Ok(s) ==> (
        s.messages@[0] matches Message::User(Content::WithImage { text: t, .. }) && t@
            == TEXT_REQUEST@ + prompt@)),
        image matches Some((p, source)) && (source is Missing || (source is Loaded && crate::image::mime_of(p@) is None))
            ==> r matches Err(YuchiError::Image(_)),
        api_key is None && user_auth_token is None ==> r is Err,
        r matches Ok(s) ==> s.wf(),
        image is None && api_key is None && user_auth_token is None ==> (r matches Err(
            YuchiError::Api(m),
        ) && m@ == crate::auth::NO_CREDENTIAL@),
{
    let has_image = image.is_some();
    let text = adjust_prompt(prompt, has_image);
    let content = match image {
        Some((path, source)) => match image_data_url(path, source) {
            Ok(url) => Content::WithImage { text, image_url: url },
            Err(e) => return Err(e),
        },
        None => Content::Text(text),
    };
    let auth = match select_auth(api_key, user_auth_token, app_id, user_id, channel_id) {
        Ok(a) => a,
        Err(e) => return Err(e),
    };
    let mut messages: Vec<Message> = Vec::new();
    messages.push(Message::User(content));
    Ok(
        Session {
            model: model.to_owned(),
            auth,
            messages,
            calls: Vec::new(),
            next: 0,
            fault: None,
            stage: Stage::AwaitingReply,
        },
    )
}

/// The JSON value of a reply's body, where it was read and is JSON.
pub open spec fn parsed(body: Option<Seq<char>>) -> Option<Json> {
    match body {
        Some(b) => json_parse(b),
        None => None,
    }
}

/// The session ends with `step`, having changed nothing else.
pub open spec fn ends(old: Session, new: Session) -> bool {
    old.keeps(new) && new.stage == Stage::Finished
}

/// The first reply asked for the calls of `entries`: the array is kept as an
/// assistant message, its entries are read, and the first call runs.
pub open spec fn structured(old: Session, new: Session, step: Step, entries: Seq<Json>) -> bool {
    &&& new.model == old.model
    &&& new.auth == old.auth
    &&& new.messages@.len() == old.messages@.len() + 1
    &&& new.messages@.drop_last() == old.messages@
    &&& (new.messages@.last() matches Message::Assistant(v) && v@ == entries)
    &&& planned(new.calls@, new.fault, entries)
    &&& new.next == 0
    &&& new.continues(step)
}

/// The first reply's content was a `<function>` envelope around `inner`: the command
/// that its JSON names runs under the placeholder id.
pub open spec fn enveloped(old: Session, new: Session, step: Step, inner: Seq<char>) -> bool {
    match json_parse(inner) {
        None => ends(old, new) && fails_prefixed(step, BAD_FUNCTION@),
        Some(a) => match command_of(a) {
            None => ends(old, new) && fails_with(step, MISSING_COMMAND@),
            Some(c) => {
                &&& new.model == old.model
                &&& new.auth == old.auth
                &&& new.messages@ == old.messages@
                &&& new.calls@.len() == 1
                &&& new.calls@[0].id@ == FALLBACK_ID@
                &&& new.calls@[0].command@ == c
                &&& new.fault is None
                &&& new.next == 0
                &&& new.continues(step)
            },
        },
    }
}

/// What the first reply leads to: an error for a failed status or a body that is
/// not JSON; the structured tool calls where the reply has them; else the call in a
/// `<function>` envelope; else the reply's content as the answer.
pub open spec fn first_reply(
    old: Session,
    new: Session,
    step: Step,
    status: u16,
    line: Seq<char>,
    body: Option<Seq<char>>,
) -> bool {
    if !is_success(status) {
        ends(old, new) && fails_with(step, status_message(status, line, body_or_default(body)))
    } else {
        match parsed(body) {
            None => ends(old, new) && fails_prefixed(step, BAD_REPLY@),
            Some(j) => match reply_tool_calls(j) {
                Some(entries) => structured(old, new, step, entries),
                None => {
                    let content = match reply_content(j) {
                        Some(c) => c,
                        None => Seq::empty(),
                    };
                    match envelope(content) {
                        Some(inner) => enveloped(old, new, step, inner),
                        None => ends(old, new) && answers(step, content),
                    }
                },
            },
        }
    }
}

/// What the final reply leads to: its content as the answer, or a stand-in where it
/// has none; an error for a failed status or a body that is not JSON.
pub open spec fn final_reply(
    old: Session,
    new: Session,
    step: Step,
    status: u16,
    line: Seq<char>,
    body: Option<Seq<char>>,
) -> bool {
    &&& ends(old, new)
    &&& if !is_success(status) {
        fails_with(step, second_status_message(line, body_or_default(body)))
    } else {
        match parsed(body) {
            None => fails_prefixed(step, BAD_SECOND_REPLY@),
            Some(j) => answers(
                step,
                match reply_content(j) {
                    Some(c) => c,
                    None => NO_TOOL_REPLY@,
                },
            ),
        }
    }
}

/// What the outcome of the running call leads to: its text joins the messages under
/// the call's id and the exchange moves on; an error ends it.
pub open spec fn tool_result(
    old: Session,
    new: Session,
    outcome: Result<String, YuchiError>,
    step: Step,
) -> bool {
    match outcome {
        Err(e) => ends(old, new) && step == Step::Done(Err(e)),
        Ok(t) => {
            &&& new.model == old.model
            &&& new.auth == old.auth
            &&& new.calls@ == old.calls@
            &&& new.fault == old.fault
            &&& new.next == old.next + 1
            &&& new.messages@ == old.messages@.push(
                Message::Tool { call_id: old.calls@[old.next as int].id, content: t },
            )
            &&& new.continues(step)
        },
    }
}

/// A structured exchange with one tool call: where the first reply's tool-calls
/// array holds a single entry naming call `id` and command `command`, the session
/// runs that command; once its outcome `t` comes back, the messages of the final
/// request are, in order, the user message, the assistant message holding the
/// array as received, and the tool message for `id` carrying `t`.
pub proof fn lemma_single_tool_call(
    s0: Session,
    s1: Session,
    s2: Session,
    step1: Step,
    step2: Step,
    status: u16,
    line: Seq<char>,
    body: Seq<char>,
    reply: Json,
    entries: Seq<Json>,
    id: Seq<char>,
    command: Seq<char>,
    t: String,
)
    requires
        s0.messages@.len() == 1,
        is_success(status),
        first_reply(s0, s1, step1, status, line, Some(body)),
        json_parse(body) == Some(reply),
        reply_tool_calls(reply) == Some(entries),
        entries.len() == 1,
        entry_call(entries[0]) == Ok::<(Seq<char>, Seq<char>), EntryFault>((id, command)),
        tool_result(s1, s2, Ok::<String, YuchiError>(t), step2),
    ensures
        step1 matches Step::Run(c) && c@ == command,
        s2.messages@.len() == 3,
        s2.messages@[0] == s0.messages@[0],
        s2.messages@[1] matches Message::Assistant(v) && v@ == entries,
        s2.messages@[2] matches Message::Tool { call_id, content } && call_id@ == id && content
            == t,
        step2 == Step::Send(ToolChoice::Disabled),
{
    assert(call_is(s1.calls@[0], entry_call(entries[0])));
    assert(s1.messages@.drop_last() == s0.messages@);
    assert(s1.messages@[0] == s1.messages@.drop_last()[0]);
    assert(s2.messages@[0] == s1.messages@[0]);
    assert(s2.messages@[1] == s1.messages@[1]);
}

/// A fallback exchange: where the first reply has no tool-calls array and its
/// content is a `<function>` envelope around JSON naming `command`, the session runs
/// that command; once its outcome `t` comes back, the final request carries the
/// earlier messages followed by one tool message with the placeholder id and `t`.
pub proof fn lemma_fallback_call(
    s0: Session,
    s1: Session,
    s2: Session,
    step1: Step,
    step2: Step,
    status: u16,
    line: Seq<char>,
    body: Seq<char>,
    reply: Json,
    content: Seq<char>,
    inner: Seq<char>,
    args: Json,
    command: Seq<char>,
    t: String,
)
    requires
        is_success(status),
        first_reply(s0, s1, step1, status, line, Some(body)),
        json_parse(body) == Some(reply),
        reply_tool_calls(reply) is None,
        reply_content(reply) == Some(content),
        envelope(content) == Some(inner),
        json_parse(inner) == Some(args),
        command_of(args) == Some(command),
        tool_result(s1, s2, Ok::<String, YuchiError>(t), step2),
    ensures
        step1 matches Step::Run(c) && c@ == command,
        s2.messages@.len() == s0.messages@.len() + 1,
        s2.messages@.drop_last() == s0.messages@,
        s2.messages@.last() matches Message::Tool { call_id, content } && call_id@ == FALLBACK_ID@
            && content == t,
        step2 == Step::Send(ToolChoice::Disabled),
{
    assert(s2.messages@.drop_last() =~= s0.messages@);
}

/// An `Api` error whose message is `prefix` followed by `why`.
fn prefixed_error(prefix: &str, why: &str) -> (r: YuchiError)
    ensures
        r matches YuchiError::Api(m) && m@ == prefix@ + why@,
        r matches YuchiError::Api(m) && has_prefix(m@, prefix@),
{
    proof {
        lemma_prefix_concat(prefix@, why@);
    }
    YuchiError::Api(String::from_str(prefix).concat(why))
}

impl Session {
    /// The reply's body parsed as JSON, or the error that ends the exchange.
    fn parse_body(&mut self, body: Option<&str>, prefix: &str) -> (r: Result<Json, Step>)
        ensures
            match r {
                Ok(j) => *final(self) == *old(self) && parsed(opt_view(body)) == Some(j),
                Err(step) => parsed(opt_view(body)) is None && ends(*old(self), *final(self))
                    && fails_prefixed(step, prefix@),
            },
    {
        match body {
            Some(b) => match parse_json(b) {
                Ok(j) => Ok(j),
                Err(e) => {
                    let why = error_text(&e);
                    Err(self.finish(prefixed_error(prefix, why.as_str())))
                },
            },
            None => Err(self.finish(prefixed_error(prefix, NO_BODY))),
        }
    }

    fn on_first_reply(&mut self, status: u16, status_line: &str, body: Option<&str>) -> (step: Step)
        requires
            old(self).wf(),
            old(self).stage == Stage::AwaitingReply,
        ensures
            final(self).wf(),
            first_reply(*old(self), *final(self), step, status, status_line@, opt_view(body)),
    {
        if !(200 <= status && status <= 299) {
            let text = match body {
                Some(b) => b,
                None => NO_BODY,
            };
            let m = if status == 429 {
                RATE_LIMITED.to_owned()
            } else if status == 404 {
                NOT_FOUND.to_owned()
            } else if status == 403 {
                FORBIDDEN.to_owned()
            } else {
                String::from_str("API request failed with status: ").concat(status_line).concat(
                    ". Response: ",
                ).concat(text)
            };
            return self.finish(YuchiError::Api(m));
        }
        let j = match self.parse_body(body, BAD_REPLY) {
            Ok(j) => j,
            Err(step) => return step,
        };
        let content = content_text(&j);
        match take_tool_calls(j) {
            Some(entries) => {
                let (calls, fault) = plan_calls(&entries);
                let ghost before = self.messages@;
                self.messages.push(Message::Assistant(entries));
                assert(self.messages@.drop_last() =~= before);
                self.calls = calls;
                self.fault = fault;
                self.next = 0;
                self.advance()
            },
            None => {
                let c = match content {
                    Some(c) => c,
                    None => String::new(),
                };
                match envelope_inner(c.as_str()) {
                    Some(inner) => match parse_json(inner) {
                        Err(e) => {
                            let why = error_text(&e);
                            self.finish(prefixed_error(BAD_FUNCTION, why.as_str()))
                        },
                        Ok(a) => match command_text(&a) {
                            None => self.finish(api_error(MISSING_COMMAND)),
                            Some(command) => {
                                let mut calls: Vec<ToolCall> = Vec::new();
                                calls.push(ToolCall { id: FALLBACK_ID.to_owned(), command });
                                self.calls = calls;
                                self.fault = None;
                                self.next = 0;
                                self.advance()
                            },
                        },
                    },
                    None => {
                        self.stage = Stage::Finished;
                        Step::Done(Ok(c))
                    },
                }
            },
        }
    }

    fn on_final_reply(&mut self, status: u16, status_line: &str, body: Option<&str>) -> (step: Step)
        requires
            old(self).wf(),
            old(self).stage == Stage::AwaitingFinalReply,
        ensures
            final(self).wf(),
            final_reply(*old(self), *final(self), step, status, status_line@, opt_view(body)),
    {
        if !(200 <= status && status <= 299) {
            let text = match body {
                Some(b) => b,
                None => NO_BODY,
            };
            let m = String::from_str("Second API request failed with status: ").concat(
                status_line,
            ).concat(". Response: ").concat(text);
            return self.finish(YuchiError::Api(m));
        }
        let j = match self.parse_body(body, BAD_SECOND_REPLY) {
            Ok(j) => j,
            Err(step) => return step,
        };
        self.stage = Stage::Finished;
        match content_text(&j) {
            Some(c) => Step::Done(Ok(c)),
            None => Step::Done(Ok(NO_TOOL_REPLY.to_owned())),
        }
    }

    /// Takes the reply to the request last sent: its HTTP status, the status as text
    /// (code and reason), and its body where it could be read.
    pub fn on_reply(&mut self, status: u16, status_line: &str, body: Option<&str>) -> (step: Step)
        requires
            old(self).wf(),
            old(self).stage == Stage::AwaitingReply || old(self).stage == Stage::AwaitingFinalReply,
        ensures
            final(self).wf(),
            old(self).stage == Stage::AwaitingReply ==> first_reply(
                *old(self),
                *final(self),
                step,
                status,
                status_line@,
                opt_view(body),
            ),
            old(self).stage == Stage::AwaitingFinalReply ==> final_reply(
                *old(self),
                *final(self),
                step,
                status,
                status_line@,
                opt_view(body),
            ),
            old(self).stage == Stage::AwaitingReply && status == 429 ==> fails_with(step, RATE_LIMITED@),
    {
        match self.stage {
            Stage::AwaitingReply => self.on_first_reply(status, status_line, body),
            _ => self.on_final_reply(status, status_line, body),
        }
    }

    /// Takes the outcome of the call that ran: its text joins the messages under the
    /// call's id and the exchange moves on; an error ends it.
    pub fn on_tool_result(&mut self, outcome: Result<String, YuchiError>) -> (step: Step)
        requires
            old(self).wf(),
            old(self).stage == Stage::RunningTools,
        ensures
            final(self).wf(),
            tool_result(*old(self), *final(self), outcome, step),
    {
        match outcome {
            Err(e) => self.finish(e),
            Ok(t) => {
                let count = self.calls.len();
                assert(self.next < count);
                let id = self.calls[self.next].id.clone();
                self.messages.push(Message::Tool { call_id: id, content: t });
                self.next = self.next + 1;
                self.advance()
            },
        }
    }

    /// The request last sent could not be sent: the exchange ends with an `Api` error.
    pub fn on_send_failed(&mut self, reason: &str) -> (step: Step)
        requires
            old(self).wf(),
            old(self).stage == Stage::AwaitingReply || old(self).stage == Stage::AwaitingFinalReply,
        ensures
            final(self).wf(),
            ends(*old(self), *final(self)),
            old(self).stage == Stage::AwaitingReply ==> fails_with(step, SEND_FAILED@ + reason@),
            old(self).stage == Stage::AwaitingFinalReply ==> fails_with(
                step,
                SECOND_SEND_FAILED@ + reason@,
            ),
    {
        let prefix = match self.stage {
            Stage::AwaitingReply => SEND_FAILED,
            _ => SECOND_SEND_FAILED,
        };
        self.finish(prefixed_error(prefix, reason))
    }
}

} // verus!
