//! The event handler's decisions: the reply chosen for each fetch
//! outcome, the ready-event log line, the startup token check, and the
//! laws that tie one whole command interaction together.

use vstd::prelude::*;
use vstd::string::StringExecFns;

use crate::commands::BotCommand;
use crate::commands::image_command;
use crate::commands::image_endpoint;
use crate::commands::quote_command;
use crate::commands::quote_endpoint;
use crate::commands::spec_command_endpoint;
use crate::commands::spec_command_of;
use crate::quote::extract_quote;
use crate::quote::field_or;
use crate::quote::no_quote_placeholder;
use crate::quote::quote_fields_of;
use crate::quote::quote_line_shape;
use crate::quote::spec_quote_line;
use crate::quote::unknown_author_placeholder;

verus! {

/// A failed fetch: the transport failed or the body was unusable. The
/// detail is kept only for a log line; no decision depends on it.
pub struct FetchError {
    pub detail: String,
}

/// A reply the handler sends back: plain text, or a message whose single
/// embed shows the image behind the given URL.
pub enum Reply {
    Text(String),
    ImageEmbed(String),
}

/// The mathematical model of [`Reply`].
pub enum ReplyModel {
    Text(Seq<char>),
    ImageEmbed(Seq<char>),
}

impl View for Reply {
    type V = ReplyModel;

    open spec fn view(&self) -> ReplyModel {
        match self {
            Reply::Text(t) => ReplyModel::Text(t@),
            Reply::ImageEmbed(u) => ReplyModel::ImageEmbed(u@),
        }
    }
}

/// What a fetch came to: the payload string where it succeeded, nothing
/// where it failed.
pub open spec fn fetch_view(fetch: Result<String, FetchError>) -> Option<Seq<char>> {
    match fetch {
        Ok(payload) => Some(payload@),
        Err(_) => None,
    }
}

/// The fallback text sent when fetching a quote fails.
pub open spec fn quote_fallback() -> Seq<char> {
    "Sorry couldn't fetch a quote"@
}

/// The fallback text sent when fetching an image fails.
pub open spec fn image_fallback() -> Seq<char> {
    "Sorry, couldn't fetch an image."@
}

/// The text replied to the quote command, given what the fetch of the
/// quote endpoint came to: the formatted first quote of a JSON body, and
/// the fixed fallback for a failed fetch or a body that is not JSON.
pub open spec fn spec_quote_reply(fetch: Option<Seq<char>>) -> Seq<char> {
    match fetch {
        Some(body) => match quote_fields_of(body) {
            Some(f) => spec_quote_line(f),
            None => quote_fallback(),
        },
        None => quote_fallback(),
    }
}

/// The reply to the image command, given what the fetch of the image
/// endpoint came to: an embed of the resolved URL, and the fixed fallback
/// text for a failed fetch.
pub open spec fn spec_image_reply(fetch: Option<Seq<char>>) -> ReplyModel {
    match fetch {
        Some(url) => ReplyModel::ImageEmbed(url),
        None => ReplyModel::Text(image_fallback()),
    }
}

/// Choose the text replied to the quote command. The body of a successful
/// fetch is parsed and its first quote formatted; a failed fetch, and a
/// body that is not JSON, both degrade to the fixed fallback text. This
/// never fails: the quote command is always answered with exactly one
/// text reply.
pub fn quote_reply(fetch: Result<String, FetchError>) -> (r: String)
    ensures
        r@ == spec_quote_reply(fetch_view(fetch)),
{
    match fetch {
        Ok(body) => match extract_quote(body.as_str()) {
            Some(line) => line,
            None => "Sorry couldn't fetch a quote".to_owned(),
        },
        Err(_) => "Sorry couldn't fetch a quote".to_owned(),
    }
}

/// Choose the reply to the image command. A successful fetch is answered
/// with an embed of exactly the resolved URL; a failed one with the fixed
/// fallback text. This never fails: the image command is always answered
/// with exactly one reply.
pub fn image_reply(fetch: Result<String, FetchError>) -> (r: Reply)
    ensures
        r@ == spec_image_reply(fetch_view(fetch)),
{
    match fetch {
        Ok(url) => Reply::ImageEmbed(url),
        Err(_) => Reply::Text("Sorry, couldn't fetch an image.".to_owned()),
    }
}

/// The suffix of the line logged when the session is ready.
pub open spec fn connected_suffix() -> Seq<char> {
    " is connected!"@
}

/// The line logged on the ready event: the connected user's name and a
/// fixed suffix.
pub fn ready_message(username: &str) -> (r: String)
    ensures
        r@ == username@ + connected_suffix(),
{
    username.to_owned().concat(" is connected!")
}

/// Startup fails before any connection is attempted when the
/// authentication token is not set.
#[derive(Clone, Copy, PartialEq, Eq, Structural, Debug)]
pub enum StartupError {
    MissingToken,
}

/// The diagnostic printed when startup fails for want of a token.
pub fn startup_error_message(e: &StartupError) -> (r: String)
    ensures
        r@ == "Expected a token in the environment"@,
{
    match e {
        StartupError::MissingToken => "Expected a token in the environment".to_owned(),
    }
}

/// Admit the authentication token read from the environment, exactly when
/// it is set: an unset token is a fatal startup error, and no gateway
/// connection may be attempted.
pub fn require_token(token: Option<String>) -> (r: Result<String, StartupError>)
    ensures
        token matches Some(t) ==> r == Ok::<String, StartupError>(t),
        token is None ==> r == Err::<String, StartupError>(StartupError::MissingToken),
{
    match token {
        Some(t) => Ok(t),
        None => Err(StartupError::MissingToken),
    }
}

/// The quote interaction, whole: a message that reads exactly the quote
/// command selects the quote command, whose one request goes to the quote
/// endpoint; and whatever the fetch of that endpoint comes to, the one
/// reply is either a line of the fixed quote shape or the fixed fallback.
pub proof fn lemma_quote_interaction(content: Seq<char>, fetch: Option<Seq<char>>)
    requires
        content == quote_command(),
    ensures
        spec_command_of(content) == Some(BotCommand::Quote),
        spec_command_endpoint(BotCommand::Quote) == quote_endpoint(),
        spec_quote_reply(fetch) == quote_fallback() || (exists|q: Seq<char>, a: Seq<char>|
            spec_quote_reply(fetch) == quote_line_shape(q, a)),
{
    match fetch {
        Some(body) => {
            match quote_fields_of(body) {
                Some(f) => {
                    assert(spec_quote_reply(fetch) == quote_line_shape(
                        field_or(f.text, no_quote_placeholder()),
                        field_or(f.author, unknown_author_placeholder()),
                    ));
                },
                None => {},
            }
        },
        None => {},
    }
}

/// The image interaction, whole: a message that reads exactly the image
/// command selects the image command, whose one request goes to the image
/// endpoint; and the one reply embeds exactly the URL the fetch resolved
/// to, or is the fixed fallback text where the fetch failed.
pub proof fn lemma_image_interaction(content: Seq<char>, fetch: Option<Seq<char>>)
    requires
        content == image_command(),
    ensures
        spec_command_of(content) == Some(BotCommand::Image),
        spec_command_endpoint(BotCommand::Image) == image_endpoint(),
        fetch matches Some(url) ==> spec_image_reply(fetch) == ReplyModel::ImageEmbed(url),
        fetch is None ==> spec_image_reply(fetch) == ReplyModel::Text(image_fallback()),
{
    reveal_strlit("!quote");
    reveal_strlit("!image");
    assert(quote_command()[1] != image_command()[1]);
}

/// A message that equals neither command token selects no command: the
/// handler issues no request for it and sends no reply to it, since every
/// request and every reply arises from a selected command.
pub proof fn lemma_other_content_ignored(content: Seq<char>)
    requires
        content != quote_command(),
        content != image_command(),
    ensures
        spec_command_of(content) is None,
{
}

} // verus!
