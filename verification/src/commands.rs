//! Command recognition: which of the two literal command tokens a
//! message's text equals, and which endpoint each command queries.

use vstd::prelude::*;

verus! {

/// The two commands the bot answers to.
#[derive(Clone, Copy, PartialEq, Eq, Structural, Debug)]
pub enum BotCommand {
    Quote,
    Image,
}

/// The literal text a message must equal to trigger the quote command.
pub open spec fn quote_command() -> Seq<char> {
    "!quote"@
}

/// The literal text a message must equal to trigger the image command.
pub open spec fn image_command() -> Seq<char> {
    "!image"@
}

/// The endpoint the quote command queries.
pub open spec fn quote_endpoint() -> Seq<char> {
    "https://zenquotes.io/api/random"@
}

/// The endpoint the image command queries.
pub open spec fn image_endpoint() -> Seq<char> {
    "https://zenquotes.io/api/image"@
}

/// Which command, if any, a message's text selects: an exact match on one
/// of the two command tokens; everything else selects nothing.
pub open spec fn spec_command_of(content: Seq<char>) -> Option<BotCommand> {
    if content == quote_command() {
        Some(BotCommand::Quote)
    } else if content == image_command() {
        Some(BotCommand::Image)
    } else {
        None
    }
}

/// The endpoint a command's single outbound request goes to.
pub open spec fn spec_command_endpoint(cmd: BotCommand) -> Seq<char> {
    match cmd {
        BotCommand::Quote => quote_endpoint(),
        BotCommand::Image => image_endpoint(),
    }
}

/// Recognise a command by exact string equality with one of the two
/// command tokens. Any other content selects no command at all.
pub fn parse_command(content: &str) -> (r: Option<BotCommand>)
    ensures
        r == spec_command_of(content@),
{
    let c = content.to_owned();
    if c == "!quote".to_owned() {
        Some(BotCommand::Quote)
    } else if c == "!image".to_owned() {
        Some(BotCommand::Image)
    } else {
        None
    }
}

/// The URL to issue a command's single GET request against.
pub fn command_endpoint(cmd: BotCommand) -> (r: String)
    ensures
        r@ == spec_command_endpoint(cmd),
{
    match cmd {
        BotCommand::Quote => "https://zenquotes.io/api/random".to_owned(),
        BotCommand::Image => "https://zenquotes.io/api/image".to_owned(),
    }
}

} // verus!
