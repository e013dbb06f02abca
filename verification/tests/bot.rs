use quote_bot::commands::BotCommand;
use quote_bot::commands::command_endpoint;
use quote_bot::commands::parse_command;
use quote_bot::handler::FetchError;
use quote_bot::handler::Reply;
use quote_bot::handler::StartupError;
use quote_bot::handler::image_reply;
use quote_bot::handler::quote_reply;
use quote_bot::handler::ready_message;
use quote_bot::handler::require_token;
use quote_bot::handler::startup_error_message;
use quote_bot::quote::QuoteFields;
use quote_bot::quote::extract_quote;
use quote_bot::quote::render_quote_line;

fn failed_fetch() -> FetchError {
    FetchError {
        detail: "connection error".to_string(),
    }
}

#[test]
fn quote_token_selects_quote_command() {
    assert_eq!(parse_command("!quote"), Some(BotCommand::Quote));
}

#[test]
fn image_token_selects_image_command() {
    assert_eq!(parse_command("!image"), Some(BotCommand::Image));
}

#[test]
fn other_content_selects_no_command() {
    assert_eq!(parse_command(""), None);
    assert_eq!(parse_command("hello"), None);
    assert_eq!(parse_command("!quotes"), None);
    assert_eq!(parse_command("!Quote"), None);
    assert_eq!(parse_command(" !image"), None);
    assert_eq!(parse_command("!image "), None);
}

#[test]
fn commands_query_their_endpoints() {
    assert_eq!(
        command_endpoint(BotCommand::Quote),
        "https://zenquotes.io/api/random"
    );
    assert_eq!(
        command_endpoint(BotCommand::Image),
        "https://zenquotes.io/api/image"
    );
}

#[test]
fn quote_extraction_formats_first_element() {
    let body = "[{\"q\":\"Hello\",\"a\":\"World\"}]";
    assert_eq!(extract_quote(body), Some("\"Hello\" - World".to_string()));
}

#[test]
fn quote_extraction_missing_fields_fall_back_to_placeholders() {
    let body = "[{}]";
    assert_eq!(
        extract_quote(body),
        Some("\"No quote available\" - Unknown".to_string())
    );
}

#[test]
fn quote_extraction_non_string_fields_fall_back_to_placeholders() {
    let body = "[{\"q\":5,\"a\":true}]";
    assert_eq!(
        extract_quote(body),
        Some("\"No quote available\" - Unknown".to_string())
    );
}

#[test]
fn quote_extraction_empty_array_falls_back_to_placeholders() {
    assert_eq!(
        extract_quote("[]"),
        Some("\"No quote available\" - Unknown".to_string())
    );
}

#[test]
fn quote_extraction_missing_author_only() {
    let body = "[{\"q\":\"Carpe diem\"}]";
    assert_eq!(
        extract_quote(body),
        Some("\"Carpe diem\" - Unknown".to_string())
    );
}

#[test]
fn quote_extraction_rejects_a_body_that_is_not_json() {
    assert_eq!(extract_quote(""), None);
    assert_eq!(extract_quote("not json"), None);
    assert_eq!(extract_quote("[{\"q\":"), None);
}

#[test]
fn render_line_quotes_text_and_appends_author() {
    let fields = QuoteFields {
        text: Some("Hello".to_string()),
        author: Some("World".to_string()),
    };
    assert_eq!(render_quote_line(fields), "\"Hello\" - World");
}

#[test]
fn quote_reply_formats_a_fetched_body() {
    let body = "[{\"q\":\"Hello\",\"a\":\"World\"}]".to_string();
    assert_eq!(quote_reply(Ok(body)), "\"Hello\" - World");
}

#[test]
fn quote_fetch_failure_sends_the_fixed_fallback() {
    assert_eq!(quote_reply(Err(failed_fetch())), "Sorry couldn't fetch a quote");
}

#[test]
fn quote_reply_treats_a_non_json_body_as_a_failed_fetch() {
    assert_eq!(
        quote_reply(Ok("<html></html>".to_string())),
        "Sorry couldn't fetch a quote"
    );
}

#[test]
fn image_reply_embeds_the_resolved_url() {
    let url = "https://zenquotes.io/img/some-image.jpg".to_string();
    match image_reply(Ok(url.clone())) {
        Reply::ImageEmbed(embedded) => assert_eq!(embedded, url),
        Reply::Text(_) => panic!("a fetched image must be embedded, not sent as text"),
    }
}

#[test]
fn image_fetch_failure_sends_the_fixed_fallback() {
    match image_reply(Err(failed_fetch())) {
        Reply::Text(text) => assert_eq!(text, "Sorry, couldn't fetch an image."),
        Reply::ImageEmbed(_) => panic!("a failed image fetch must fall back to text"),
    }
}

#[test]
fn ready_message_names_the_connected_user() {
    assert_eq!(ready_message("quotebot"), "quotebot is connected!");
}

#[test]
fn startup_without_a_token_is_refused() {
    match require_token(None) {
        Err(StartupError::MissingToken) => {}
        Ok(_) => panic!("an unset token must be a fatal startup error"),
    }
}

#[test]
fn startup_with_a_token_hands_it_back() {
    assert_eq!(require_token(Some("abc123".to_string())), Ok("abc123".to_string()));
}

#[test]
fn missing_token_diagnostic() {
    assert_eq!(
        startup_error_message(&StartupError::MissingToken),
        "Expected a token in the environment"
    );
}
