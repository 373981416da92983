//! Slack slash commands: which command was sent, and the replies.
use vstd::prelude::*;
use crate::ids::{parse_uuid, uuid_parse, uuid_text, uuid_to_string};

verus! {

/// The form Slack posts for a slash command.
#[derive(Debug, Clone)]
pub struct SlackCommandRequest {
    pub api_app_id: String,
    pub channel_id: String,
    pub channel_name: String,
    pub command: String,
    pub response_url: String,
    pub text: String,
    pub token: String,
    pub trigger_id: String,
    pub user_id: String,
    pub user_name: String,
}

/// The query of the link a Slack user follows to log in.
#[derive(Debug, Clone)]
pub struct SlackLoginQuery {
    pub slack_user_link: String,
}

/// The slash commands the service knows.
#[derive(Debug, Clone, Copy, PartialEq, Eq, Structural)]
pub enum SlackCommand {
    Login,
    Article,
    Unknown,
}

/// A message posted back to Slack.
#[derive(Debug, Clone)]
pub struct SlackReply {
    pub response_type: String,
    pub text: String,
}

/// Base URL of the service as Slack users reach it.
pub open spec fn slack_base_url() -> Seq<char> {
    "https://guiding-raptor-infinitely.ngrok-free.app"@
}

/// The link a Slack user follows to tie their Slack account to a login.
pub open spec fn slack_login_url(link_id: u128) -> Seq<char> {
    slack_base_url() + "/slack/login?slack_user_link="@ + uuid_text(link_id)
}

/// Which command a request sends.
pub fn classify_command(command: &str) -> (r: SlackCommand)
    ensures
        command@ == "/login"@ ==> r == SlackCommand::Login,
        command@ == "/article"@ ==> r == SlackCommand::Article,
        command@ != "/login"@ && command@ != "/article"@ ==> r == SlackCommand::Unknown,
{
    proof {
        reveal_strlit("/login");
        reveal_strlit("/article");
        assert("/login"@.len() == 6);
        assert("/article"@.len() == 8);
    }
    if crate::text::same_text(command, "/login") {
        SlackCommand::Login
    } else if crate::text::same_text(command, "/article") {
        SlackCommand::Article
    } else {
        SlackCommand::Unknown
    }
}

/// A reply posted in the channel.
fn in_channel(text: String) -> (r: SlackReply)
    ensures
        r.response_type@ == "in_channel"@,
        r.text == text,
{
    SlackReply { response_type: String::from_str("in_channel"), text }
}

/// The reply to a command the service does not know.
pub fn unknown_command_reply() -> (r: SlackReply)
    ensures
        r.response_type@ == "in_channel"@,
        r.text@ == "Unknown command"@,
{
    in_channel(String::from_str("Unknown command"))
}

/// The reply to `/article`.
pub fn article_command_reply() -> (r: SlackReply)
    ensures
        r.response_type@ == "in_channel"@,
        r.text@ == "Article command"@,
{
    in_channel(String::from_str("Article command"))
}

/// The reply to `/login` once the Slack user's link was stored: the link
/// to follow.
pub fn login_command_reply(link_id: u128) -> (r: SlackReply)
    ensures
        r.response_type@ == "in_channel"@,
        r.text@ == "To Login please visit: "@ + slack_login_url(link_id),
{
    let mut text = String::from_str("To Login please visit: ");
    text.append("https://guiding-raptor-infinitely.ngrok-free.app");
    text.append("/slack/login?slack_user_link=");
    let id = uuid_to_string(link_id);
    text.append(id.as_str());
    in_channel(text)
}

/// The link id a login link carries, if it is a UUID.
pub fn slack_login_link(query: &SlackLoginQuery) -> (r: Option<u128>)
    ensures
        r == uuid_parse(query.slack_user_link@),
{
    match parse_uuid(query.slack_user_link.as_str()) {
        Ok(id) => Some(id),
        Err(_) => None,
    }
}

/// The answer once a Slack user was tied to the logged-in user.
pub fn slack_login_done() -> (r: String)
    ensures
        r@ == "Login Worked"@,
{
    String::from_str("Login Worked")
}

} // verus!
