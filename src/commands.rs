use vstd::prelude::*;
use crate::constants::{
    ADD_ADMINS_CMD, ANY_GAMERS_CMD, GAME_NOTIFICATION_OFF_CMD, GAME_NOTIFICATION_ON_CMD, HELP_CMD,
    REGISTER_CMD,
};

verus! {

/// A command the bot acts on.
#[derive(Clone, Copy, Debug, PartialEq, Eq, Structural)]
pub enum Command {
    Help,
    Register,
    GameNotificationOn,
    GameNotificationOff,
    AnyGamers,
    AddAdmins,
}

/// What `str::trim` returns for a string with characters `s`.
pub uninterp spec fn trimmed(s: Seq<char>) -> Seq<char>;

/// The command token and the trailing text that the pattern `^(!\S*)(.*)`
/// captures in `s`, if it matches.
pub uninterp spec fn command_split(s: Seq<char>) -> Option<(Seq<char>, Seq<char>)>;

/// Relies on str::trim: leading and trailing whitespace removed.
#[verifier::external_body]
fn trim_str(s: &str) -> (r: &str)
    ensures
        r@ == trimmed(s@),
{
    s.trim()
}

/// Relies on regex::Regex::new and Regex::captures: groups one and two of
/// `^(!\S*)(.*)` in `s`, which both take part in every match.
#[verifier::external_body]
fn split_command(s: &str) -> (r: Option<(String, String)>)
    ensures
        match r {
            Some((token, rest)) => command_split(s@) == Some((token@, rest@)),
            None => command_split(s@) is None,
        },
{
    let re = regex::Regex::new(r"^(!\S*)(.*)").unwrap();
    re.captures(s).map(|c| (c[1].to_string(), c[2].to_string()))
}

/// The command a token names; tokens are case-sensitive.
pub open spec fn command_of(token: Seq<char>) -> Option<Command> {
    if token == HELP_CMD@ {
        Some(Command::Help)
    } else if token == REGISTER_CMD@ {
        Some(Command::Register)
    } else if token == GAME_NOTIFICATION_ON_CMD@ {
        Some(Command::GameNotificationOn)
    } else if token == GAME_NOTIFICATION_OFF_CMD@ {
        Some(Command::GameNotificationOff)
    } else if token == ANY_GAMERS_CMD@ {
        Some(Command::AnyGamers)
    } else if token == ADD_ADMINS_CMD@ {
        Some(Command::AddAdmins)
    } else {
        None
    }
}

/// The command of a message with characters `content`, and its trailing
/// text with surrounding whitespace removed.
pub open spec fn parsed_command(content: Seq<char>) -> Option<(Command, Seq<char>)> {
    match command_split(trimmed(content)) {
        None => None,
        Some(parts) => match command_of(parts.0) {
            None => None,
            Some(c) => Some((c, trimmed(parts.1))),
        },
    }
}

/// The command `token` names, if any.
pub fn command_from_token(token: &str) -> (r: Option<Command>)
    ensures
        r == command_of(token@),
{
    let t = String::from_str(token);
    if t == String::from_str(HELP_CMD) {
        Some(Command::Help)
    } else if t == String::from_str(REGISTER_CMD) {
        Some(Command::Register)
    } else if t == String::from_str(GAME_NOTIFICATION_ON_CMD) {
        Some(Command::GameNotificationOn)
    } else if t == String::from_str(GAME_NOTIFICATION_OFF_CMD) {
        Some(Command::GameNotificationOff)
    } else if t == String::from_str(ANY_GAMERS_CMD) {
        Some(Command::AnyGamers)
    } else if t == String::from_str(ADD_ADMINS_CMD) {
        Some(Command::AddAdmins)
    } else {
        None
    }
}

/// The command that a message starts with, and the text after it; `None`
/// for a message that holds no known command.
pub fn parse_command(content: &str) -> (r: Option<(Command, String)>)
    ensures
        match r {
            Some((c, rest)) => parsed_command(content@) == Some((c, rest@)),
            None => parsed_command(content@) is None,
        },
{
    let stripped = trim_str(content);
    match split_command(stripped) {
        None => None,
        Some((token, rest)) => match command_from_token(token.as_str()) {
            None => None,
            Some(c) => {
                let rest_trimmed = String::from_str(trim_str(rest.as_str()));
                Some((c, rest_trimmed))
            },
        },
    }
}

} // verus!
