use vstd::prelude::*;

verus! {

pub const HELP_CMD: &'static str = "!help";

pub const ANY_GAMERS_CMD: &'static str = "!any-gamers";

pub const REGISTER_CMD: &'static str = "!register";

pub const GAME_NOTIFICATION_ON_CMD: &'static str = "!game-notification-on";

pub const GAME_NOTIFICATION_OFF_CMD: &'static str = "!game-notification-off";

pub const ADD_ADMINS_CMD: &'static str = "!admin";

/// The command list that `!help` replies with.
pub const HELP_TEXT: &'static str = "Here are my commands:
!help: show this message
!register: add yourself to the list of users I interact with
!game-notification-on: enable notifications in the current channel when another registered user invokes the !admin command
!game-notification-off: disable game search notifications in the current channel
!any-gamers: send a dm to all registered users who have enabled game notifications in the current channel
-----------ADMIN ONLY------------
!admin: adds all mentioned users as admins. For example, '!admin @<some guy> would add <some guy> as an admin";

/// The command list that `!help` replies with.
pub fn help_text() -> (r: String)
    ensures
        r@ == HELP_TEXT@,
{
    String::from_str(HELP_TEXT)
}

} // verus!
