use vstd::prelude::*;
use crate::constants::{HELP_TEXT, help_text};

verus! {

/// A reply the bot posts in the channel a command came from.
#[derive(Clone, Copy, Debug, PartialEq, Eq, Structural)]
pub enum Reply {
    Help,
    Registered,
    RegisterFailed,
    AlreadySubscribed,
    Subscribed,
    SubscribeFailed,
    Unsubscribed,
    UnsubscribeFailed,
    NotSubscribed,
    NotRegistered,
    NotAdmin,
}

/// How granting admin rights to one mentioned user went.
#[derive(Clone, Copy, Debug, PartialEq, Eq, Structural)]
pub enum AdminOutcome {
    AlreadyAdmin,
    Added,
    Failed,
}

/// `@author` followed by a space and `body`.
pub open spec fn addressed(author: Seq<char>, body: Seq<char>) -> Seq<char> {
    seq!['@'] + author + seq![' '] + body
}

/// The text of `reply` to `author`, sent in the channel named `channel`.
pub open spec fn reply_spec(reply: Reply, author: Seq<char>, channel: Seq<char>) -> Seq<char> {
    match reply {
        Reply::Help => HELP_TEXT@,
        Reply::Registered => addressed(
            author,
            "I have successfully registered you, or you are already registered!"@,
        ),
        Reply::RegisterFailed => addressed(author, "I was unable to register you, try again later."@),
        Reply::AlreadySubscribed => addressed(
            author,
            "You are already signed up for game search notifications in #"@ + channel,
        ),
        Reply::Subscribed => addressed(
            author,
            "You are now signed up for game search notifications in #"@ + channel,
        ),
        Reply::SubscribeFailed => addressed(
            author,
            "I was unable to sign you up for game search notifications in #"@ + channel,
        ),
        Reply::Unsubscribed => addressed(
            author,
            "You have been removed from game search notifications in #"@ + channel,
        ),
        Reply::UnsubscribeFailed => addressed(
            author,
            "I was unable to remove you from game search notifications in #"@ + channel,
        ),
        Reply::NotSubscribed => addressed(
            author,
            "You aren't signed up for game search notifications in #"@ + channel,
        ),
        Reply::NotRegistered => addressed(
            author,
            "You aren't registered in #"@ + channel + ", you can register using !register"@,
        ),
        Reply::NotAdmin => addressed(author, "You are not an admin."@),
    }
}

/// The text of an admin grant's `outcome` for the user named `target`.
pub open spec fn admin_reply_spec(outcome: AdminOutcome, author: Seq<char>, target: Seq<char>) -> Seq<
    char,
> {
    match outcome {
        AdminOutcome::AlreadyAdmin => addressed(author, target + " is already an admin."@),
        AdminOutcome::Added => addressed(author, target + " has been added as an admin."@),
        AdminOutcome::Failed => addressed(author, "I was unable to add "@ + target + " as an admin."@),
    }
}

/// The direct message sent to each due subscriber when `author` asks for
/// players in the channel named `channel`, with the free text `extra`.
pub open spec fn notification_spec(author: Seq<char>, channel: Seq<char>, extra: Seq<char>) -> Seq<
    char,
> {
    let context = if extra.len() == 0 {
        Seq::<char>::empty()
    } else {
        "They also said this: "@ + extra
    };
    seq!['@'] + author + " is trying to get a stack for dota in #"@ + channel + ". "@ + context
        + "\n\n(You can unsubscribe from notifications in #"@ + channel
        + " by going there and typing !game-notification-off. You can also let them know you are joining by reacting to this message.)"@
}

/// The reply on a parent message naming who reacted, and with what.
pub open spec fn reaction_reply_spec(reactor: Seq<char>, emoji: Seq<char>) -> Seq<char> {
    seq!['@'] + reactor + ": "@ + emoji
}

fn addressed_to(author: &str, body: &str) -> (r: String)
    ensures
        r@ == addressed(author@, body@),
{
    let mut r = String::from_str("@");
    r.append(author);
    r.append(" ");
    r.append(body);
    proof {
        reveal_strlit("@");
        reveal_strlit(" ");
        assert(r@ =~= addressed(author@, body@));
    }
    r
}

/// The text of `reply` to `author`, sent in the channel named `channel`.
pub fn reply_text(reply: Reply, author: &str, channel: &str) -> (r: String)
    ensures
        r@ == reply_spec(reply, author@, channel@),
{
    match reply {
        Reply::Help => help_text(),
        Reply::Registered => addressed_to(
            author,
            "I have successfully registered you, or you are already registered!",
        ),
        Reply::RegisterFailed => addressed_to(author, "I was unable to register you, try again later."),
        Reply::AlreadySubscribed => {
            let mut body = String::from_str("You are already signed up for game search notifications in #");
            body.append(channel);
            addressed_to(author, body.as_str())
        },
        Reply::Subscribed => {
            let mut body = String::from_str("You are now signed up for game search notifications in #");
            body.append(channel);
            addressed_to(author, body.as_str())
        },
        Reply::SubscribeFailed => {
            let mut body = String::from_str(
                "I was unable to sign you up for game search notifications in #",
            );
            body.append(channel);
            addressed_to(author, body.as_str())
        },
        Reply::Unsubscribed => {
            let mut body = String::from_str("You have been removed from game search notifications in #");
            body.append(channel);
            addressed_to(author, body.as_str())
        },
        Reply::UnsubscribeFailed => {
            let mut body = String::from_str(
                "I was unable to remove you from game search notifications in #",
            );
            body.append(channel);
            addressed_to(author, body.as_str())
        },
        Reply::NotSubscribed => {
            let mut body = String::from_str("You aren't signed up for game search notifications in #");
            body.append(channel);
            addressed_to(author, body.as_str())
        },
        Reply::NotRegistered => {
            let mut body = String::from_str("You aren't registered in #");
            body.append(channel);
            body.append(", you can register using !register");
            addressed_to(author, body.as_str())
        },
        Reply::NotAdmin => addressed_to(author, "You are not an admin."),
    }
}

/// The text of an admin grant's `outcome` for the user named `target`.
pub fn admin_reply_text(outcome: AdminOutcome, author: &str, target: &str) -> (r: String)
    ensures
        r@ == admin_reply_spec(outcome, author@, target@),
{
    match outcome {
        AdminOutcome::AlreadyAdmin => {
            let mut body = String::from_str(target);
            body.append(" is already an admin.");
            addressed_to(author, body.as_str())
        },
        AdminOutcome::Added => {
            let mut body = String::from_str(target);
            body.append(" has been added as an admin.");
            addressed_to(author, body.as_str())
        },
        AdminOutcome::Failed => {
            let mut body = String::from_str("I was unable to add ");
            body.append(target);
            body.append(" as an admin.");
            addressed_to(author, body.as_str())
        },
    }
}

/// The direct message sent to each due subscriber when `author` asks for
/// players in the channel named `channel`, with the free text `extra`.
pub fn notification_text(author: &str, channel: &str, extra: &str) -> (r: String)
    ensures
        r@ == notification_spec(author@, channel@, extra@),
{
    let mut r = String::from_str("@");
    r.append(author);
    r.append(" is trying to get a stack for dota in #");
    r.append(channel);
    r.append(". ");
    if !extra.is_empty() {
        r.append("They also said this: ");
        r.append(extra);
    }
    r.append("\n\n(You can unsubscribe from notifications in #");
    r.append(channel);
    r.append(
        " by going there and typing !game-notification-off. You can also let them know you are joining by reacting to this message.)",
    );
    proof {
        reveal_strlit("@");
        assert(r@ =~= notification_spec(author@, channel@, extra@));
    }
    r
}

/// The reply on a parent message naming who reacted, and with what.
pub fn reaction_reply_text(reactor: &str, emoji: &str) -> (r: String)
    ensures
        r@ == reaction_reply_spec(reactor@, emoji@),
{
    let mut r = String::from_str("@");
    r.append(reactor);
    r.append(": ");
    r.append(emoji);
    proof {
        reveal_strlit("@");
        assert(r@ =~= reaction_reply_spec(reactor@, emoji@));
    }
    r
}

} // verus!
