use vstd::prelude::*;

verus! {

/// A registered user of the bot.
#[derive(Clone, Copy, Debug, PartialEq, Eq, Structural)]
pub struct WololoUser {
    pub discord_id: u64,
    /// Registration time, in epoch seconds.
    pub created_at: i64,
}

/// A user holding admin rights.
#[derive(Clone, Copy, Debug, PartialEq, Eq, Structural)]
pub struct AdminUser {
    pub discord_id: u64,
}

/// A subscription of one user to notifications in one channel.
#[derive(Clone, Copy, Debug, PartialEq, Eq, Structural)]
pub struct Ping {
    pub user_discord_id: u64,
    pub discord_channel_id: u64,
    /// Creation time, in epoch seconds.
    pub created_at: i64,
    /// When the user was last notified in this channel, in epoch seconds.
    pub last_notified: Option<i64>,
}

/// Links a notification direct message (the child) to the channel message
/// that triggered it (the parent).
#[derive(Clone, Copy, Debug, PartialEq, Eq, Structural)]
pub struct ParentMessageChildMessage {
    pub parent: u64,
    pub parent_channel_id: u64,
    pub child: u64,
    pub child_channel_id: u64,
}

} // verus!
