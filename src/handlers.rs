use vstd::prelude::*;
use crate::clock::current_timestamp;
use crate::commands::Command;
use crate::eligibility::eligible_among;
use crate::fanout::{begin_fanout, FanOutPlan};
use crate::model::{AdminUser, Ping, WololoUser};
use crate::replies::{AdminOutcome, Reply};
use crate::store::{admin_in, ping_key_is, ping_lookup, pings_except, pings_without, unique_admins, user_lookup, Store};

verus! {

/// What `!admin` leads to.
#[derive(Debug)]
pub enum AdminCommand {
    /// The caller is not registered: nothing is said.
    Ignored,
    /// The caller is registered but holds no admin rights.
    NotAdmin,
    /// One outcome for each mentioned user, in mention order.
    Granted(Vec<AdminOutcome>),
}

/// What the bot does on a command.
#[derive(Debug)]
pub enum Action {
    /// Post this reply in the command's channel.
    Reply(Reply),
    /// Post the admin grant's replies, if any.
    Admin(AdminCommand),
    /// Notify the planned subscribers, or post the reply.
    FanOut(Result<FanOutPlan, Reply>),
}

/// The admin rows once each of `mentions` is granted admin rights in turn.
pub open spec fn admins_after(admins: Seq<AdminUser>, mentions: Seq<u64>) -> Seq<AdminUser>
    decreases mentions.len(),
{
    if mentions.len() == 0 {
        admins
    } else {
        let prior = admins_after(admins, mentions.drop_last());
        if admin_in(prior, mentions.last()) {
            prior
        } else {
            prior.push(AdminUser { discord_id: mentions.last() })
        }
    }
}

/// The outcome of granting each of `mentions` admin rights in turn.
pub open spec fn admin_outcomes(admins: Seq<AdminUser>, mentions: Seq<u64>) -> Seq<AdminOutcome>
    decreases mentions.len(),
{
    if mentions.len() == 0 {
        Seq::empty()
    } else {
        let prior = admins_after(admins, mentions.drop_last());
        admin_outcomes(admins, mentions.drop_last()).push(
            if admin_in(prior, mentions.last()) {
                AdminOutcome::AlreadyAdmin
            } else {
                AdminOutcome::Added
            },
        )
    }
}

/// The user `discord_id`, registering it now if it is not yet registered.
pub fn get_or_create_user(store: &mut Store, discord_id: u64) -> (r: Option<WololoUser>)
    requires
        old(store).wf(),
    ensures
        final(store).wf(),
        final(store).ping_rows() == old(store).ping_rows(),
        final(store).admin_rows() == old(store).admin_rows(),
        final(store).child_rows() == old(store).child_rows(),
        r is Some,
        r == user_lookup(final(store).user_rows(), discord_id),
        user_lookup(old(store).user_rows(), discord_id) is Some ==> final(store).user_rows() == old(store).user_rows(),
        user_lookup(old(store).user_rows(), discord_id) is None ==> final(store).user_rows() == old(store).user_rows().push(r->0),
{
    let existing = store.get_user(discord_id);
    if existing.is_some() {
        return existing;
    }
    let created_at = current_timestamp();
    let created = store.create_user(discord_id, created_at);
    proof {
        let s = final(store).user_rows();
        let i = s.len() - 1;
        assert(s[i].discord_id == discord_id);
        let k = choose|k: int| 0 <= k < s.len() && s[k].discord_id == discord_id;
        assert(k == i);
    }
    if created.is_none() {
        return store.get_user(discord_id);
    }
    created
}

/// `!register`: registers the caller unless already registered.
pub fn handle_register(store: &mut Store, user_discord_id: u64) -> (r: Reply)
    requires
        old(store).wf(),
    ensures
        final(store).wf(),
        r == Reply::Registered,
        user_lookup(final(store).user_rows(), user_discord_id) is Some,
        final(store).ping_rows() == old(store).ping_rows(),
        final(store).admin_rows() == old(store).admin_rows(),
        final(store).child_rows() == old(store).child_rows(),
{
    match get_or_create_user(store, user_discord_id) {
        Some(_) => Reply::Registered,
        None => Reply::RegisterFailed,
    }
}

/// `!game-notification-on`: subscribes the caller in the channel.
pub fn handle_notification_on(store: &mut Store, user_discord_id: u64, discord_channel_id: u64) -> (r:
    Reply)
    requires
        old(store).wf(),
    ensures
        final(store).wf(),
        final(store).user_rows() == old(store).user_rows(),
        final(store).admin_rows() == old(store).admin_rows(),
        final(store).child_rows() == old(store).child_rows(),
        ping_lookup(old(store).ping_rows(), user_discord_id, discord_channel_id) is Some ==> r
            == Reply::AlreadySubscribed && final(store).ping_rows() == old(store).ping_rows(),
        ping_lookup(old(store).ping_rows(), user_discord_id, discord_channel_id) is None ==> r
            == Reply::Subscribed && exists|t: i64|
            final(store).ping_rows() == old(store).ping_rows().push(
                Ping {
                    user_discord_id,
                    discord_channel_id,
                    created_at: t,
                    last_notified: None,
                },
            ),
{
    if store.get_ping(user_discord_id, discord_channel_id).is_some() {
        return Reply::AlreadySubscribed;
    }
    let created_at = current_timestamp();
    match store.create_ping(user_discord_id, discord_channel_id, created_at) {
        Some(_) => Reply::Subscribed,
        None => Reply::SubscribeFailed,
    }
}

/// `!game-notification-off`: removes the caller's subscription in the
/// channel.
pub fn handle_notification_off(store: &mut Store, user_discord_id: u64, discord_channel_id: u64) -> (r:
    Reply)
    requires
        old(store).wf(),
    ensures
        final(store).wf(),
        final(store).user_rows() == old(store).user_rows(),
        final(store).admin_rows() == old(store).admin_rows(),
        final(store).child_rows() == old(store).child_rows(),
        ping_lookup(old(store).ping_rows(), user_discord_id, discord_channel_id) is None ==> r
            == Reply::NotSubscribed && final(store).ping_rows() == old(store).ping_rows(),
        ping_lookup(old(store).ping_rows(), user_discord_id, discord_channel_id) is Some ==> r
            == Reply::Unsubscribed && final(store).ping_rows() == pings_without(
            old(store).ping_rows(),
            user_discord_id,
            discord_channel_id,
        ),
{
    if store.get_ping(user_discord_id, discord_channel_id).is_none() {
        return Reply::NotSubscribed;
    }
    if store.delete_ping(user_discord_id, discord_channel_id) {
        Reply::Unsubscribed
    } else {
        Reply::UnsubscribeFailed
    }
}

/// `!admin`: a registered admin grants admin rights to each mentioned user.
pub fn handle_admin(store: &mut Store, user_discord_id: u64, mentions: &Vec<u64>) -> (r: AdminCommand)
    requires
        old(store).wf(),
    ensures
        final(store).wf(),
        final(store).user_rows() == old(store).user_rows(),
        final(store).ping_rows() == old(store).ping_rows(),
        final(store).child_rows() == old(store).child_rows(),
        user_lookup(old(store).user_rows(), user_discord_id) is None ==> r is Ignored && final(store).admin_rows() == old(store).admin_rows(),
        user_lookup(old(store).user_rows(), user_discord_id) is Some && !admin_in(
            old(store).admin_rows(),
            user_discord_id,
        ) ==> r is NotAdmin && final(store).admin_rows() == old(store).admin_rows(),
        user_lookup(old(store).user_rows(), user_discord_id) is Some && admin_in(
            old(store).admin_rows(),
            user_discord_id,
        ) ==> match r {
            AdminCommand::Granted(outcomes) => outcomes@ == admin_outcomes(
                old(store).admin_rows(),
                mentions@,
            ) && final(store).admin_rows() == admins_after(old(store).admin_rows(), mentions@),
            _ => false,
        },
{
    if store.get_user(user_discord_id).is_none() {
        return AdminCommand::Ignored;
    }
    if !store.is_user_admin(user_discord_id) {
        return AdminCommand::NotAdmin;
    }
    let ghost start = store.admin_rows();
    let mut outcomes: Vec<AdminOutcome> = Vec::new();
    let mut i: usize = 0;
    while i < mentions.len()
        invariant
            i <= mentions@.len(),
            store.wf(),
            store.user_rows() == old(store).user_rows(),
            store.ping_rows() == old(store).ping_rows(),
            store.child_rows() == old(store).child_rows(),
            start == old(store).admin_rows(),
            store.admin_rows() == admins_after(start, mentions@.subrange(0, i as int)),
            outcomes@ == admin_outcomes(start, mentions@.subrange(0, i as int)),
        decreases mentions@.len() - i,
    {
        let m = mentions[i];
        proof {
            let s = mentions@.subrange(0, i as int + 1);
            assert(s.drop_last() =~= mentions@.subrange(0, i as int));
        }
        let outcome = if store.is_user_admin(m) {
            AdminOutcome::AlreadyAdmin
        } else {
            match store.create_admin_user(m) {
                Ok(_) => AdminOutcome::Added,
                Err(_) => AdminOutcome::Failed,
            }
        };
        outcomes.push(outcome);
        i = i + 1;
    }
    assert(mentions@.subrange(0, mentions@.len() as int) =~= mentions@);
    AdminCommand::Granted(outcomes)
}

/// Acts on `command` from `user_discord_id` in `discord_channel_id`, whose
/// message mentions the users `mentions`.
pub fn handle_command(
    store: &mut Store,
    command: Command,
    user_discord_id: u64,
    discord_channel_id: u64,
    mentions: &Vec<u64>,
) -> (r: Action)
    requires
        old(store).wf(),
    ensures
        final(store).wf(),
        final(store).child_rows() == old(store).child_rows(),
        command == Command::Help ==> r == Action::Reply(Reply::Help) && *final(store) == *old(store),
        command == Command::Register ==> r == Action::Reply(Reply::Registered) && user_lookup(
            final(store).user_rows(),
            user_discord_id,
        ) is Some && final(store).ping_rows() == old(store).ping_rows() && final(store).admin_rows()
            == old(store).admin_rows(),
        command == Command::GameNotificationOn ==> final(store).user_rows() == old(store).user_rows()
            && final(store).admin_rows() == old(store).admin_rows() && if ping_lookup(
            old(store).ping_rows(),
            user_discord_id,
            discord_channel_id,
        ) is Some {
            r == Action::Reply(Reply::AlreadySubscribed) && final(store).ping_rows() == old(
                store,
            ).ping_rows()
        } else {
            r == Action::Reply(Reply::Subscribed) && ping_lookup(
                final(store).ping_rows(),
                user_discord_id,
                discord_channel_id,
            ) is Some
        },
        command == Command::GameNotificationOff ==> final(store).user_rows() == old(store).user_rows()
            && final(store).admin_rows() == old(store).admin_rows() && if ping_lookup(
            old(store).ping_rows(),
            user_discord_id,
            discord_channel_id,
        ) is Some {
            r == Action::Reply(Reply::Unsubscribed) && final(store).ping_rows() == pings_without(
                old(store).ping_rows(),
                user_discord_id,
                discord_channel_id,
            )
        } else {
            r == Action::Reply(Reply::NotSubscribed) && final(store).ping_rows() == old(
                store,
            ).ping_rows()
        },
        command == Command::AnyGamers ==> *final(store) == *old(store) && if user_lookup(
            old(store).user_rows(),
            user_discord_id,
        ) is None {
            r == Action::FanOut(Err(Reply::NotRegistered))
        } else {
            match r {
                Action::FanOut(Ok(plan)) => plan.targets@ == eligible_among(
                    pings_except(old(store).ping_rows(), user_discord_id, discord_channel_id),
                    plan.sent_at as int,
                ),
                _ => false,
            }
        },
        command == Command::AddAdmins ==> final(store).user_rows() == old(store).user_rows()
            && final(store).ping_rows() == old(store).ping_rows() && if user_lookup(
            old(store).user_rows(),
            user_discord_id,
        ) is None {
            r == Action::Admin(AdminCommand::Ignored) && final(store).admin_rows() == old(
                store,
            ).admin_rows()
        } else if !admin_in(old(store).admin_rows(), user_discord_id) {
            r == Action::Admin(AdminCommand::NotAdmin) && final(store).admin_rows() == old(
                store,
            ).admin_rows()
        } else {
            match r {
                Action::Admin(AdminCommand::Granted(outcomes)) => outcomes@ == admin_outcomes(
                    old(store).admin_rows(),
                    mentions@,
                ) && final(store).admin_rows() == admins_after(old(store).admin_rows(), mentions@),
                _ => false,
            }
        },
{
    match command {
        Command::Help => Action::Reply(Reply::Help),
        Command::Register => Action::Reply(handle_register(store, user_discord_id)),
        Command::GameNotificationOn => {
            let r = handle_notification_on(store, user_discord_id, discord_channel_id);
            proof {
                if ping_lookup(old(store).ping_rows(), user_discord_id, discord_channel_id) is None {
                    let s = store.ping_rows();
                    let i = s.len() - 1;
                    assert(ping_key_is(s[i], user_discord_id, discord_channel_id));
                }
            }
            Action::Reply(r)
        },
        Command::GameNotificationOff => Action::Reply(
            handle_notification_off(store, user_discord_id, discord_channel_id),
        ),
        Command::AnyGamers => Action::FanOut(begin_fanout(store, user_discord_id, discord_channel_id)),
        Command::AddAdmins => Action::Admin(handle_admin(store, user_discord_id, mentions)),
    }
}

/// Mentioning one user twice in a grant by an admin adds that user once and
/// reports the second mention as already an admin.
pub proof fn lemma_double_mention_grants_once(admins: Seq<AdminUser>, a: u64)
    requires
        unique_admins(admins),
        !admin_in(admins, a),
    ensures
        admin_outcomes(admins, seq![a, a]) == seq![AdminOutcome::Added, AdminOutcome::AlreadyAdmin],
        admins_after(admins, seq![a, a]) == admins.push(AdminUser { discord_id: a }),
        unique_admins(admins_after(admins, seq![a, a])),
{
    let one = seq![a];
    let two = seq![a, a];
    assert(two.drop_last() =~= one);
    assert(one.drop_last() =~= Seq::<u64>::empty());
    let after = admins.push(AdminUser { discord_id: a });
    assert(after[admins.len() as int].discord_id == a);
    assert(admin_in(after, a));
    assert forall|i: int, j: int|
        0 <= i < after.len() && 0 <= j < after.len() && after[i].discord_id == after[j].discord_id
        implies i == j by {
        if i < admins.len() && j < admins.len() {
        } else if i < admins.len() {
            assert(admins[i].discord_id == a);
        } else if j < admins.len() {
            assert(admins[j].discord_id == a);
        }
    }
    assert(admins_after(admins, one.drop_last()) == admins);
    assert(admin_outcomes(admins, one.drop_last()) == Seq::<AdminOutcome>::empty());
    assert(admins_after(admins, one) == after);
    assert(admin_outcomes(admins, one) =~= seq![AdminOutcome::Added]);
    assert(admins_after(admins, two) == after);
    assert(admin_outcomes(admins, two) =~= seq![AdminOutcome::Added, AdminOutcome::AlreadyAdmin]);
}

} // verus!
