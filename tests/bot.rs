use wololo::commands::{command_from_token, parse_command, Command};
use wololo::constants::help_text;
use wololo::eligibility::{eligible_pings, should_notify, NOTIFICATION_TIMEOUT_SECONDS};
use wololo::fanout::{begin_fanout, plan_fanout, record_delivery};
use wololo::handlers::{
    get_or_create_user, handle_admin, handle_command, handle_notification_off,
    handle_notification_on, handle_register, Action, AdminCommand,
};
use wololo::model::{ParentMessageChildMessage, Ping};
use wololo::relay::{reaction_added, reply_posted};
use wololo::replies::{
    admin_reply_text, notification_text, reaction_reply_text, reply_text, AdminOutcome, Reply,
};
use wololo::store::{Store, StoreError};

fn ping(user: u64, channel: u64, last: Option<i64>) -> Ping {
    Ping { user_discord_id: user, discord_channel_id: channel, created_at: 0, last_notified: last }
}

fn link(parent: u64, child: u64) -> ParentMessageChildMessage {
    ParentMessageChildMessage { parent, parent_channel_id: 100, child, child_channel_id: 900 }
}

#[test]
fn never_notified_is_always_due() {
    let p = ping(1, 100, None);
    assert!(should_notify(&p, 0));
    assert!(should_notify(&p, i64::MIN));
    assert!(should_notify(&p, i64::MAX));
}

#[test]
fn cooldown_boundary_is_inclusive() {
    assert_eq!(NOTIFICATION_TIMEOUT_SECONDS, 120);
    let p = ping(1, 100, Some(1_000));
    assert!(should_notify(&p, 1_120));
    assert!(!should_notify(&p, 1_119));
    assert!(should_notify(&p, 5_000));
    assert!(!should_notify(&p, 1_000));
}

#[test]
fn cooldown_does_not_overflow_at_extremes() {
    let p = ping(1, 100, Some(i64::MIN));
    assert!(should_notify(&p, i64::MAX));
    let q = ping(1, 100, Some(i64::MAX));
    assert!(!should_notify(&q, i64::MIN));
}

#[test]
fn eligible_pings_keeps_due_in_order() {
    let pings = vec![ping(1, 100, None), ping(2, 100, Some(950)), ping(3, 100, Some(880))];
    let due = eligible_pings(&pings, 1_000);
    assert_eq!(due, vec![ping(1, 100, None), ping(3, 100, Some(880))]);
    assert!(eligible_pings(&Vec::new(), 1_000).is_empty());
}

#[test]
fn users_are_created_once() {
    let mut s = Store::new();
    assert_eq!(s.get_user(7), None);
    let u = s.create_user(7, 50).unwrap();
    assert_eq!(u.discord_id, 7);
    assert_eq!(u.created_at, 50);
    assert_eq!(s.create_user(7, 60), None);
    assert_eq!(s.get_user(7).unwrap().created_at, 50);
    let again = get_or_create_user(&mut s, 7).unwrap();
    assert_eq!(again.created_at, 50);
    let fresh = get_or_create_user(&mut s, 8).unwrap();
    assert_eq!(fresh.discord_id, 8);
}

#[test]
fn ping_crud() {
    let mut s = Store::new();
    let expected = Ping { user_discord_id: 7, discord_channel_id: 100, created_at: 5, last_notified: None };
    assert_eq!(s.create_ping(7, 100, 5), Some(expected));
    assert_eq!(s.create_ping(7, 100, 6), None);
    assert_eq!(s.get_ping(7, 100).unwrap().created_at, 5);
    assert_eq!(s.get_ping(7, 101), None);
    assert!(s.delete_ping(7, 100));
    assert!(!s.delete_ping(7, 100));
    assert_eq!(s.get_ping(7, 100), None);
}

#[test]
fn listing_excludes_requester_and_other_channels() {
    let mut s = Store::new();
    s.create_ping(1, 100, 0);
    s.create_ping(2, 100, 0);
    s.create_ping(3, 200, 0);
    s.create_ping(4, 100, 0);
    let listed = s.get_all_pings_except_for_user(1, 100);
    let users: Vec<u64> = listed.iter().map(|p| p.user_discord_id).collect();
    assert_eq!(users, vec![2, 4]);
    assert!(listed.iter().all(|p| p.discord_channel_id == 100));
    assert!(s.get_all_pings_except_for_user(9, 300).is_empty());
}

#[test]
fn mark_notified_needs_registered_user_and_subscription() {
    let mut s = Store::new();
    s.create_ping(7, 100, 0);
    assert_eq!(s.update_notified_at_for_ping(&ping(7, 100, None), 500), Err(StoreError::NotFound));
    assert_eq!(s.get_ping(7, 100).unwrap().last_notified, None);
    s.create_user(7, 0);
    assert_eq!(s.update_notified_at_for_ping(&ping(7, 101, None), 500), Err(StoreError::NotFound));
    let stamped = s.update_notified_at_for_ping(&ping(7, 100, None), 500).unwrap();
    assert_eq!(stamped.last_notified, Some(500));
    assert_eq!(s.get_ping(7, 100).unwrap().last_notified, Some(500));
}

#[test]
fn admins_and_correlations() {
    let mut s = Store::new();
    assert!(!s.is_user_admin(3));
    assert!(s.create_admin_user(3).is_ok());
    assert_eq!(s.create_admin_user(3).unwrap_err(), StoreError::Conflict);
    assert!(s.is_user_admin(3));
    assert_eq!(s.admin_count(), 1);
    assert_eq!(s.create_child_for_message(&link(10, 20)), Ok(true));
    assert_eq!(s.create_child_for_message(&link(11, 20)), Err(StoreError::Conflict));
    assert_eq!(s.get_parent_message_id_for_child_message_id(20), Some(link(10, 20)));
    assert_eq!(s.get_parent_message_id_for_child_message_id(21), None);
    assert!(!s.delete_child_for_message(&link(11, 20)));
    assert!(s.delete_child_for_message(&link(10, 20)));
    assert_eq!(s.correlation_count(), 0);
}

#[test]
fn tokens_name_commands() {
    assert_eq!(command_from_token("!help"), Some(Command::Help));
    assert_eq!(command_from_token("!register"), Some(Command::Register));
    assert_eq!(command_from_token("!game-notification-on"), Some(Command::GameNotificationOn));
    assert_eq!(command_from_token("!game-notification-off"), Some(Command::GameNotificationOff));
    assert_eq!(command_from_token("!any-gamers"), Some(Command::AnyGamers));
    assert_eq!(command_from_token("!admin"), Some(Command::AddAdmins));
    assert_eq!(command_from_token("!Help"), None);
    assert_eq!(command_from_token("help"), None);
}

#[test]
fn messages_parse_into_command_and_trimmed_rest() {
    assert_eq!(parse_command("!help"), Some((Command::Help, String::new())));
    assert_eq!(
        parse_command("   !any-gamers   hello there  "),
        Some((Command::AnyGamers, "hello there".to_string()))
    );
    assert_eq!(parse_command("!admin <@1> <@2>"), Some((Command::AddAdmins, "<@1> <@2>".to_string())));
    assert_eq!(parse_command("hello !help"), None);
    assert_eq!(parse_command("!unknown thing"), None);
    assert_eq!(parse_command(""), None);
    assert_eq!(parse_command("!helpme"), None);
}

#[test]
fn help_lists_commands() {
    let h = help_text();
    assert!(h.starts_with("Here are my commands:\n!help: show this message\n"));
    assert!(h.contains("-----------ADMIN ONLY------------"));
    assert_eq!(reply_text(Reply::Help, "a", "b"), h);
}

#[test]
fn reply_texts() {
    assert_eq!(
        reply_text(Reply::Registered, "bob", "lfg"),
        "@bob I have successfully registered you, or you are already registered!"
    );
    assert_eq!(
        reply_text(Reply::Subscribed, "bob", "lfg"),
        "@bob You are now signed up for game search notifications in #lfg"
    );
    assert_eq!(
        reply_text(Reply::NotSubscribed, "bob", "lfg"),
        "@bob You aren't signed up for game search notifications in #lfg"
    );
    assert_eq!(
        reply_text(Reply::NotRegistered, "bob", "lfg"),
        "@bob You aren't registered in #lfg, you can register using !register"
    );
    assert_eq!(reply_text(Reply::NotAdmin, "bob", "lfg"), "@bob You are not an admin.");
    assert_eq!(
        admin_reply_text(AdminOutcome::AlreadyAdmin, "bob", "ann"),
        "@bob ann is already an admin."
    );
    assert_eq!(
        admin_reply_text(AdminOutcome::Added, "bob", "ann"),
        "@bob ann has been added as an admin."
    );
    assert_eq!(
        admin_reply_text(AdminOutcome::Failed, "bob", "ann"),
        "@bob I was unable to add ann as an admin."
    );
    assert_eq!(reaction_reply_text("ann", "👍"), "@ann: 👍");
}

#[test]
fn notification_texts() {
    assert_eq!(
        notification_text("bob", "lfg", ""),
        "@bob is trying to get a stack for dota in #lfg. \n\n(You can unsubscribe from notifications in #lfg by going there and typing !game-notification-off. You can also let them know you are joining by reacting to this message.)"
    );
    assert_eq!(
        notification_text("bob", "lfg", "hello"),
        "@bob is trying to get a stack for dota in #lfg. They also said this: hello\n\n(You can unsubscribe from notifications in #lfg by going there and typing !game-notification-off. You can also let them know you are joining by reacting to this message.)"
    );
}

#[test]
fn subscribe_and_unsubscribe_replies() {
    let mut s = Store::new();
    assert_eq!(handle_notification_on(&mut s, 7, 100), Reply::Subscribed);
    assert_eq!(handle_notification_on(&mut s, 7, 100), Reply::AlreadySubscribed);
    assert_eq!(handle_notification_off(&mut s, 7, 100), Reply::Unsubscribed);
    assert_eq!(handle_notification_off(&mut s, 7, 100), Reply::NotSubscribed);
}

#[test]
fn non_admin_cannot_grant() {
    let mut s = Store::new();
    handle_register(&mut s, 1);
    match handle_admin(&mut s, 1, &vec![2]) {
        AdminCommand::NotAdmin => {}
        other => panic!("unexpected {:?}", other),
    }
    assert!(!s.is_user_admin(2));
    assert_eq!(s.admin_count(), 0);
}

#[test]
fn unregistered_admin_request_is_ignored() {
    let mut s = Store::new();
    s.create_admin_user(1).unwrap();
    assert!(matches!(handle_admin(&mut s, 1, &vec![2]), AdminCommand::Ignored));
    assert!(!s.is_user_admin(2));
}

#[test]
fn double_mention_grants_once() {
    let mut s = Store::new();
    handle_register(&mut s, 1);
    s.create_admin_user(1).unwrap();
    match handle_admin(&mut s, 1, &vec![5, 5]) {
        AdminCommand::Granted(outcomes) => {
            assert_eq!(outcomes, vec![AdminOutcome::Added, AdminOutcome::AlreadyAdmin])
        }
        other => panic!("unexpected {:?}", other),
    }
    assert!(s.is_user_admin(5));
    assert_eq!(s.admin_count(), 2);
}

#[test]
fn register_subscribe_then_unregistered_fanout() {
    let mut s = Store::new();
    assert_eq!(handle_register(&mut s, 7), Reply::Registered);
    assert!(matches!(
        handle_command(&mut s, Command::GameNotificationOn, 7, 100, &Vec::new()),
        Action::Reply(Reply::Subscribed)
    ));
    let p = s.get_ping(7, 100).unwrap();
    assert_eq!((p.user_discord_id, p.discord_channel_id, p.last_notified), (7, 100, None));
    match handle_command(&mut s, Command::AnyGamers, 8, 100, &Vec::new()) {
        Action::FanOut(Err(Reply::NotRegistered)) => {}
        other => panic!("unexpected {:?}", other),
    }
    assert_eq!(s.correlation_count(), 0);
    assert_eq!(s.get_ping(7, 100).unwrap().last_notified, None);
}

#[test]
fn fanout_plans_due_subscribers_only() {
    let mut s = Store::new();
    for u in [1u64, 2, 3, 4] {
        s.create_user(u, 0);
    }
    s.create_ping(1, 100, 0);
    s.create_ping(2, 100, 0);
    s.create_ping(3, 100, 0);
    s.create_ping(4, 200, 0);
    s.update_notified_at_for_ping(&ping(3, 100, None), 950).unwrap();
    let due: Vec<u64> = plan_fanout(&s, 1, 100, 1_000).iter().map(|p| p.user_discord_id).collect();
    assert_eq!(due, vec![2]);
    let due_later: Vec<u64> =
        plan_fanout(&s, 1, 100, 1_070).iter().map(|p| p.user_discord_id).collect();
    assert_eq!(due_later, vec![2, 3]);
    let plan = begin_fanout(&s, 1, 100).unwrap();
    assert!(plan.sent_at > 1_000_000_000);
    let users: Vec<u64> = plan.targets.iter().map(|p| p.user_discord_id).collect();
    assert_eq!(users, vec![2, 3]);
}

#[test]
fn delivery_stamps_and_correlates() {
    let mut s = Store::new();
    s.create_user(2, 0);
    s.create_ping(2, 100, 0);
    let target = s.get_ping(2, 100).unwrap();
    let d = record_delivery(&mut s, &target, &link(10, 20), 1_000);
    assert!(d.correlated && d.stamped);
    assert_eq!(s.get_ping(2, 100).unwrap().last_notified, Some(1_000));
    assert_eq!(s.get_parent_message_id_for_child_message_id(20), Some(link(10, 20)));
    assert_eq!(s.correlation_count(), 1);
    assert!(plan_fanout(&s, 1, 100, 1_119).is_empty());
    assert_eq!(plan_fanout(&s, 1, 100, 1_120).len(), 1);
}

#[test]
fn delivery_to_unregistered_subscriber_still_correlates() {
    let mut s = Store::new();
    s.create_ping(2, 100, 0);
    let target = s.get_ping(2, 100).unwrap();
    let d = record_delivery(&mut s, &target, &link(10, 20), 1_000);
    assert!(d.correlated);
    assert!(!d.stamped);
    assert_eq!(s.get_ping(2, 100).unwrap().last_notified, None);
}

#[test]
fn reaction_relays_once() {
    let mut s = Store::new();
    s.create_child_for_message(&link(10, 20)).unwrap();
    let first = reaction_added(&s, 20).unwrap();
    assert_eq!(first.parent, 10);
    assert!(reply_posted(&mut s, &first, true));
    assert_eq!(reaction_added(&s, 20), None);
}

#[test]
fn failed_reply_keeps_correlation() {
    let mut s = Store::new();
    s.create_child_for_message(&link(10, 20)).unwrap();
    let first = reaction_added(&s, 20).unwrap();
    assert!(!reply_posted(&mut s, &first, false));
    assert_eq!(reaction_added(&s, 20), Some(link(10, 20)));
}

#[test]
fn reaction_on_unrelated_message_is_ignored() {
    let mut s = Store::new();
    s.create_child_for_message(&link(10, 20)).unwrap();
    assert_eq!(reaction_added(&s, 21), None);
    assert_eq!(s.correlation_count(), 1);
}
