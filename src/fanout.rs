use vstd::prelude::*;
use crate::clock::current_timestamp;
use crate::eligibility::{eligible_among, eligible_pings};
use crate::model::{ParentMessageChildMessage, Ping};
use crate::replies::Reply;
use crate::store::{
    child_lookup, ping_key_is, ping_lookup, pings_except, pings_stamped, unique_children, unique_pings,
    user_lookup, Store,
};

verus! {

/// The subscribers to notify for one `!any-gamers`, and the time the
/// request was taken up.
#[derive(Debug)]
pub struct FanOutPlan {
    pub sent_at: i64,
    pub targets: Vec<Ping>,
}

/// What the store recorded after one notification was delivered.
#[derive(Clone, Copy, Debug, PartialEq, Eq, Structural)]
pub struct Delivery {
    /// A correlation row now links the direct message to its trigger.
    pub correlated: bool,
    /// The subscriber's last-notified time is now the fan-out's time.
    pub stamped: bool,
}

/// The subscriptions in `channel` of users other than `requester` that are
/// due at `now`.
pub fn plan_fanout(store: &Store, requester: u64, channel: u64, now: i64) -> (r: Vec<Ping>)
    requires
        store.wf(),
    ensures
        r@ == eligible_among(pings_except(store.ping_rows(), requester, channel), now as int),
{
    let pings = store.get_all_pings_except_for_user(requester, channel);
    eligible_pings(&pings, now)
}

/// Takes up `!any-gamers` from `requester` in `channel`: an unregistered
/// requester is told so; otherwise the due subscribers at the current time
/// are planned.
pub fn begin_fanout(store: &Store, requester: u64, channel: u64) -> (r: Result<FanOutPlan, Reply>)
    requires
        store.wf(),
    ensures
        user_lookup(store.user_rows(), requester) is None ==> r == Err::<FanOutPlan, Reply>(
            Reply::NotRegistered,
        ),
        user_lookup(store.user_rows(), requester) is Some ==> match r {
            Ok(plan) => plan.targets@ == eligible_among(
                pings_except(store.ping_rows(), requester, channel),
                plan.sent_at as int,
            ),
            Err(_) => false,
        },
{
    if store.get_user(requester).is_none() {
        return Err(Reply::NotRegistered);
    }
    let now = current_timestamp();
    let targets = plan_fanout(store, requester, channel, now);
    Ok(FanOutPlan { sent_at: now, targets })
}

/// Records a delivered notification: the correlation `link` from the direct
/// message to its trigger, then the subscriber's cooldown stamp at
/// `sent_at`. A failure of the first does not stop the second.
pub fn record_delivery(store: &mut Store, ping: &Ping, link: &ParentMessageChildMessage, sent_at: i64) -> (r:
    Delivery)
    requires
        old(store).wf(),
    ensures
        final(store).wf(),
        final(store).user_rows() == old(store).user_rows(),
        final(store).admin_rows() == old(store).admin_rows(),
        r.correlated == (child_lookup(old(store).child_rows(), link.child) is None),
        r.correlated ==> final(store).child_rows() == old(store).child_rows().push(*link),
        !r.correlated ==> final(store).child_rows() == old(store).child_rows(),
        r.stamped == (user_lookup(old(store).user_rows(), ping.user_discord_id) is Some && ping_lookup(
            old(store).ping_rows(),
            ping.user_discord_id,
            ping.discord_channel_id,
        ) is Some),
        r.stamped ==> final(store).ping_rows() == pings_stamped(
            old(store).ping_rows(),
            ping.user_discord_id,
            ping.discord_channel_id,
            sent_at,
        ),
        !r.stamped ==> final(store).ping_rows() == old(store).ping_rows(),
{
    let correlated = store.create_child_for_message(link).is_ok();
    let stamped = store.update_notified_at_for_ping(ping, sent_at).is_ok();
    Delivery { correlated, stamped }
}

/// Once a delivery to a subscriber is recorded, that subscriber's row carries
/// the fan-out's time as its last notification, and exactly one correlation
/// row maps the new direct message to the triggering message.
pub proof fn lemma_delivery_recorded(
    pings: Seq<Ping>,
    children: Seq<ParentMessageChildMessage>,
    user: u64,
    channel: u64,
    link: ParentMessageChildMessage,
    sent_at: i64,
)
    requires
        unique_pings(pings),
        unique_children(children),
        ping_lookup(pings, user, channel) is Some,
        child_lookup(children, link.child) is None,
    ensures
        ping_lookup(pings_stamped(pings, user, channel, sent_at), user, channel) == Some(
            Ping { last_notified: Some(sent_at), ..ping_lookup(pings, user, channel)->0 },
        ),
        child_lookup(children.push(link), link.child) == Some(link),
        unique_children(children.push(link)),
        forall|i: int, j: int|
            0 <= i < children.len() + 1 && 0 <= j < children.len() + 1
                && #[trigger] children.push(link)[i].child == link.child
                && #[trigger] children.push(link)[j].child == link.child ==> i == j,
{
    let stamped = pings_stamped(pings, user, channel, sent_at);
    let k = choose|k: int| 0 <= k < pings.len() && ping_key_is(pings[k], user, channel);
    assert(stamped.len() == pings.len());
    assert(ping_key_is(stamped[k], user, channel));
    let k2 = choose|k2: int| 0 <= k2 < stamped.len() && ping_key_is(stamped[k2], user, channel);
    assert(ping_key_is(pings[k2], user, channel));
    assert(k2 == k);
    let all = children.push(link);
    let n = children.len() as int;
    assert(all[n] == link);
    assert forall|i: int| 0 <= i < n implies all[i].child != link.child by {
        assert(all[i] == children[i]);
    }
    let c = choose|c: int| 0 <= c < all.len() && all[c].child == link.child;
    assert(c == n);
}

} // verus!
