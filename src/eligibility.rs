use vstd::prelude::*;
use crate::model::Ping;

verus! {

/// Minimum time, in seconds, between two notifications of one subscriber in
/// one channel.
pub const NOTIFICATION_TIMEOUT_SECONDS: i64 = 120;

/// A subscription is due for a notification at `now` when it was never
/// notified, or when at least the cooldown has passed since it last was.
pub open spec fn is_eligible(p: Ping, now: int) -> bool {
    match p.last_notified {
        None => true,
        Some(t) => now - t >= NOTIFICATION_TIMEOUT_SECONDS,
    }
}

/// The subscriptions of `pings` that are due at `now`, in their order.
pub open spec fn eligible_among(pings: Seq<Ping>, now: int) -> Seq<Ping> {
    pings.filter(|p: Ping| is_eligible(p, now))
}

/// Whether `ping` is due for a notification at `now`.
pub fn should_notify(ping: &Ping, now: i64) -> (r: bool)
    ensures
        r == is_eligible(*ping, now as int),
{
    match ping.last_notified {
        None => true,
        Some(t) => (now as i128) - (t as i128) >= NOTIFICATION_TIMEOUT_SECONDS as i128,
    }
}

/// The subscriptions of `pings` that are due at `now`, in their order.
pub fn eligible_pings(pings: &Vec<Ping>, now: i64) -> (r: Vec<Ping>)
    ensures
        r@ == eligible_among(pings@, now as int),
{
    let mut r: Vec<Ping> = Vec::new();
    let mut i: usize = 0;
    while i < pings.len()
        invariant
            i <= pings@.len(),
            r@ == eligible_among(pings@.subrange(0, i as int), now as int),
        decreases pings@.len() - i,
    {
        let p = pings[i];
        proof {
            let s = pings@.subrange(0, i as int + 1);
            assert(s.drop_last() =~= pings@.subrange(0, i as int));
            assert(s.last() == p);
            reveal(Seq::filter);
        }
        if should_notify(&p, now) {
            r.push(p);
        }
        i = i + 1;
    }
    assert(pings@.subrange(0, pings@.len() as int) =~= pings@);
    r
}

/// A subscription that was never notified is due at every time.
pub proof fn lemma_never_notified_is_eligible(p: Ping, now: int)
    requires
        p.last_notified is None,
    ensures
        is_eligible(p, now),
{
}

/// A subscription last notified at `t` is due at `now` exactly when at least
/// the cooldown has passed since `t`; the boundary itself is due.
pub proof fn lemma_cooldown_boundary(p: Ping, t: int, now: int)
    requires
        p.last_notified == Some(t as i64),
        i64::MIN <= t <= i64::MAX,
    ensures
        is_eligible(p, now) <==> now - t >= 120,
        is_eligible(p, t + 120),
        !is_eligible(p, t + 119),
{
}

/// What the filter keeps is exactly the due subscriptions of its input.
pub proof fn lemma_eligible_among_members(pings: Seq<Ping>, now: int, p: Ping)
    ensures
        eligible_among(pings, now).contains(p) <==> (pings.contains(p) && is_eligible(p, now)),
    decreases pings.len(),
{
    broadcast use vstd::seq_lib::group_filter_ensures;
    reveal(Seq::filter);
    if pings.len() > 0 {
        let rest = pings.drop_last();
        lemma_eligible_among_members(rest, now, p);
        if pings.contains(p) && is_eligible(p, now) {
            let i = choose|i: int| 0 <= i < pings.len() && pings[i] == p;
            assert(pings.filter(|q: Ping| is_eligible(q, now)).contains(pings[i]));
        }
        if eligible_among(pings, now).contains(p) && p != pings.last() {
            assert(eligible_among(rest, now).contains(p));
            let j = choose|j: int| 0 <= j < rest.len() && rest[j] == p;
            assert(pings[j] == p);
        }
    }
}

} // verus!
