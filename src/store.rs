use vstd::prelude::*;
use crate::model::{AdminUser, ParentMessageChildMessage, Ping, WololoUser};

verus! {

/// Why a store operation did not take effect.
#[derive(Clone, Copy, Debug, PartialEq, Eq, Structural)]
pub enum StoreError {
    /// A row that the operation needs is absent.
    NotFound,
    /// The row to insert already exists.
    Conflict,
}

/// Whether `p` is the subscription of `user` in `channel`.
pub open spec fn ping_key_is(p: Ping, user: u64, channel: u64) -> bool {
    p.user_discord_id == user && p.discord_channel_id == channel
}

/// Whether `c` is the correlation of `parent` and `child`.
pub open spec fn child_key_is(c: ParentMessageChildMessage, parent: u64, child: u64) -> bool {
    c.parent == parent && c.child == child
}

pub open spec fn unique_users(s: Seq<WololoUser>) -> bool {
    forall|i: int, j: int|
        0 <= i < s.len() && 0 <= j < s.len() && s[i].discord_id == s[j].discord_id ==> i == j
}

pub open spec fn unique_pings(s: Seq<Ping>) -> bool {
    forall|i: int, j: int|
        0 <= i < s.len() && 0 <= j < s.len() && s[i].user_discord_id == s[j].user_discord_id
            && s[i].discord_channel_id == s[j].discord_channel_id ==> i == j
}

pub open spec fn unique_admins(s: Seq<AdminUser>) -> bool {
    forall|i: int, j: int|
        0 <= i < s.len() && 0 <= j < s.len() && s[i].discord_id == s[j].discord_id ==> i == j
}

pub open spec fn unique_children(s: Seq<ParentMessageChildMessage>) -> bool {
    forall|i: int, j: int| 0 <= i < s.len() && 0 <= j < s.len() && s[i].child == s[j].child ==> i == j
}

/// The user row with id `id`, if any.
pub open spec fn user_lookup(s: Seq<WololoUser>, id: u64) -> Option<WololoUser> {
    if exists|i: int| 0 <= i < s.len() && s[i].discord_id == id {
        Some(s[choose|i: int| 0 <= i < s.len() && s[i].discord_id == id])
    } else {
        None
    }
}

/// The subscription row of `user` in `channel`, if any.
pub open spec fn ping_lookup(s: Seq<Ping>, user: u64, channel: u64) -> Option<Ping> {
    if exists|i: int| 0 <= i < s.len() && ping_key_is(s[i], user, channel) {
        Some(s[choose|i: int| 0 <= i < s.len() && ping_key_is(s[i], user, channel)])
    } else {
        None
    }
}

/// Whether `id` holds admin rights.
pub open spec fn admin_in(s: Seq<AdminUser>, id: u64) -> bool {
    exists|i: int| 0 <= i < s.len() && s[i].discord_id == id
}

/// The correlation row whose child message is `child`, if any.
pub open spec fn child_lookup(s: Seq<ParentMessageChildMessage>, child: u64) -> Option<
    ParentMessageChildMessage,
> {
    if exists|i: int| 0 <= i < s.len() && s[i].child == child {
        Some(s[choose|i: int| 0 <= i < s.len() && s[i].child == child])
    } else {
        None
    }
}

/// The subscriptions in `channel` of every user but `user`, in stored order.
pub open spec fn pings_except(s: Seq<Ping>, user: u64, channel: u64) -> Seq<Ping> {
    s.filter(|p: Ping| p.discord_channel_id == channel && p.user_discord_id != user)
}

/// The subscription rows once that of `user` in `channel` is gone.
pub open spec fn pings_without(s: Seq<Ping>, user: u64, channel: u64) -> Seq<Ping> {
    s.filter(|p: Ping| !ping_key_is(p, user, channel))
}

/// The correlation rows once that of `parent` and `child` is gone.
pub open spec fn children_without(s: Seq<ParentMessageChildMessage>, parent: u64, child: u64) -> Seq<
    ParentMessageChildMessage,
> {
    s.filter(|c: ParentMessageChildMessage| !child_key_is(c, parent, child))
}

/// The subscription rows with that of `user` in `channel` stamped at `at`.
pub open spec fn pings_stamped(s: Seq<Ping>, user: u64, channel: u64, at: i64) -> Seq<Ping> {
    s.map_values(
        |p: Ping|
            if ping_key_is(p, user, channel) {
                Ping { last_notified: Some(at), ..p }
            } else {
                p
            },
    )
}

/// A row kept by `children_without` is a row of its input.
pub proof fn lemma_filtered_from(s: Seq<ParentMessageChildMessage>, parent: u64, child: u64, i: int)
    requires
        0 <= i < children_without(s, parent, child).len(),
    ensures
        exists|j: int| 0 <= j < s.len() && s[j] == children_without(s, parent, child)[i],
    decreases s.len(),
{
    reveal(Seq::filter);
    let rest = s.drop_last();
    let f = children_without(s, parent, child);
    let g = children_without(rest, parent, child);
    if i < g.len() {
        lemma_filtered_from(rest, parent, child, i);
        let j = choose|j: int| 0 <= j < rest.len() && rest[j] == g[i];
        assert(s[j] == f[i]);
    } else {
        assert(s[s.len() - 1] == f[i]);
    }
}

/// The subscriptions listed for a channel never include the requester's own.
pub proof fn lemma_pings_except_excludes_requester(s: Seq<Ping>, user: u64, channel: u64)
    ensures
        forall|i: int|
            0 <= i < pings_except(s, user, channel).len() ==> (#[trigger] pings_except(
                s,
                user,
                channel,
            )[i]).user_discord_id != user && pings_except(s, user, channel)[i].discord_channel_id
                == channel,
{
    broadcast use vstd::seq_lib::group_filter_ensures;
}

/// The persistence gateway: users, subscriptions, admins and message
/// correlations, each keyed as the schema keys it.
pub struct Store {
    users: Vec<WololoUser>,
    pings: Vec<Ping>,
    admins: Vec<AdminUser>,
    children: Vec<ParentMessageChildMessage>,
}

impl Store {
    pub closed spec fn user_rows(&self) -> Seq<WololoUser> {
        self.users@
    }

    pub closed spec fn ping_rows(&self) -> Seq<Ping> {
        self.pings@
    }

    pub closed spec fn admin_rows(&self) -> Seq<AdminUser> {
        self.admins@
    }

    pub closed spec fn child_rows(&self) -> Seq<ParentMessageChildMessage> {
        self.children@
    }

    /// Each relation holds at most one row per key.
    pub open spec fn wf(&self) -> bool {
        &&& unique_users(self.user_rows())
        &&& unique_pings(self.ping_rows())
        &&& unique_admins(self.admin_rows())
        &&& unique_children(self.child_rows())
    }

    /// An empty store.
    pub fn new() -> (r: Store)
        ensures
            r.wf(),
            r.user_rows() == Seq::<WololoUser>::empty(),
            r.ping_rows() == Seq::<Ping>::empty(),
            r.admin_rows() == Seq::<AdminUser>::empty(),
            r.child_rows() == Seq::<ParentMessageChildMessage>::empty(),
    {
        Store { users: Vec::new(), pings: Vec::new(), admins: Vec::new(), children: Vec::new() }
    }

    fn user_index(&self, id: u64) -> (r: Option<usize>)
        ensures
            match r {
                Some(i) => i < self.users@.len() && self.users@[i as int].discord_id == id,
                None => forall|i: int| 0 <= i < self.users@.len() ==> self.users@[i].discord_id != id,
            },
    {
        let mut i: usize = 0;
        while i < self.users.len()
            invariant
                i <= self.users@.len(),
                forall|k: int| 0 <= k < i ==> self.users@[k].discord_id != id,
            decreases self.users@.len() - i,
        {
            if self.users[i].discord_id == id {
                return Some(i);
            }
            i = i + 1;
        }
        None
    }

    fn ping_index(&self, user: u64, channel: u64) -> (r: Option<usize>)
        ensures
            match r {
                Some(i) => i < self.pings@.len() && ping_key_is(self.pings@[i as int], user, channel),
                None => forall|i: int|
                    0 <= i < self.pings@.len() ==> !ping_key_is(self.pings@[i], user, channel),
            },
    {
        let mut i: usize = 0;
        while i < self.pings.len()
            invariant
                i <= self.pings@.len(),
                forall|k: int| 0 <= k < i ==> !ping_key_is(self.pings@[k], user, channel),
            decreases self.pings@.len() - i,
        {
            if self.pings[i].user_discord_id == user && self.pings[i].discord_channel_id == channel {
                return Some(i);
            }
            i = i + 1;
        }
        None
    }

    fn child_index(&self, child: u64) -> (r: Option<usize>)
        ensures
            match r {
                Some(i) => i < self.children@.len() && self.children@[i as int].child == child,
                None => forall|i: int|
                    0 <= i < self.children@.len() ==> self.children@[i].child != child,
            },
    {
        let mut i: usize = 0;
        while i < self.children.len()
            invariant
                i <= self.children@.len(),
                forall|k: int| 0 <= k < i ==> self.children@[k].child != child,
            decreases self.children@.len() - i,
        {
            if self.children[i].child == child {
                return Some(i);
            }
            i = i + 1;
        }
        None
    }

    /// The user with id `discord_id`, if registered.
    pub fn get_user(&self, discord_id: u64) -> (r: Option<WololoUser>)
        requires
            self.wf(),
        ensures
            r == user_lookup(self.user_rows(), discord_id),
    {
        match self.user_index(discord_id) {
            Some(i) => {
                proof {
                    let k = choose|k: int|
                        0 <= k < self.users@.len() && self.users@[k].discord_id == discord_id;
                    assert(k == i);
                }
                Some(self.users[i])
            },
            None => None,
        }
    }

    /// Registers `discord_id` at `created_at`; `None` when it already is.
    pub fn create_user(&mut self, discord_id: u64, created_at: i64) -> (r: Option<WololoUser>)
        requires
            old(self).wf(),
        ensures
            final(self).wf(),
            final(self).ping_rows() == old(self).ping_rows(),
            final(self).admin_rows() == old(self).admin_rows(),
            final(self).child_rows() == old(self).child_rows(),
            user_lookup(old(self).user_rows(), discord_id) is Some ==> r is None
                && final(self).user_rows() == old(self).user_rows(),
            user_lookup(old(self).user_rows(), discord_id) is None ==> r == Some(
                WololoUser { discord_id, created_at },
            ) && final(self).user_rows() == old(self).user_rows().push(
                WololoUser { discord_id, created_at },
            ),
    {
        match self.user_index(discord_id) {
            Some(_) => None,
            None => {
                let u = WololoUser { discord_id, created_at };
                self.users.push(u);
                Some(u)
            },
        }
    }

    /// The subscription of `user_discord_id` in `discord_channel_id`, if any.
    pub fn get_ping(&self, user_discord_id: u64, discord_channel_id: u64) -> (r: Option<Ping>)
        requires
            self.wf(),
        ensures
            r == ping_lookup(self.ping_rows(), user_discord_id, discord_channel_id),
    {
        match self.ping_index(user_discord_id, discord_channel_id) {
            Some(i) => {
                proof {
                    let k = choose|k: int|
                        0 <= k < self.pings@.len() && ping_key_is(
                            self.pings@[k],
                            user_discord_id,
                            discord_channel_id,
                        );
                    assert(k == i);
                }
                Some(self.pings[i])
            },
            None => None,
        }
    }
    /// The subscriptions in `discord_channel_id` of every user but
    /// `user_discord_id`.
    pub fn get_all_pings_except_for_user(&self, user_discord_id: u64, discord_channel_id: u64) -> (r:
        Vec<Ping>)
        requires
            self.wf(),
        ensures
            r@ == pings_except(self.ping_rows(), user_discord_id, discord_channel_id),
    {
        let mut r: Vec<Ping> = Vec::new();
        let mut i: usize = 0;
        while i < self.pings.len()
            invariant
                i <= self.pings@.len(),
                r@ == pings_except(self.pings@.subrange(0, i as int), user_discord_id, discord_channel_id),
            decreases self.pings@.len() - i,
        {
            let p = self.pings[i];
            proof {
                let s = self.pings@.subrange(0, i as int + 1);
                assert(s.drop_last() =~= self.pings@.subrange(0, i as int));
                reveal(Seq::filter);
            }
            if p.discord_channel_id == discord_channel_id && p.user_discord_id != user_discord_id {
                r.push(p);
            }
            i = i + 1;
        }
        assert(self.pings@.subrange(0, self.pings@.len() as int) =~= self.pings@);
        r
    }

    /// Subscribes `user_discord_id` in `discord_channel_id` at `created_at`;
    /// `None` when that subscription already exists.
    pub fn create_ping(&mut self, user_discord_id: u64, discord_channel_id: u64, created_at: i64) -> (r:
        Option<Ping>)
        requires
            old(self).wf(),
        ensures
            final(self).wf(),
            final(self).user_rows() == old(self).user_rows(),
            final(self).admin_rows() == old(self).admin_rows(),
            final(self).child_rows() == old(self).child_rows(),
            ping_lookup(old(self).ping_rows(), user_discord_id, discord_channel_id) is Some ==> r is None
                && final(self).ping_rows() == old(self).ping_rows(),
            ping_lookup(old(self).ping_rows(), user_discord_id, discord_channel_id) is None ==> r == Some(
                Ping { user_discord_id, discord_channel_id, created_at, last_notified: None },
            ) && final(self).ping_rows() == old(self).ping_rows().push(
                Ping { user_discord_id, discord_channel_id, created_at, last_notified: None },
            ),
    {
        match self.ping_index(user_discord_id, discord_channel_id) {
            Some(_) => None,
            None => {
                let p = Ping { user_discord_id, discord_channel_id, created_at, last_notified: None };
                self.pings.push(p);
                Some(p)
            },
        }
    }

    /// Removes the subscription of `user_discord_id` in `discord_channel_id`;
    /// true when there was one.
    pub fn delete_ping(&mut self, user_discord_id: u64, discord_channel_id: u64) -> (r: bool)
        requires
            old(self).wf(),
        ensures
            final(self).wf(),
            final(self).user_rows() == old(self).user_rows(),
            final(self).admin_rows() == old(self).admin_rows(),
            final(self).child_rows() == old(self).child_rows(),
            r == ping_lookup(old(self).ping_rows(), user_discord_id, discord_channel_id) is Some,
            final(self).ping_rows() == pings_without(old(self).ping_rows(), user_discord_id, discord_channel_id),
    {
        let found = self.ping_index(user_discord_id, discord_channel_id).is_some();
        let mut kept: Vec<Ping> = Vec::new();
        let mut i: usize = 0;
        while i < self.pings.len()
            invariant
                i <= self.pings@.len(),
                unique_pings(self.pings@),
                kept@ == pings_without(self.pings@.subrange(0, i as int), user_discord_id, discord_channel_id),
                unique_pings(kept@),
                forall|k: int| #![trigger kept@[k]] 0 <= k < kept@.len() ==> exists|j: int| #![trigger self.pings@[j]] 0 <= j < i && kept@[k] == self.pings@[j],
            decreases self.pings@.len() - i,
        {
            let p = self.pings[i];
            proof {
                let s = self.pings@.subrange(0, i as int + 1);
                assert(s.drop_last() =~= self.pings@.subrange(0, i as int));
                reveal(Seq::filter);
            }
            if !(p.user_discord_id == user_discord_id && p.discord_channel_id == discord_channel_id) {
                proof {
                    assert forall|k: int| 0 <= k < kept@.len() implies !(kept@[k].user_discord_id
                        == p.user_discord_id && kept@[k].discord_channel_id == p.discord_channel_id) by {
                        let j = choose|j: int| 0 <= j < i && kept@[k] == self.pings@[j];
                    }
                }
                kept.push(p);
            }
            i = i + 1;
        }
        assert(self.pings@.subrange(0, self.pings@.len() as int) =~= self.pings@);
        self.pings = kept;
        found
    }

    /// Stamps the subscription of `ping`'s user in `ping`'s channel as notified
    /// at `at`, provided that user is still registered.
    pub fn update_notified_at_for_ping(&mut self, ping: &Ping, at: i64) -> (r: Result<Ping, StoreError>)
        requires
            old(self).wf(),
        ensures
            final(self).wf(),
            final(self).user_rows() == old(self).user_rows(),
            final(self).admin_rows() == old(self).admin_rows(),
            final(self).child_rows() == old(self).child_rows(),
            ({
                let row = ping_lookup(old(self).ping_rows(), ping.user_discord_id, ping.discord_channel_id);
                if user_lookup(old(self).user_rows(), ping.user_discord_id) is Some && row is Some {
                    &&& r == Ok::<Ping, StoreError>(Ping { last_notified: Some(at), ..row->0 })
                    &&& final(self).ping_rows() == pings_stamped(
                        old(self).ping_rows(),
                        ping.user_discord_id,
                        ping.discord_channel_id,
                        at,
                    )
                } else {
                    &&& r == Err::<Ping, StoreError>(StoreError::NotFound)
                    &&& final(self).ping_rows() == old(self).ping_rows()
                }
            }),
    {
        if self.user_index(ping.user_discord_id).is_none() {
            return Err(StoreError::NotFound);
        }
        match self.ping_index(ping.user_discord_id, ping.discord_channel_id) {
            None => Err(StoreError::NotFound),
            Some(i) => {
                let old_row = self.pings[i];
                let stamped = Ping { last_notified: Some(at), ..old_row };
                proof {
                    let k = choose|k: int|
                        0 <= k < self.pings@.len() && ping_key_is(
                            self.pings@[k],
                            ping.user_discord_id,
                            ping.discord_channel_id,
                        );
                    assert(k == i);
                }
                let ghost before = self.pings@;
                self.pings.set(i, stamped);
                proof {
                    assert(self.pings@ =~= pings_stamped(
                        before,
                        ping.user_discord_id,
                        ping.discord_channel_id,
                        at,
                    ));
                }
                Ok(stamped)
            },
        }
    }

    /// Whether `discord_id` holds admin rights.
    pub fn is_user_admin(&self, discord_id: u64) -> (r: bool)
        requires
            self.wf(),
        ensures
            r == admin_in(self.admin_rows(), discord_id),
    {
        let mut i: usize = 0;
        while i < self.admins.len()
            invariant
                i <= self.admins@.len(),
                forall|k: int| 0 <= k < i ==> self.admins@[k].discord_id != discord_id,
            decreases self.admins@.len() - i,
        {
            if self.admins[i].discord_id == discord_id {
                return true;
            }
            i = i + 1;
        }
        false
    }

    /// Grants admin rights to `discord_id`; `Conflict` when it holds them.
    pub fn create_admin_user(&mut self, discord_id: u64) -> (r: Result<AdminUser, StoreError>)
        requires
            old(self).wf(),
        ensures
            final(self).wf(),
            final(self).user_rows() == old(self).user_rows(),
            final(self).ping_rows() == old(self).ping_rows(),
            final(self).child_rows() == old(self).child_rows(),
            admin_in(old(self).admin_rows(), discord_id) ==> r == Err::<AdminUser, StoreError>(
                StoreError::Conflict,
            ) && final(self).admin_rows() == old(self).admin_rows(),
            !admin_in(old(self).admin_rows(), discord_id) ==> r == Ok::<AdminUser, StoreError>(
                AdminUser { discord_id },
            ) && final(self).admin_rows() == old(self).admin_rows().push(AdminUser { discord_id }),
    {
        if self.is_user_admin(discord_id) {
            return Err(StoreError::Conflict);
        }
        let a = AdminUser { discord_id };
        self.admins.push(a);
        Ok(a)
    }

    /// Records that `c.child` was sent on account of `c.parent`; `Conflict`
    /// when a correlation for that child message exists already.
    pub fn create_child_for_message(&mut self, c: &ParentMessageChildMessage) -> (r: Result<bool, StoreError>)
        requires
            old(self).wf(),
        ensures
            final(self).wf(),
            final(self).user_rows() == old(self).user_rows(),
            final(self).ping_rows() == old(self).ping_rows(),
            final(self).admin_rows() == old(self).admin_rows(),
            child_lookup(old(self).child_rows(), c.child) is Some ==> r == Err::<bool, StoreError>(
                StoreError::Conflict,
            ) && final(self).child_rows() == old(self).child_rows(),
            child_lookup(old(self).child_rows(), c.child) is None ==> r == Ok::<bool, StoreError>(true)
                && final(self).child_rows() == old(self).child_rows().push(*c),
    {
        if self.child_index(c.child).is_some() {
            return Err(StoreError::Conflict);
        }
        self.children.push(*c);
        Ok(true)
    }

    /// The correlation whose child message is `child`, if any.
    pub fn get_parent_message_id_for_child_message_id(&self, child: u64) -> (r: Option<
        ParentMessageChildMessage,
    >)
        requires
            self.wf(),
        ensures
            r == child_lookup(self.child_rows(), child),
    {
        match self.child_index(child) {
            Some(i) => {
                proof {
                    let k = choose|k: int| 0 <= k < self.children@.len() && self.children@[k].child == child;
                    assert(k == i);
                }
                Some(self.children[i])
            },
            None => None,
        }
    }

    /// Removes the correlation of `c.parent` and `c.child`; true when there
    /// was one.
    pub fn delete_child_for_message(&mut self, c: &ParentMessageChildMessage) -> (r: bool)
        requires
            old(self).wf(),
        ensures
            final(self).wf(),
            final(self).user_rows() == old(self).user_rows(),
            final(self).ping_rows() == old(self).ping_rows(),
            final(self).admin_rows() == old(self).admin_rows(),
            r == exists|i: int|
                0 <= i < old(self).child_rows().len() && child_key_is(
                    old(self).child_rows()[i],
                    c.parent,
                    c.child,
                ),
            final(self).child_rows() == children_without(old(self).child_rows(), c.parent, c.child),
    {
        let mut found = false;
        let mut kept: Vec<ParentMessageChildMessage> = Vec::new();
        let mut i: usize = 0;
        while i < self.children.len()
            invariant
                i <= self.children@.len(),
                unique_children(self.children@),
                found == exists|j: int| 0 <= j < i && child_key_is(self.children@[j], c.parent, c.child),
                kept@ == children_without(self.children@.subrange(0, i as int), c.parent, c.child),
                unique_children(kept@),
                forall|k: int|
                    #![trigger kept@[k]]
                    0 <= k < kept@.len() ==> exists|j: int|
                        #![trigger self.children@[j]]
                        0 <= j < i && kept@[k] == self.children@[j],
            decreases self.children@.len() - i,
        {
            let m = self.children[i];
            proof {
                let s = self.children@.subrange(0, i as int + 1);
                assert(s.drop_last() =~= self.children@.subrange(0, i as int));
                reveal(Seq::filter);
            }
            if m.parent == c.parent && m.child == c.child {
                found = true;
            } else {
                proof {
                    assert forall|k: int| 0 <= k < kept@.len() implies kept@[k].child != m.child by {
                        let j = choose|j: int| 0 <= j < i && kept@[k] == self.children@[j];
                    }
                }
                kept.push(m);
            }
            i = i + 1;
        }
        assert(self.children@.subrange(0, self.children@.len() as int) =~= self.children@);
        self.children = kept;
        found
    }
    /// How many users hold admin rights.
    pub fn admin_count(&self) -> (r: usize)
        ensures
            r == self.admin_rows().len(),
    {
        self.admins.len()
    }

    /// How many correlations await a reaction.
    pub fn correlation_count(&self) -> (r: usize)
        ensures
            r == self.child_rows().len(),
    {
        self.children.len()
    }
}

} // verus!
