use vstd::prelude::*;
use crate::model::ParentMessageChildMessage;
use crate::store::{child_key_is, child_lookup, children_without, unique_children, Store};

verus! {

/// The first step on a reaction to message `message_id`: the correlation to
/// relay it through, or `None` when the message is no notification still
/// awaiting one (the reaction is then ignored).
pub fn reaction_added(store: &Store, message_id: u64) -> (r: Option<ParentMessageChildMessage>)
    requires
        store.wf(),
    ensures
        r == child_lookup(store.child_rows(), message_id),
{
    store.get_parent_message_id_for_child_message_id(message_id)
}

/// The last step of a relay: once the reply on the parent message was
/// posted, the correlation is removed so that no later reaction is relayed;
/// when it was not, the correlation stays. True when a row was removed.
pub fn reply_posted(store: &mut Store, link: &ParentMessageChildMessage, posted: bool) -> (r: bool)
    requires
        old(store).wf(),
    ensures
        final(store).wf(),
        final(store).user_rows() == old(store).user_rows(),
        final(store).ping_rows() == old(store).ping_rows(),
        final(store).admin_rows() == old(store).admin_rows(),
        posted ==> final(store).child_rows() == children_without(
            old(store).child_rows(),
            link.parent,
            link.child,
        ),
        !posted ==> final(store).child_rows() == old(store).child_rows() && !r,
        r == (posted && exists|i: int|
            0 <= i < old(store).child_rows().len() && child_key_is(
                old(store).child_rows()[i],
                link.parent,
                link.child,
            )),
{
    if posted {
        store.delete_child_for_message(link)
    } else {
        false
    }
}

/// Once the correlation found for a reaction is removed after its relay, a
/// further reaction on the same message finds none.
pub proof fn lemma_relay_at_most_once(children: Seq<ParentMessageChildMessage>, message_id: u64)
    requires
        unique_children(children),
        child_lookup(children, message_id) is Some,
    ensures
        ({
            let link = child_lookup(children, message_id)->0;
            child_lookup(children_without(children, link.parent, link.child), message_id) is None
        }),
{
    broadcast use vstd::seq_lib::group_filter_ensures;
    let link = child_lookup(children, message_id)->0;
    let k = choose|i: int| 0 <= i < children.len() && children[i].child == message_id;
    let rest = children_without(children, link.parent, link.child);
    if exists|i: int| 0 <= i < rest.len() && rest[i].child == message_id {
        let i = choose|i: int| 0 <= i < rest.len() && rest[i].child == message_id;
        assert(!child_key_is(rest[i], link.parent, link.child));
        crate::store::lemma_filtered_from(children, link.parent, link.child, i);
        let j = choose|j: int| 0 <= j < children.len() && children[j] == rest[i];
        assert(j == k);
    }
}

} // verus!
