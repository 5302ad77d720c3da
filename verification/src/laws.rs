//! The library's stated laws: what holds of a group across the
//! configuration workflows, over the state model of `crate::state`.

use vstd::prelude::*;

use crate::addr::Addr;
use crate::state::{
    config_accepted, contains_member, group_after_action, key_present, members_after_add,
    members_after_remove, num_voters, with_creator, ConfigAction, Member,
};

verus! {

/// A group created by the create-group workflow starts with exactly
/// one member: the creator, carrying the permissions it was built
/// with. The workflow passes threshold 1 beside it.
pub proof fn lemma_created_group(cm: Member)
    ensures
        with_creator(Seq::empty(), cm).len() == 1,
        with_creator(Seq::empty(), cm)[0] == cm,
{
    assert(!contains_member(Seq::empty(), cm));
}

/// Applying an add-member action for a key absent from the group
/// grows the member list by exactly one; the new key is absent before
/// and present after, and every prior member stays.
pub proof fn lemma_add_member_effect(members: Seq<Member>, threshold: u16, m: Member)
    requires
        !key_present(members, m.key@),
    ensures
        ({
            let after = group_after_action(members, threshold, ConfigAction::AddMember {
                new_member: m,
            }).0;
            &&& after.len() == members.len() + 1
            &&& key_present(after, m.key@)
            &&& forall|k: Seq<u8>| key_present(members, k) ==> key_present(after, k)
        }),
{
    let after = members_after_add(members, m);
    assert(after[members.len() as int] == m);
    assert forall|k: Seq<u8>| key_present(members, k) implies key_present(after, k) by {
        let i = choose|i: int| 0 <= i < members.len() && members[i].key@ == k;
        assert(after[i] == members[i]);
    }
}

/// Applying a change-threshold action yields exactly the requested
/// threshold and touches no member; when the requested value exceeds
/// the number of voting-capable members (or is zero), the resulting
/// configuration violates the ledger's threshold rule, so the ledger
/// rejects the execution and the orchestration surfaces the rejection
/// as a failed submission rather than silently succeeding.
pub proof fn lemma_change_threshold_effect(members: Seq<Member>, threshold: u16, t: u16)
    ensures
        group_after_action(members, threshold, ConfigAction::ChangeThreshold { new_threshold: t }).1
            == t,
        group_after_action(members, threshold, ConfigAction::ChangeThreshold { new_threshold: t }).0
            == members,
        t > num_voters(members) ==> !config_accepted(
            group_after_action(members, threshold, ConfigAction::ChangeThreshold {
                new_threshold: t,
            }).0,
            t,
        ),
{
}


/// Removal by key over a prefix of the list, by induction: the key is
/// gone, exactly the matching members leave, and every other key
/// stays.
proof fn lemma_remove_helper(ms: Seq<Member>, k: Seq<u8>)
    requires
        forall|i: int, j: int| 0 <= i < j < ms.len() ==> ms[i].key@ != ms[j].key@,
    ensures
        members_after_remove(ms, k).len() == ms.len() - (if key_present(ms, k) {
            1int
        } else {
            0int
        }),
        !key_present(members_after_remove(ms, k), k),
        forall|kk: Seq<u8>| kk != k && key_present(ms, kk) ==> key_present(
            members_after_remove(ms, k),
            kk,
        ),
    decreases ms.len(),
{
    reveal(Seq::filter);
    let after = members_after_remove(ms, k);
    if ms.len() == 0 {
        assert(!key_present(ms, k));
        assert(after.len() == 0);
        assert(!key_present(after, k));
    } else {
        let prefix = ms.drop_last();
        let last = ms.last();
        lemma_remove_helper(prefix, k);
        let after_prefix = members_after_remove(prefix, k);
        if last.key@ != k {
            assert(after =~= after_prefix.push(last));
            // The last member keeps k absent, and carries its own key.
            assert(forall|i: int| 0 <= i < after.len() - 1 ==> after[i] == after_prefix[i]);
            assert(after[after.len() - 1] == last);
            assert(!key_present(after, k));
            // Presence of k in the whole list is presence in the prefix.
            if key_present(ms, k) {
                let w = choose|i: int| 0 <= i < ms.len() && ms[i].key@ == k;
                assert(w < ms.len() - 1);
                assert(prefix[w] == ms[w]);
                assert(key_present(prefix, k));
            }
            assert(key_present(prefix, k) ==> key_present(ms, k));
            assert forall|kk: Seq<u8>| kk != k && key_present(ms, kk) implies key_present(
                after,
                kk,
            ) by {
                let w = choose|i: int| 0 <= i < ms.len() && ms[i].key@ == kk;
                if w < ms.len() - 1 {
                    assert(prefix[w] == ms[w]);
                    assert(key_present(prefix, kk));
                    let u = choose|i: int|
                        0 <= i < after_prefix.len() && after_prefix[i].key@ == kk;
                    assert(after[u] == after_prefix[u]);
                } else {
                    assert(after[after.len() - 1].key@ == kk);
                }
            }
        } else {
            assert(after =~= after_prefix);
            // The removed key stands only at the last position.
            assert(ms[ms.len() - 1].key@ == k);
            assert(key_present(ms, k));
            if key_present(prefix, k) {
                let w = choose|i: int| 0 <= i < prefix.len() && prefix[i].key@ == k;
                assert(ms[w] == prefix[w]);
                assert(false);
            }
            assert forall|kk: Seq<u8>| kk != k && key_present(ms, kk) implies key_present(
                after,
                kk,
            ) by {
                let w = choose|i: int| 0 <= i < ms.len() && ms[i].key@ == kk;
                assert(w < ms.len() - 1);
                assert(prefix[w] == ms[w]);
                assert(key_present(prefix, kk));
            }
        }
    }
}

/// Applying a remove-member action for a present key, on a group with
/// no duplicate members, shrinks the member list by exactly one; the
/// removed key is present before and absent after, and every other
/// member stays.
pub proof fn lemma_remove_member_effect(members: Seq<Member>, threshold: u16, old_member: Addr)
    requires
        forall|i: int, j: int| 0 <= i < j < members.len() ==> members[i].key@ != members[j].key@,
        key_present(members, old_member@),
    ensures
        ({
            let after = group_after_action(members, threshold, ConfigAction::RemoveMember {
                old_member,
            }).0;
            &&& after.len() == members.len() - 1
            &&& !key_present(after, old_member@)
            &&& forall|kk: Seq<u8>| kk != old_member@ && key_present(members, kk) ==> key_present(
                after,
                kk,
            )
        }),
{
    lemma_remove_helper(members, old_member@);
}

} // verus!
