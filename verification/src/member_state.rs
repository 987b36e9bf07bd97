//! Roster members, permission levels, and the roster mutation engine.
//!
//! A roster is a fixed-capacity ordered sequence of member slots.  Slots
//! `[0, num_members)` are occupied; slots at or beyond `num_members` hold the
//! default (empty) member.  Occupied slots carry pairwise distinct, non-zero
//! keys.  The engine mutates a roster under these invariants: `add` appends
//! at the first free slot, `remove` shifts the tail left to keep the roster
//! compacted, and `update-permission` rewrites a slot in place.  A mutation
//! that would leave the roster without a single active admin is refused.

use vstd::prelude::*;

use crate::error::ErrorKind;
use crate::pubkey::{is_zero_key, is_zero_pubkey, pubkey_eq, zero_pubkey, Pubkey};

verus! {

/// Number of member slots in a roster.
pub const ROSTER_CAPACITY: usize = 10;

/// Privilege level of a roster member, in increasing order.
#[derive(Clone, Copy, Debug, PartialEq, Eq, Structural)]
pub enum Permission {
    Readonly,
    Vote,
    VoteAndExecute,
    Admin,
}

impl Permission {
    /// The payload byte encoding of a permission level.
    pub open spec fn spec_from_u8(val: u8) -> Permission {
        if val == 1 {
            Permission::Readonly
        } else if val == 2 {
            Permission::Vote
        } else if val == 3 {
            Permission::VoteAndExecute
        } else if val == 4 {
            Permission::Admin
        } else {
            Permission::Readonly
        }
    }

    /// Decode a payload byte into a permission level; unassigned byte values
    /// fall back to the least privilege.
    pub fn from_u8(val: u8) -> (r: Self)
        ensures
            r == Permission::spec_from_u8(val),
    {
        match val {
            1 => Permission::Readonly,
            2 => Permission::Vote,
            3 => Permission::VoteAndExecute,
            4 => Permission::Admin,
            _ => Permission::Readonly,
        }
    }

    /// The stored byte of a permission level, following the declaration
    /// order of the variants.
    pub open spec fn spec_to_u8(self) -> u8 {
        match self {
            Permission::Readonly => 0,
            Permission::Vote => 1,
            Permission::VoteAndExecute => 2,
            Permission::Admin => 3,
        }
    }

    /// Encode a permission level as its stored byte.
    pub fn to_u8(self) -> (r: u8)
        ensures
            r == self.spec_to_u8(),
    {
        match self {
            Permission::Readonly => 0,
            Permission::Vote => 1,
            Permission::VoteAndExecute => 2,
            Permission::Admin => 3,
        }
    }
}

/// One roster slot: a member key, its privilege, and an active flag.
#[derive(Clone, Copy, Debug, PartialEq, Eq)]
pub struct Member {
    pub key: Pubkey,
    pub permissions: Permission,
    pub is_active: u8,
}

/// Whether a member value is the default "empty slot" value.
pub open spec fn is_default_member(m: Member) -> bool {
    &&& is_zero_key(m.key@)
    &&& m.permissions == Permission::Readonly
    &&& m.is_active == 0
}

impl Default for Member {
    /// The empty-slot member: zero key, least privilege, inactive.
    fn default() -> (m: Member)
        ensures
            is_default_member(m),
    {
        Member { key: zero_pubkey(), permissions: Permission::Readonly, is_active: 0 }
    }
}

/// Whether a member counts against the admin-lockout guard.
pub open spec fn is_active_admin(m: Member) -> bool {
    m.permissions == Permission::Admin && m.is_active != 0
}

/// Byte-for-byte equality of two member values.
pub open spec fn member_view_eq(a: Member, b: Member) -> bool {
    &&& a.key@ == b.key@
    &&& a.permissions == b.permissions
    &&& a.is_active == b.is_active
}

/// Byte-for-byte equality of two rosters.
pub open spec fn roster_view_eq(a: Seq<Member>, b: Seq<Member>) -> bool {
    &&& a.len() == b.len()
    &&& forall|i: int| 0 <= i < a.len() ==> member_view_eq(#[trigger] a[i], #[trigger] b[i])
}

/// Number of active admins among the first `n` slots.
pub open spec fn count_active_admins(members: Seq<Member>, n: int) -> int
    decreases n,
{
    if n <= 0 {
        0
    } else {
        count_active_admins(members, n - 1) + if is_active_admin(members[n - 1]) {
            1int
        } else {
            0int
        }
    }
}

/// Structural invariant of a roster: capacity ten, a compacted occupied
/// prefix of pairwise distinct non-zero keys with boolean active flags, and
/// default members in every free slot.
pub open spec fn roster_wf(members: Seq<Member>, num: int) -> bool {
    &&& members.len() == ROSTER_CAPACITY
    &&& 0 <= num <= ROSTER_CAPACITY
    &&& forall|i: int| 0 <= i < num ==> !is_zero_key(#[trigger] members[i].key@)
    &&& forall|i: int| 0 <= i < num ==> (#[trigger] members[i].is_active) <= 1
    &&& forall|i: int, j: int|
        0 <= i < j < num ==> (#[trigger] members[i].key@) != (#[trigger] members[j].key@)
    &&& forall|i: int| num <= i < ROSTER_CAPACITY ==> is_default_member(#[trigger] members[i])
}

/// How a successful add changes a roster: slot `slot` now holds the new
/// member and every other slot is untouched.
pub open spec fn add_transition(
    pre: Seq<Member>,
    post: Seq<Member>,
    slot: int,
    key: Seq<u8>,
    perm: Permission,
    act: u8,
) -> bool {
    &&& post.len() == pre.len()
    &&& post[slot].key@ == key
    &&& post[slot].permissions == perm
    &&& post[slot].is_active == act
    &&& forall|i: int| 0 <= i < pre.len() && i != slot ==> #[trigger] post[i] == pre[i]
}

/// How a successful remove at `idx` changes a roster of `num` occupied
/// slots: the occupied tail shifts left by one, the vacated slot `num - 1`
/// becomes the default member, and free slots stay untouched.
pub open spec fn remove_transition(pre: Seq<Member>, post: Seq<Member>, num: int, idx: int) -> bool {
    &&& post.len() == pre.len()
    &&& forall|i: int| 0 <= i < idx ==> #[trigger] post[i] == pre[i]
    &&& forall|i: int| idx <= i < num - 1 ==> #[trigger] post[i] == pre[i + 1]
    &&& is_default_member(post[num - 1])
    &&& forall|i: int| num <= i < pre.len() ==> #[trigger] post[i] == pre[i]
}

/// How a successful permission update at `idx` changes a roster: the slot
/// keeps its key, takes the new privilege and active flag, and every other
/// slot is untouched.
pub open spec fn set_permission_transition(
    pre: Seq<Member>,
    post: Seq<Member>,
    idx: int,
    perm: Permission,
    act: u8,
) -> bool {
    &&& post.len() == pre.len()
    &&& post[idx].key@ == pre[idx].key@
    &&& post[idx].permissions == perm
    &&& post[idx].is_active == act
    &&& forall|i: int| 0 <= i < pre.len() && i != idx ==> #[trigger] post[i] == pre[i]
}

/// Why an add is refused, or `None` when it must succeed.
pub open spec fn add_error(members: Seq<Member>, num: int, key: Seq<u8>, idx: int) -> Option<
    ErrorKind,
> {
    if num == ROSTER_CAPACITY {
        Some(ErrorKind::RosterFull)
    } else if idx != num {
        Some(ErrorKind::InvalidIndex)
    } else if is_zero_key(key) {
        Some(ErrorKind::InvalidField)
    } else if exists|i: int| 0 <= i < num && (#[trigger] members[i].key@) == key {
        Some(ErrorKind::DuplicateMember)
    } else {
        None
    }
}

/// Why a remove is refused, or `None` when it must succeed.
pub open spec fn remove_error(members: Seq<Member>, num: int, idx: int) -> Option<ErrorKind> {
    if num == 0 {
        Some(ErrorKind::RosterEmpty)
    } else if idx >= num {
        Some(ErrorKind::InvalidIndex)
    } else if is_active_admin(members[idx]) && count_active_admins(members, num) == 1 {
        Some(ErrorKind::LastAdminRemoval)
    } else {
        None
    }
}

/// Why a permission update is refused, or `None` when it must succeed.
pub open spec fn set_permission_error(
    members: Seq<Member>,
    num: int,
    idx: int,
    perm: Permission,
    act: u8,
) -> Option<ErrorKind> {
    if idx >= num {
        Some(ErrorKind::InvalidIndex)
    } else if is_active_admin(members[idx]) && count_active_admins(members, num) == 1 && !(perm
        == Permission::Admin && act != 0) {
        Some(ErrorKind::LastAdminRemoval)
    } else {
        None
    }
}

/// Whether any occupied slot below `num` holds `key`.
pub fn roster_contains_key(members: &Vec<Member>, num: u8, key: &Pubkey) -> (r: bool)
    requires
        num as int <= members@.len(),
    ensures
        r <==> exists|i: int| 0 <= i < num as int && (#[trigger] members@[i].key@) == key@,
{
    let mut i: usize = 0;
    while i < num as usize
        invariant
            i <= num as int,
            num as int <= members@.len(),
            forall|j: int| 0 <= j < i ==> (#[trigger] members@[j].key@) != key@,
        decreases num as int - i,
    {
        if pubkey_eq(&members[i].key, key) {
            return true;
        }
        i = i + 1;
    }
    false
}

/// Count the active admins among the first `num` slots.
pub fn count_active_admins_upto(members: &Vec<Member>, num: u8) -> (c: u8)
    requires
        num as int <= members@.len(),
    ensures
        c as int == count_active_admins(members@, num as int),
        c <= num,
{
    let mut c: u8 = 0;
    let mut i: usize = 0;
    while i < num as usize
        invariant
            i <= num as int,
            num as int <= members@.len(),
            c as int == count_active_admins(members@, i as int),
            c <= i,
        decreases num as int - i,
    {
        let m = members[i];
        if m.permissions == Permission::Admin && m.is_active != 0 {
            c = c + 1;
        }
        i = i + 1;
    }
    c
}

/// Mutate a roster: add a member (`update_type` 0), remove one (1), or
/// rewrite a slot's privilege and active flag (2).  Every precondition is
/// checked before any slot is written, so a refused operation leaves the
/// roster untouched.
pub fn update_member(
    update_type: u8,
    member_key: Pubkey,
    permission: u8,
    is_active: u8,
    member_index: u8,
    members: &mut Vec<Member>,
    num_members: &mut u8,
) -> (r: Result<(), ErrorKind>)
    requires
        roster_wf(old(members)@, *old(num_members) as int),
        is_active <= 1,
    ensures
        roster_wf(final(members)@, *final(num_members) as int),
        r is Err ==> final(members)@ == old(members)@ && *final(num_members) == *old(num_members),
        update_type == 0 ==> (match add_error(
            old(members)@,
            *old(num_members) as int,
            member_key@,
            member_index as int,
        ) {
            Some(e) => r == Err::<(), ErrorKind>(e),
            None => {
                &&& r is Ok
                &&& *final(num_members) == *old(num_members) + 1
                &&& add_transition(
                    old(members)@,
                    final(members)@,
                    *old(num_members) as int,
                    member_key@,
                    Permission::spec_from_u8(permission),
                    is_active,
                )
            },
        }),
        update_type == 1 ==> (match remove_error(
            old(members)@,
            *old(num_members) as int,
            member_index as int,
        ) {
            Some(e) => r == Err::<(), ErrorKind>(e),
            None => {
                &&& r is Ok
                &&& *final(num_members) == *old(num_members) - 1
                &&& remove_transition(
                    old(members)@,
                    final(members)@,
                    *old(num_members) as int,
                    member_index as int,
                )
            },
        }),
        update_type == 2 ==> (match set_permission_error(
            old(members)@,
            *old(num_members) as int,
            member_index as int,
            Permission::spec_from_u8(permission),
            is_active,
        ) {
            Some(e) => r == Err::<(), ErrorKind>(e),
            None => {
                &&& r is Ok
                &&& *final(num_members) == *old(num_members)
                &&& set_permission_transition(
                    old(members)@,
                    final(members)@,
                    member_index as int,
                    Permission::spec_from_u8(permission),
                    is_active,
                )
            },
        }),
        update_type >= 3 ==> r == Err::<(), ErrorKind>(ErrorKind::InvalidField),
{
    match update_type {
        0 => {
            // add member
            if *num_members as usize >= ROSTER_CAPACITY {
                return Err(ErrorKind::RosterFull);
            }
            if member_index != *num_members {
                return Err(ErrorKind::InvalidIndex);
            }
            if is_zero_pubkey(&member_key) {
                return Err(ErrorKind::InvalidField);
            }
            if roster_contains_key(members, *num_members, &member_key) {
                return Err(ErrorKind::DuplicateMember);
            }
            let slot = *num_members as usize;
            members[slot] = Member {
                key: member_key,
                permissions: Permission::from_u8(permission),
                is_active,
            };
            *num_members = *num_members + 1;
            Ok(())
        },
        1 => {
            // remove member
            if *num_members == 0 {
                return Err(ErrorKind::RosterEmpty);
            }
            if member_index >= *num_members {
                return Err(ErrorKind::InvalidIndex);
            }
            let target = members[member_index as usize];
            if target.permissions == Permission::Admin && target.is_active != 0
                && count_active_admins_upto(members, *num_members) == 1 {
                return Err(ErrorKind::LastAdminRemoval);
            }
            let num = *num_members as usize;
            let ghost pre = members@;
            let mut i: usize = member_index as usize;
            while i < num - 1
                invariant
                    member_index as int <= i <= num - 1,
                    num == *num_members as int,
                    1 <= num <= members@.len(),
                    members@.len() == pre.len(),
                    forall|j: int| 0 <= j < member_index as int ==> #[trigger] members@[j] == pre[j],
                    forall|j: int| member_index as int <= j < i ==> #[trigger] members@[j] == pre[j + 1],
                    forall|j: int| i <= j < pre.len() ==> #[trigger] members@[j] == pre[j],
                decreases num - i,
            {
                members[i] = members[i + 1];
                i = i + 1;
            }
            members[num - 1] = Member::default();
            *num_members = *num_members - 1;
            proof {
                lemma_remove_keeps_wf(pre, members@, num as int, member_index as int);
            }
            Ok(())
        },
        2 => {
            // update permission
            if member_index >= *num_members {
                return Err(ErrorKind::InvalidIndex);
            }
            let target = members[member_index as usize];
            let new_permission = Permission::from_u8(permission);
            if target.permissions == Permission::Admin && target.is_active != 0
                && count_active_admins_upto(members, *num_members) == 1
                && !(new_permission == Permission::Admin && is_active != 0) {
                return Err(ErrorKind::LastAdminRemoval);
            }
            let slot = member_index as usize;
            members[slot] = Member { key: target.key, permissions: new_permission, is_active };
            Ok(())
        },
        _ => Err(ErrorKind::InvalidField),
    }
}

/// The count of active admins depends only on the first `n` slots.
proof fn lemma_count_active_admins_congruent(a: Seq<Member>, b: Seq<Member>, n: int)
    requires
        forall|i: int| 0 <= i < n ==> #[trigger] a[i] == b[i],
    ensures
        count_active_admins(a, n) == count_active_admins(b, n),
    decreases n,
{
    if n > 0 {
        lemma_count_active_admins_congruent(a, b, n - 1);
    }
}

/// Law: a member that was just added at the first free slot may be removed
/// again, unless the roster had no active admin and the new member is its
/// only one (the admin-lockout guard then refuses the removal).
pub proof fn lemma_added_member_can_be_removed(
    pre: Seq<Member>,
    mid: Seq<Member>,
    num: int,
    key: Seq<u8>,
    perm: Permission,
    act: u8,
)
    requires
        roster_wf(pre, num),
        num < ROSTER_CAPACITY,
        add_transition(pre, mid, num, key, perm, act),
        !(is_active_admin(mid[num]) && count_active_admins(pre, num) == 0),
    ensures
        remove_error(mid, num + 1, num) is None,
{
    lemma_count_active_admins_congruent(mid, pre, num);
}

/// Law: adding a member and then removing that same member restores the
/// prior roster byte for byte.
pub proof fn lemma_add_then_remove_round_trip(
    pre: Seq<Member>,
    mid: Seq<Member>,
    post: Seq<Member>,
    num: int,
    key: Seq<u8>,
    perm: Permission,
    act: u8,
)
    requires
        roster_wf(pre, num),
        num < ROSTER_CAPACITY,
        add_transition(pre, mid, num, key, perm, act),
        remove_transition(mid, post, num + 1, num),
    ensures
        roster_view_eq(post, pre),
{
    assert forall|i: int| 0 <= i < pre.len() implies member_view_eq(
        #[trigger] post[i],
        #[trigger] pre[i],
    ) by {
        if i < num {
            assert(post[i] == mid[i]);
            assert(mid[i] == pre[i]);
        } else if i == num {
            assert(is_default_member(post[i]));
            assert(is_default_member(pre[i]));
            assert(post[i].key@ =~= pre[i].key@);
        } else {
            assert(post[i] == mid[i]);
            assert(mid[i] == pre[i]);
        }
    }
}

/// A roster stays well formed across the remove shift.
proof fn lemma_remove_keeps_wf(pre: Seq<Member>, post: Seq<Member>, num: int, idx: int)
    requires
        roster_wf(pre, num),
        1 <= num,
        0 <= idx < num,
        remove_transition(pre, post, num, idx),
    ensures
        roster_wf(post, num - 1),
{
    assert forall|i: int| 0 <= i < num - 1 implies !is_zero_key(#[trigger] post[i].key@)
        && post[i].is_active <= 1 by {
        if i < idx {
            assert(post[i] == pre[i]);
        } else {
            assert(post[i] == pre[i + 1]);
        }
    }
    assert forall|i: int, j: int| 0 <= i < j < num - 1 implies (#[trigger] post[i].key@)
        != (#[trigger] post[j].key@) by {
        let pi: int = if i < idx { i } else { i + 1 };
        let pj: int = if j < idx { j } else { j + 1 };
        assert(post[i] == pre[pi]);
        assert(post[j] == pre[pj]);
        assert(0 <= pi < pj < num);
    }
    assert forall|i: int| num - 1 <= i < ROSTER_CAPACITY implies is_default_member(
        #[trigger] post[i],
    ) by {
        if i >= num {
            assert(post[i] == pre[i]);
        }
    }
}

} // verus!
