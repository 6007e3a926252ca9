//! What holds across the operations of the library.
use vstd::prelude::*;
use crate::models::organization::{
    without_uid, InviteModel, MemberModel, OrganizationInviteStatus, OrganizationKind,
    OrganizationModel,
};
use crate::models::actor::{updated_by, ActorModel, ActorSnapshot};
use crate::models::bank::{recorded, BankTransactionModel, PlayerBankProfileModel, TRANSACTION_HISTORY};
use crate::models::notification::NotificationModel;
use crate::ids::{lemma_uuid_text_not_blank, uuid_text};
use crate::repositories::organization::pending_for;
use crate::text::blank;
use crate::models::money::Money;
use std::cmp::Ordering;
use vstd::std_specs::cmp::PartialOrdSpec;
use crate::models::names::{
    add_unique_spec, first_index, lemma_add_unique_contains, lemma_add_unique_idempotent,
    lemma_add_unique_no_duplicates, lemma_add_unique_prefix, lemma_first_index_exists,
    no_duplicates,
};
use crate::models::v_garage::{VGarageModel, VehicleCategory};
use crate::models::fuel::{fuel_named, lower_text, FuelType};
use crate::text::trim;
use crate::models::v_locker::{EquipmentCategory, VLockerModel};
use crate::models::service::{ServiceKind, ServiceReceipt};
use crate::repositories::notification::marked_read;
use crate::services::bank::{charged, withdraw_error};
use crate::services::medical::medical_outcome;
use crate::services::payment::paid;
use crate::shared::error::{OrganizationError, ServiceError};
use crate::services::organization::{
    accept_outcome, decline_outcome, disband_outcome, transfer_out, distinct_uids, kick_outcome, leave_outcome, payday_outcome,
    payday_recipients, stored_default, with_members, Invites, Orgs,
};

verus! {

/// Every organization is stored under its own id.
pub open spec fn orgs_consistent(orgs: Orgs) -> bool {
    forall|k: Seq<char>| #[trigger] orgs.contains_key(k) ==> orgs[k].id == k
}

/// Every invite is stored under its own id.
pub open spec fn invites_consistent(invites: Invites) -> bool {
    forall|k: Seq<char>| #[trigger] invites.contains_key(k) ==> invites[k].id == k
}

/// Taking a player out of a member list leaves no entry of it, keeps
/// every other entry, and adds none.
pub proof fn lemma_without_uid(members: Seq<MemberModel>, uid: Seq<char>)
    ensures
        forall|i: int|
            0 <= i < without_uid(members, uid).len() ==> (#[trigger] without_uid(members, uid)[i]).uid
                != uid && members.contains(without_uid(members, uid)[i]),
        forall|i: int|
            0 <= i < members.len() && (#[trigger] members[i]).uid != uid ==> without_uid(
                members,
                uid,
            ).contains(members[i]),
    decreases members.len(),
{
    if members.len() > 0 {
        let init = members.drop_last();
        lemma_without_uid(init, uid);
        let rest = without_uid(init, uid);
        let out = without_uid(members, uid);
        assert forall|i: int| 0 <= i < out.len() implies (#[trigger] out[i]).uid != uid
            && members.contains(out[i]) by {
            if i < rest.len() {
                assert(out[i] == rest[i]);
                let j = choose|j: int| 0 <= j < init.len() && init[j] == rest[i];
                assert(members[j] == init[j]);
            } else {
                assert(out[i] == members.last());
                assert(members[members.len() - 1] == members.last());
            }
        }
        assert forall|i: int|
            0 <= i < members.len() && (#[trigger] members[i]).uid != uid implies out.contains(
                members[i],
            ) by {
            if i < init.len() {
                assert(init[i] == members[i]);
                let j = choose|j: int| 0 <= j < rest.len() && rest[j] == init[i];
                assert(out[j] == rest[j]);
            } else {
                assert(out[out.len() - 1] == members.last());
            }
        }
    }
}

/// The organization without a player does not list it.
pub proof fn lemma_without_member(o: OrganizationModel, uid: Seq<char>)
    ensures
        !o.without_member(uid).has_member(uid),
        o.without_member(uid).id == o.id,
        o.without_member(uid).kind == o.kind,
        o.without_member(uid).bank == o.bank,
{
    lemma_without_uid(o.members, uid);
    if o.without_member(uid).has_member(uid) {
        let i = choose|i: int|
            0 <= i < o.without_member(uid).members.len() && o.without_member(uid).members[i].uid
                == uid;
        assert(without_uid(o.members, uid)[i].uid != uid);
    }
}

/// An organization lists a player it was given, and nothing else changes.
pub proof fn lemma_with_member(o: OrganizationModel, uid: Seq<char>)
    ensures
        o.with_member(uid).has_member(uid),
        o.with_member(uid).id == o.id,
        o.with_member(uid).kind == o.kind,
        o.with_member(uid).bank == o.bank,
        forall|u: Seq<char>| o.has_member(u) ==> #[trigger] o.with_member(uid).has_member(u),
{
    let w = o.with_member(uid);
    if !o.has_member(uid) {
        assert(w.members[o.members.len() as int].uid == uid);
        assert forall|u: Seq<char>| o.has_member(u) implies #[trigger] w.has_member(u) by {
            let i = choose|i: int| 0 <= i < o.members.len() && o.members[i].uid == u;
            assert(w.members[i] == o.members[i]);
        }
    }
}

/// Adding a player who is a member already changes nothing: joining twice
/// is joining once.
pub proof fn law_join_is_idempotent(o: OrganizationModel, uid: Seq<char>)
    ensures
        o.with_member(uid).with_member(uid) == o.with_member(uid),
{
    lemma_with_member(o, uid);
}

/// The default organization after members join it keeps who was there,
/// lists every one who joined, and stays the same organization.
pub proof fn lemma_with_members(d: OrganizationModel, members: Seq<MemberModel>)
    ensures
        with_members(d, members).id == d.id,
        with_members(d, members).kind == d.kind,
        with_members(d, members).bank == d.bank,
        forall|u: Seq<char>| d.has_member(u) ==> #[trigger] with_members(d, members).has_member(u),
        forall|i: int|
            0 <= i < members.len() ==> with_members(d, members).has_member(#[trigger] members[i].uid),
    decreases members.len(),
{
    if members.len() > 0 {
        let init = members.drop_last();
        lemma_with_members(d, init);
        let before = with_members(d, init);
        lemma_with_member(before, members.last().uid);
        assert forall|i: int| 0 <= i < members.len() implies with_members(d, members).has_member(
            #[trigger] members[i].uid,
        ) by {
            if i < init.len() {
                assert(init[i] == members[i]);
                assert(before.has_member(init[i].uid));
            }
        }
    }
}

/// Each uid of a member list once, and nothing else.
pub proof fn lemma_distinct_uids(members: Seq<MemberModel>)
    ensures
        distinct_uids(members).no_duplicates(),
        forall|i: int|
            0 <= i < members.len() ==> distinct_uids(members).contains(#[trigger] members[i].uid),
        forall|i: int|
            0 <= i < distinct_uids(members).len() ==> exists|j: int|
                0 <= j < members.len() && members[j].uid == #[trigger] distinct_uids(members)[i],
    decreases members.len(),
{
    if members.len() > 0 {
        let init = members.drop_last();
        lemma_distinct_uids(init);
        let rest = distinct_uids(init);
        let out = distinct_uids(members);
        let u = members.last().uid;
        assert forall|i: int| 0 <= i < members.len() implies out.contains(#[trigger] members[i].uid) by {
            if i < init.len() {
                assert(init[i] == members[i]);
                let j = choose|j: int| 0 <= j < rest.len() && rest[j] == init[i].uid;
                assert(out[j] == rest[j]);
            } else if !rest.contains(u) {
                assert(out[rest.len() as int] == u);
            }
        }
        assert forall|i: int| 0 <= i < out.len() implies exists|j: int|
            0 <= j < members.len() && members[j].uid == #[trigger] out[i] by {
            if i < rest.len() {
                assert(out[i] == rest[i]);
                let j = choose|j: int| 0 <= j < init.len() && init[j].uid == rest[i];
                assert(members[j] == init[j]);
            } else {
                assert(members[members.len() - 1].uid == u);
            }
        }
    }
}

/// The recipients of a payday: never the issuer, each once, all members,
/// and every member but the issuer.
pub proof fn lemma_payday_recipients(members: Seq<MemberModel>, issuer: Seq<char>)
    ensures
        payday_recipients(members, issuer).no_duplicates(),
        !payday_recipients(members, issuer).contains(issuer),
        forall|i: int|
            0 <= i < payday_recipients(members, issuer).len() ==> exists|j: int|
                0 <= j < members.len() && members[j].uid == #[trigger] payday_recipients(
                    members,
                    issuer,
                )[i],
        forall|i: int|
            0 <= i < members.len() && (#[trigger] members[i]).uid != issuer ==> payday_recipients(
                members,
                issuer,
            ).contains(members[i].uid),
    decreases members.len(),
{
    if members.len() > 0 {
        let init = members.drop_last();
        lemma_payday_recipients(init, issuer);
        let rest = payday_recipients(init, issuer);
        let out = payday_recipients(members, issuer);
        let u = members.last().uid;
        assert forall|i: int| 0 <= i < out.len() implies exists|j: int|
            0 <= j < members.len() && members[j].uid == #[trigger] out[i] by {
            if i < rest.len() {
                assert(out[i] == rest[i]);
                let j = choose|j: int| 0 <= j < init.len() && init[j].uid == rest[i];
                assert(members[j] == init[j]);
            } else {
                assert(members[members.len() - 1].uid == u);
            }
        }
        assert forall|i: int|
            0 <= i < members.len() && (#[trigger] members[i]).uid != issuer implies out.contains(
                members[i].uid,
            ) by {
            if i < init.len() {
                assert(init[i] == members[i]);
                let j = choose|j: int| 0 <= j < rest.len() && rest[j] == init[i].uid;
                assert(out[j] == rest[j]);
            } else if !rest.contains(u) {
                assert(out[rest.len() as int] == u);
            }
        }
        if out.contains(issuer) {
            let j = choose|j: int| 0 <= j < out.len() && out[j] == issuer;
            if j < rest.len() {
                assert(out[j] == rest[j]);
            }
        }
    }
}

/// Before a player joins another organization it is taken out of the one
/// that lists it, which is otherwise unchanged; no other organization
/// changes. The CEO of a player organization is not taken out.
pub proof fn law_transfer_takes_player_out(orgs: Orgs, current: Option<Seq<char>>, uid: Seq<char>)
    requires
        orgs_consistent(orgs),
        current matches Some(c) ==> orgs.contains_key(c),
    ensures
        current is None ==> transfer_out(orgs, current, uid) == Ok::<Orgs, OrganizationError>(orgs),
        current matches Some(c) ==> match transfer_out(orgs, current, uid) {
            Ok(after) => {
                &&& after.contains_key(c)
                &&& !after[c].has_member(uid)
                &&& after[c].id == orgs[c].id && after[c].kind == orgs[c].kind && after[c].bank
                    == orgs[c].bank
                &&& forall|k: Seq<char>|
                    k != c ==> (#[trigger] after.contains_key(k) == orgs.contains_key(k) && (
                    orgs.contains_key(k) ==> after[k] == orgs[k]))
            },
            Err(e) => e == OrganizationError::LastCeoCannotLeave && orgs[c].is_ceo(uid)
                && orgs[c].kind == OrganizationKind::Player,
        },
{
    if let Some(c) = current {
        lemma_without_member(orgs[c], uid);
    }
}

/// The founder of a player organization is its CEO.
pub proof fn law_founder_is_ceo(id: Seq<char>, name: Seq<char>, ceo: Seq<char>)
    ensures
        OrganizationModel::player(id, name, ceo).has_member(ceo),
        OrganizationModel::player(id, name, ceo).is_ceo(ceo),
{
    let o = OrganizationModel::player(id, name, ceo);
    assert(o.members[0].uid == ceo);
    assert(o.member_index(ceo) == Some(0int)) by {
        let i = choose|i: int|
            0 <= i < o.members.len() && o.members[i].uid == ceo && forall|j: int|
                0 <= j < i ==> o.members[j].uid != ceo;
        assert(0 <= 0 < o.members.len() && o.members[0].uid == ceo && forall|j: int|
            0 <= j < 0 ==> o.members[j].uid != ceo);
    }
}

/// Leaving a player organization takes the member out of it and puts it in
/// the default organization; no other organization changes.
pub proof fn law_leave_moves_member_to_default(
    orgs: Orgs,
    organization_id: Seq<char>,
    uid: Seq<char>,
)
    requires
        orgs_consistent(orgs),
        organization_id != "default"@,
    ensures
        leave_outcome(orgs, organization_id, uid) matches Ok((left, joined, after)) ==> {
            &&& !left.has_member(uid)
            &&& joined.has_member(uid)
            &&& joined.kind == stored_default(orgs).kind
            &&& after.contains_key(organization_id) && after[organization_id] == left
            &&& after.contains_key("default"@) && after["default"@] == joined
            &&& forall|k: Seq<char>|
                k != organization_id && k != "default"@ ==> (#[trigger] after.contains_key(k)
                    == orgs.contains_key(k) && (orgs.contains_key(k) ==> after[k] == orgs[k]))
        },
{
    if let Ok((left, joined, after)) = leave_outcome(orgs, organization_id, uid) {
        let o = orgs[organization_id];
        lemma_without_member(o, uid);
        let m = orgs.insert(left.id, left);
        lemma_with_member(stored_default(m), uid);
        assert(stored_default(m) == stored_default(orgs));
    }
}

/// Kicking a member out of a player organization puts it in the default
/// organization; no other organization changes.
pub proof fn law_kick_moves_member_to_default(
    orgs: Orgs,
    organization_id: Seq<char>,
    actor_uid: Seq<char>,
    kicked_uid: Seq<char>,
)
    requires
        orgs_consistent(orgs),
        organization_id != "default"@,
    ensures
        kick_outcome(orgs, organization_id, actor_uid, kicked_uid) matches Ok(
            (left, joined, after),
        ) ==> {
            &&& !left.has_member(kicked_uid)
            &&& joined.has_member(kicked_uid)
            &&& after.contains_key(organization_id) && after[organization_id] == left
            &&& after.contains_key("default"@) && after["default"@] == joined
            &&& forall|k: Seq<char>|
                k != organization_id && k != "default"@ ==> (#[trigger] after.contains_key(k)
                    == orgs.contains_key(k) && (orgs.contains_key(k) ==> after[k] == orgs[k]))
        },
{
    if let Ok((left, joined, after)) = kick_outcome(orgs, organization_id, actor_uid, kicked_uid) {
        let o = orgs[organization_id];
        lemma_without_member(o, kicked_uid);
        let m = orgs.insert(left.id, left);
        lemma_with_member(stored_default(m), kicked_uid);
        assert(stored_default(m) == stored_default(orgs));
    }
}

/// Disbanding removes the organization; every one of its members is then
/// in the default organization, with those who were there before, and each
/// moved player is reported once.
pub proof fn law_disband_reassigns_every_member(
    orgs: Orgs,
    organization_id: Seq<char>,
    ceo_uid: Seq<char>,
)
    requires
        orgs_consistent(orgs),
        organization_id != "default"@,
    ensures
        disband_outcome(orgs, organization_id, ceo_uid) matches Ok(
            (disbanded, joined, moved, after),
        ) ==> {
            &&& !after.contains_key(organization_id)
            &&& after.contains_key("default"@) && after["default"@] == joined
            &&& forall|i: int|
                0 <= i < disbanded.members.len() ==> joined.has_member(
                    #[trigger] disbanded.members[i].uid,
                )
            &&& forall|u: Seq<char>|
                stored_default(orgs).has_member(u) ==> #[trigger] joined.has_member(u)
            &&& moved.no_duplicates()
            &&& forall|i: int|
                0 <= i < disbanded.members.len() ==> moved.contains(
                    #[trigger] disbanded.members[i].uid,
                )
        },
{
    if let Ok((disbanded, joined, moved, after)) = disband_outcome(orgs, organization_id, ceo_uid) {
        lemma_with_members(stored_default(orgs), disbanded.members);
        lemma_distinct_uids(disbanded.members);
    }
}

/// A payday charges the organization's bank the amount once per recipient;
/// the recipients are members other than the issuer, each once, and every
/// such member is one; the bank does not go below zero.
pub proof fn law_payday_pays_each_member_once(
    orgs: Orgs,
    uid: Seq<char>,
    organization_id: Seq<char>,
    amount: Option<int>,
    in_default_ceo_slot: bool,
)
    ensures
        payday_outcome(orgs, uid, organization_id, amount, in_default_ceo_slot) matches Ok(
            (charged, each, recipients),
        ) ==> {
            let o = orgs[organization_id];
            &&& charged.bank == o.bank - each * recipients.len()
            &&& charged.bank >= 0
            &&& each > 0
            &&& charged.members == o.members
            &&& recipients.no_duplicates()
            &&& !recipients.contains(uid)
            &&& forall|i: int| 0 <= i < recipients.len() ==> o.has_member(#[trigger] recipients[i])
            &&& forall|i: int|
                0 <= i < o.members.len() && (#[trigger] o.members[i]).uid != uid
                    ==> recipients.contains(o.members[i].uid)
        },
{
    if let Ok((charged, each, recipients)) = payday_outcome(
        orgs,
        uid,
        organization_id,
        amount,
        in_default_ceo_slot,
    ) {
        lemma_payday_shape(orgs, uid, organization_id, amount, in_default_ceo_slot);
        let o = orgs[organization_id];
        lemma_payday_recipients(o.members, uid);
        assert forall|i: int| 0 <= i < recipients.len() implies o.has_member(
            #[trigger] recipients[i],
        ) by {
            let j = choose|j: int| 0 <= j < o.members.len() && o.members[j].uid == recipients[i];
        }
    }
}

proof fn lemma_payday_shape(
    orgs: Orgs,
    uid: Seq<char>,
    organization_id: Seq<char>,
    amount: Option<int>,
    in_default_ceo_slot: bool,
)
    requires
        payday_outcome(orgs, uid, organization_id, amount, in_default_ceo_slot) is Ok,
    ensures
        payday_outcome(orgs, uid, organization_id, amount, in_default_ceo_slot) matches Ok(
            (charged, each, recipients),
        ) && charged == (OrganizationModel {
            bank: orgs[organization_id].bank - each * recipients.len(),
            ..orgs[organization_id]
        }) && recipients == payday_recipients(orgs[organization_id].members, uid) && each > 0
            && orgs[organization_id].bank >= each * recipients.len(),
{
}

/// Accepting an invite makes the invitee a member of the inviting
/// organization and marks the invite accepted; the organization it was in
/// before no longer lists it.
pub proof fn law_accept_moves_invitee(
    orgs: Orgs,
    invites: Invites,
    current: Option<Seq<char>>,
    invitee_uid: Seq<char>,
    invite_id: Seq<char>,
)
    requires
        orgs_consistent(orgs),
        invites_consistent(invites),
        current matches Some(c) ==> orgs.contains_key(c),
    ensures
        accept_outcome(orgs, invites, current, invitee_uid, invite_id) matches Ok(
            (joined, accepted, after_orgs, after_invites),
        ) ==> {
            &&& joined.has_member(invitee_uid)
            &&& joined.id == invites[invite_id].organization_id
            &&& after_orgs.contains_key(joined.id) && after_orgs[joined.id] == joined
            &&& accepted.status == OrganizationInviteStatus::Accepted
            &&& after_invites.contains_key(invite_id) && after_invites[invite_id] == accepted
            &&& (current matches Some(c) ==> (c != joined.id ==> after_orgs.contains_key(c)
                && !after_orgs[c].has_member(invitee_uid)))
        },
{
    if let Ok((joined, accepted, after_orgs, after_invites)) = accept_outcome(
        orgs,
        invites,
        current,
        invitee_uid,
        invite_id,
    ) {
        let invite = invites[invite_id];
        let o = orgs[invite.organization_id];
        lemma_with_member(o, invitee_uid);
        if let Some(c) = current {
            lemma_without_member(orgs[c], invitee_uid);
        }
    }
}

/// An invite just made can be accepted by its id: the invitee joins the
/// inviting organization as a plain member and the invite is marked
/// accepted. This holds whenever the organization is there, the invitee is
/// not in it yet and may leave the organization it is in (it is not the
/// CEO of a player organization). Accepting the same invite again is then
/// refused as no longer pending.
pub proof fn law_created_invite_can_be_accepted(
    orgs: Orgs,
    invites: Invites,
    current: Option<Seq<char>>,
    later: Option<Seq<char>>,
    invitee_uid: Seq<char>,
    invite: InviteModel,
)
    requires
        orgs_consistent(orgs),
        !blank(invitee_uid),
        uuid_text(invite.id),
        pending_for(invite, invite.organization_id, invitee_uid),
        !blank(invite.organization_id),
        orgs.contains_key(invite.organization_id),
        !orgs[invite.organization_id].has_member(invitee_uid),
        transfer_out(orgs, current, invitee_uid) is Ok,
    ensures
        accept_outcome(orgs, invites.insert(invite.id, invite), current, invitee_uid, invite.id) matches Ok(
            (joined, accepted, after_orgs, after_invites),
        ) && {
            &&& joined.has_member(invitee_uid) && !joined.is_ceo(invitee_uid)
            &&& joined.id == invite.organization_id
            &&& accepted == (InviteModel { status: OrganizationInviteStatus::Accepted, ..invite })
            &&& accept_outcome(after_orgs, after_invites, later, invitee_uid, invite.id) == Err::<
                (OrganizationModel, InviteModel, Orgs, Invites),
                OrganizationError,
            >(OrganizationError::InviteNotPending)
        },
{
    lemma_uuid_text_not_blank(invite.id);
    let o = orgs[invite.organization_id];
    lemma_with_member(o, invitee_uid);
    let w = o.with_member(invitee_uid);
    let n = o.members.len() as int;
    assert(w.members[n].uid == invitee_uid);
    let i = choose|i: int|
        0 <= i < w.members.len() && w.members[i].uid == invitee_uid && forall|j: int|
            0 <= j < i ==> w.members[j].uid != invitee_uid;
    if i < n {
        assert(w.members[i] == o.members[i]);
        assert(o.has_member(invitee_uid));
    }
    assert(w.member_index(invitee_uid) == Some(n));
    let stored = invites.insert(invite.id, invite);
    let m = transfer_out(orgs, current, invitee_uid)->Ok_0;
    let accepted = InviteModel { status: OrganizationInviteStatus::Accepted, ..invite };
    assert(accept_outcome(orgs, stored, current, invitee_uid, invite.id) == Ok::<
        (OrganizationModel, InviteModel, Orgs, Invites),
        OrganizationError,
    >((w, accepted, m.insert(w.id, w), stored.insert(invite.id, accepted))));
    let after = stored.insert(invite.id, accepted);
    assert(accept_outcome(m.insert(w.id, w), after, later, invitee_uid, invite.id) == Err::<
        (OrganizationModel, InviteModel, Orgs, Invites),
        OrganizationError,
    >(OrganizationError::InviteNotPending));
}

/// A repository gives back what was last stored under a key, and nothing
/// once it was deleted.
pub proof fn law_read_after_write<K, V>(stored: Map<K, V>, key: K, value: V)
    ensures
        stored.insert(key, value).contains_key(key),
        stored.insert(key, value)[key] == value,
        !stored.remove(key).contains_key(key),
        forall|k: K| k != key ==> #[trigger] stored.insert(key, value).contains_key(k) == stored.contains_key(k),
{
}

/// A profile keeps the ten newest transactions, newest first: the one just
/// recorded, then the earlier ones in their order.
pub proof fn law_history_keeps_newest(history: Seq<BankTransactionModel>, t: BankTransactionModel)
    ensures
        recorded(history, t).len() == (if history.len() + 1 > TRANSACTION_HISTORY {
            TRANSACTION_HISTORY as int
        } else {
            history.len() + 1int
        }),
        recorded(history, t)[0] == t,
        forall|k: int|
            1 <= k < recorded(history, t).len() ==> #[trigger] recorded(history, t)[k] == history[k
                - 1],
{
}

/// A charge the bank accepts never overdraws: the balance is lower by the
/// amount and not below zero.
pub proof fn law_charge_never_overdraws(
    profiles: Map<Seq<char>, PlayerBankProfileModel>,
    uid: Seq<char>,
    amount: int,
    after: PlayerBankProfileModel,
)
    requires
        withdraw_error(profiles, uid, amount) is None,
        charged(profiles[uid], after, amount),
    ensures
        after.account.balance == profiles[uid].account.balance - amount,
        after.account.balance >= 0,
        amount > 0,
{
}

/// Paying for a service changes the payer's account only.
pub proof fn law_payment_touches_only_the_payer(
    before: Map<Seq<char>, PlayerBankProfileModel>,
    after: Map<Seq<char>, PlayerBankProfileModel>,
    uid: Seq<char>,
    amount: int,
)
    requires
        paid(before, after, uid, amount),
    ensures
        after[uid].account.balance == before[uid].account.balance - amount,
        forall|k: Seq<char>|
            k != uid ==> #[trigger] after.contains_key(k) == before.contains_key(k) && (
            before.contains_key(k) ==> after[k] == before[k]),
{
}

/// A medical service for no fee charges nothing, whatever it answers.
pub proof fn law_free_treatment_charges_nothing(
    before: Map<Seq<char>, PlayerBankProfileModel>,
    after: Map<Seq<char>, PlayerBankProfileModel>,
    r: Result<ServiceReceipt, ServiceError>,
    uid: Seq<char>,
    kind: ServiceKind,
    description: Seq<char>,
)
    requires
        medical_outcome(before, after, r, uid, 0, kind, description),
    ensures
        after == before,
{
}

/// After marking all of a player's notifications read, none of them is
/// unread.
pub proof fn law_mark_all_read_leaves_nothing_unread(
    before: Map<u128, NotificationModel>,
    after: Map<u128, NotificationModel>,
    uid: Seq<char>,
)
    requires
        marked_read(before, after, uid),
    ensures
        forall|id: u128| #[trigger] after.contains_key(id) && after[id].uid == uid ==> after[id].read_at is Some,
{
    assert forall|id: u128| #[trigger] after.contains_key(id) && after[id].uid == uid implies after[id].read_at is Some by {
        assert(before.contains_key(id));
    }
}

/// A returning actor keeps its uid, organization and creation time.
pub proof fn law_rejoin_keeps_identity(before: ActorModel, after: ActorModel, snapshot: ActorSnapshot)
    requires
        updated_by(before, after, snapshot),
    ensures
        after.uid == before.uid,
        after.organization == before.organization,
        after.created_at == before.created_at,
{
}

/// Unlocking a new classname in a virtual locker and removing it again
/// gives back the locker as it was: the removal finds the classname where
/// it was added, at the end of its category. A second removal then finds
/// nothing, so it gives nothing and changes nothing.
pub proof fn law_v_locker_add_then_remove(
    locker: VLockerModel,
    category: EquipmentCategory,
    classname: Seq<char>,
)
    requires
        classname.len() > 0,
        !locker.get(category).contains(classname),
    ensures
        ({
            let added = locker.add(category, seq![classname]);
            let at = locker.get(category).len() as int;
            &&& first_index(added.get(category), classname) == Some(at)
            &&& added.with(category, added.get(category).remove(at)) == locker
        }),
        first_index(locker.get(category), classname) is None,
{
    let before = locker.get(category);
    let one = seq![classname];
    assert(one.drop_last() =~= Seq::<Seq<char>>::empty());
    assert(add_unique_spec(before, one.drop_last()) == before);
    assert(one.last() == classname);
    assert(add_unique_spec(before, one) == before.push(classname));
    let added = locker.add(category, one);
    assert(added.get(category) == before.push(classname));
    let at = before.len() as int;
    assert forall|j: int| 0 <= j < at implies added.get(category)[j] != classname by {
        assert(added.get(category)[j] == before[j]);
        if before[j] == classname {
            assert(before.contains(classname));
        }
    }
    lemma_first_index_exists(added.get(category), classname, at);
    assert(before.push(classname).remove(at) =~= before);
    assert(added.with(category, added.get(category).remove(at)) =~= locker);
}

/// Amounts compare as their cents do: one is below another exactly when
/// it has fewer cents, and equal exactly when it has as many.
pub proof fn law_money_order(a: Money, b: Money)
    ensures
        (a.partial_cmp_spec(&b) == Some(Ordering::Less)) <==> a@ < b@,
        (a.partial_cmp_spec(&b) == Some(Ordering::Equal)) <==> a@ == b@,
        (a.partial_cmp_spec(&b) == Some(Ordering::Greater)) <==> a@ > b@,
{
}

/// Unlocking names in one list: a list that holds no name twice and no
/// empty name keeps both properties; what was there stays first, in its
/// order; afterwards the list holds exactly what it held before and the
/// non-empty names added; and unlocking the same names again changes
/// nothing.
pub proof fn law_unlock_names(before: Seq<Seq<char>>, added: Seq<Seq<char>>)
    requires
        no_duplicates(before),
        forall|i: int| 0 <= i < before.len() ==> (#[trigger] before[i]).len() > 0,
    ensures
        no_duplicates(add_unique_spec(before, added)),
        forall|i: int|
            0 <= i < add_unique_spec(before, added).len() ==> (#[trigger] add_unique_spec(
                before,
                added,
            )[i]).len() > 0,
        add_unique_spec(before, added).take(before.len() as int) == before,
        forall|x: Seq<char>|
            #[trigger] add_unique_spec(before, added).contains(x) <==> (before.contains(x) || (
            x.len() > 0 && added.contains(x))),
        add_unique_spec(add_unique_spec(before, added), added) == add_unique_spec(before, added),
{
    let after = add_unique_spec(before, added);
    lemma_add_unique_no_duplicates(before, added);
    lemma_add_unique_prefix(before, added);
    lemma_add_unique_idempotent(before, added);
    assert forall|x: Seq<char>| #[trigger] after.contains(x) <==> (before.contains(x) || (x.len()
        > 0 && added.contains(x))) by {
        lemma_add_unique_contains(before, added, x);
    }
    assert forall|i: int| 0 <= i < after.len() implies (#[trigger] after[i]).len() > 0 by {
        lemma_add_unique_contains(before, added, after[i]);
        assert(after.contains(after[i]));
        if before.contains(after[i]) {
            let k = choose|k: int| 0 <= k < before.len() && before[k] == after[i];
            assert(before[k].len() > 0);
        }
    }
}

/// Unlocking equipment changes only the category it is for, and there
/// does what `law_unlock_names` says.
pub proof fn law_v_locker_add(locker: VLockerModel, category: EquipmentCategory, added: Seq<Seq<char>>)
    ensures
        locker.add(category, added).get(category) == add_unique_spec(locker.get(category), added),
        forall|other: EquipmentCategory|
            other != category ==> #[trigger] locker.add(category, added).get(other) == locker.get(other),
        locker.add(category, added).add(category, added) == locker.add(category, added),
{
    lemma_add_unique_idempotent(locker.get(category), added);
    let once = locker.add(category, added);
    assert(once.add(category, added) =~= once);
}

/// Unlocking vehicles changes only the category it is for, and there does
/// what `law_unlock_names` says.
pub proof fn law_v_garage_add(garage: VGarageModel, category: VehicleCategory, added: Seq<Seq<char>>)
    ensures
        garage.add(category, added).get(category) == add_unique_spec(garage.get(category), added),
        forall|other: VehicleCategory|
            other != category ==> #[trigger] garage.add(category, added).get(other) == garage.get(other),
        garage.add(category, added).add(category, added) == garage.add(category, added),
{
    lemma_add_unique_idempotent(garage.get(category), added);
    let once = garage.add(category, added);
    assert(once.add(category, added) =~= once);
}

/// Removing a name finds it exactly when the list holds it, and then at
/// its first occurrence.
pub proof fn law_remove_finds_first(list: Seq<Seq<char>>, name: Seq<char>)
    ensures
        first_index(list, name) is Some <==> list.contains(name),
        first_index(list, name) matches Some(i) ==> 0 <= i < list.len() && list[i] == name
            && forall|j: int| 0 <= j < i ==> list[j] != name,
    decreases list.len(),
{
    if list.contains(name) {
        let rest = list.drop_last();
        if rest.contains(name) {
            law_remove_finds_first(rest, name);
            let k = first_index(rest, name)->0;
            assert forall|j: int| 0 <= j < k implies list[j] != name by {
                assert(list[j] == rest[j]);
            }
            assert(list[k] == rest[k]);
            lemma_first_index_exists(list, name, k);
        } else {
            let k = list.len() - 1;
            let w = choose|w: int| 0 <= w < list.len() && list[w] == name;
            if w < k {
                assert(rest[w] == name);
            }
            assert forall|j: int| 0 <= j < k implies list[j] != name by {
                assert(list[j] == rest[j]);
                if list[j] == name {
                    assert(rest.contains(name));
                }
            }
            lemma_first_index_exists(list, name, k);
        }
    }
}

/// Removing a vehicle from one category leaves the other categories as
/// they were.
pub proof fn law_v_garage_remove_keeps_others(
    garage: VGarageModel,
    category: VehicleCategory,
    list: Seq<Seq<char>>,
)
    ensures
        garage.with(category, list).get(category) == list,
        forall|other: VehicleCategory|
            other != category ==> #[trigger] garage.with(category, list).get(other) == garage.get(other),
{
}

/// Removing equipment from one category leaves the other categories as
/// they were.
pub proof fn law_v_locker_remove_keeps_others(
    locker: VLockerModel,
    category: EquipmentCategory,
    list: Seq<Seq<char>>,
)
    ensures
        locker.with(category, list).get(category) == list,
        forall|other: EquipmentCategory|
            other != category ==> #[trigger] locker.with(category, list).get(other) == locker.get(other),
{
}

/// A fuel name is read ignoring surrounding whitespace and ASCII case:
/// `regular` is regular fuel; `jeta1`, `jet_a1` and `jet-a1` are Jet A-1;
/// nothing else names a fuel.
pub proof fn law_fuel_spellings(text: Seq<char>)
    ensures
        lower_text(trim(text)) == "regular"@ ==> fuel_named(text) == Some(FuelType::Regular),
        lower_text(trim(text)) == "jeta1"@ ==> fuel_named(text) == Some(FuelType::Jeta1),
        lower_text(trim(text)) == "jet_a1"@ ==> fuel_named(text) == Some(FuelType::Jeta1),
        lower_text(trim(text)) == "jet-a1"@ ==> fuel_named(text) == Some(FuelType::Jeta1),
        fuel_named(text) is Some ==> lower_text(trim(text)) == "regular"@ || lower_text(trim(text))
            == "jeta1"@ || lower_text(trim(text)) == "jet_a1"@ || lower_text(trim(text)) == "jet-a1"@,
{
    reveal_strlit("regular");
    reveal_strlit("jeta1");
    reveal_strlit("jet_a1");
    reveal_strlit("jet-a1");
    assert("regular"@.len() == 7);
    assert("jeta1"@.len() == 5);
    assert("jet_a1"@.len() == 6);
    assert("jet_a1"@[3] != "jeta1"@[3]);
}

/// Declining succeeds exactly for a pending invite of the player under a
/// non-blank id. It then gives the invite with its status Declined and
/// nothing else changed, stores it under its id and leaves every other
/// invite as it was.
pub proof fn law_decline_marks_declined(invites: Invites, invitee_uid: Seq<char>, invite_id: Seq<char>)
    requires
        invites_consistent(invites),
    ensures
        decline_outcome(invites, invitee_uid, invite_id) is Ok <==> (!blank(invitee_uid) && !blank(
            invite_id,
        ) && invites.contains_key(invite_id) && invites[invite_id].invitee_uid == invitee_uid
            && invites[invite_id].status == OrganizationInviteStatus::Pending),
        decline_outcome(invites, invitee_uid, invite_id) matches Ok((declined, after)) ==> {
            &&& declined.status == OrganizationInviteStatus::Declined
            &&& declined.id == invite_id
            &&& declined.organization_id == invites[invite_id].organization_id
            &&& declined.inviter_uid == invites[invite_id].inviter_uid
            &&& declined.invitee_uid == invitee_uid
            &&& after.contains_key(invite_id) && after[invite_id] == declined
            &&& forall|k: Seq<char>| k != invite_id ==> #[trigger] after.contains_key(k)
                == invites.contains_key(k) && (invites.contains_key(k) ==> after[k] == invites[k])
        },
{
}

/// An update from a snapshot takes the snapshot's name, direction, stance,
/// rank, life state and holster, and its loadout and position where the
/// snapshot asks to keep them.
pub proof fn law_update_takes_snapshot_state(before: ActorModel, after: ActorModel, snapshot: ActorSnapshot)
    requires
        updated_by(before, after, snapshot),
    ensures
        after.name == snapshot.name@,
        after.direction == snapshot.direction,
        after.stance == snapshot.stance,
        after.rank == snapshot.rank,
        after.life_state == snapshot.life_state,
        after.holster == snapshot.holster,
        snapshot.persist_loadout ==> after.loadout == snapshot.loadout,
        snapshot.persist_position ==> after.position == snapshot.position,
{
}

/// Merging unlocks into a virtual garage does, in every category, what
/// adding that category's unlocks does: every non-empty classname of the
/// unlocks is then there, everything that was there stays first in its
/// order, and nothing else comes in.
pub proof fn law_v_garage_merge(garage: VGarageModel, unlocks: VGarageModel)
    ensures
        forall|c: VehicleCategory|
            #[trigger] garage.merge(unlocks).get(c) == garage.add(c, unlocks.get(c)).get(c),
        forall|c: VehicleCategory, x: Seq<char>|
            x.len() > 0 && #[trigger] unlocks.get(c).contains(x) ==> garage.merge(unlocks).get(
                c,
            ).contains(x),
        forall|c: VehicleCategory|
            #[trigger] garage.merge(unlocks).get(c).take(garage.get(c).len() as int) == garage.get(c),
        forall|c: VehicleCategory, x: Seq<char>|
            #[trigger] garage.merge(unlocks).get(c).contains(x) ==> garage.get(c).contains(x) || (
            x.len() > 0 && unlocks.get(c).contains(x)),
{
    assert forall|c: VehicleCategory, x: Seq<char>|
        x.len() > 0 && #[trigger] unlocks.get(c).contains(x) implies garage.merge(unlocks).get(
            c,
        ).contains(x) by {
        lemma_add_unique_contains(garage.get(c), unlocks.get(c), x);
    }
    assert forall|c: VehicleCategory|
        #[trigger] garage.merge(unlocks).get(c).take(garage.get(c).len() as int) == garage.get(c) by {
        lemma_add_unique_prefix(garage.get(c), unlocks.get(c));
    }
    assert forall|c: VehicleCategory, x: Seq<char>|
        #[trigger] garage.merge(unlocks).get(c).contains(x) implies garage.get(c).contains(x) || (
        x.len() > 0 && unlocks.get(c).contains(x)) by {
        lemma_add_unique_contains(garage.get(c), unlocks.get(c), x);
    }
}

/// Merging unlocks into a virtual locker does, in every category, what
/// adding that category's unlocks does: every non-empty classname of the
/// unlocks is then there, everything that was there stays first in its
/// order, and nothing else comes in.
pub proof fn law_v_locker_merge(locker: VLockerModel, unlocks: VLockerModel)
    ensures
        forall|c: EquipmentCategory|
            #[trigger] locker.merge(unlocks).get(c) == locker.add(c, unlocks.get(c)).get(c),
        forall|c: EquipmentCategory, x: Seq<char>|
            x.len() > 0 && #[trigger] unlocks.get(c).contains(x) ==> locker.merge(unlocks).get(
                c,
            ).contains(x),
        forall|c: EquipmentCategory|
            #[trigger] locker.merge(unlocks).get(c).take(locker.get(c).len() as int) == locker.get(c),
        forall|c: EquipmentCategory, x: Seq<char>|
            #[trigger] locker.merge(unlocks).get(c).contains(x) ==> locker.get(c).contains(x) || (
            x.len() > 0 && unlocks.get(c).contains(x)),
{
    assert forall|c: EquipmentCategory, x: Seq<char>|
        x.len() > 0 && #[trigger] unlocks.get(c).contains(x) implies locker.merge(unlocks).get(
            c,
        ).contains(x) by {
        lemma_add_unique_contains(locker.get(c), unlocks.get(c), x);
    }
    assert forall|c: EquipmentCategory|
        #[trigger] locker.merge(unlocks).get(c).take(locker.get(c).len() as int) == locker.get(c) by {
        lemma_add_unique_prefix(locker.get(c), unlocks.get(c));
    }
    assert forall|c: EquipmentCategory, x: Seq<char>|
        #[trigger] locker.merge(unlocks).get(c).contains(x) implies locker.get(c).contains(x) || (
        x.len() > 0 && unlocks.get(c).contains(x)) by {
        lemma_add_unique_contains(locker.get(c), unlocks.get(c), x);
    }
}

} // verus!
