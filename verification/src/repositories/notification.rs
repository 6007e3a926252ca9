//! Where notifications are kept, and the order they are listed in.
use vstd::prelude::*;
use crate::ids::now_millis;
use crate::models::notification::{Notification, NotificationModel};
use crate::shared::error::NotificationError;
use crate::text::same_text;

verus! {

/// `a` may be listed before `b` when listing newest first: it was created
/// later, or at the same time with an id no smaller.
pub open spec fn listed_before(a: NotificationModel, b: NotificationModel) -> bool {
    a.created_at > b.created_at || (a.created_at == b.created_at && a.id >= b.id)
}

pub open spec fn newest_first(s: Seq<NotificationModel>) -> bool {
    forall|i: int, j: int| 0 <= i < j < s.len() ==> listed_before(s[i], s[j])
}

pub open spec fn models(v: Seq<Notification>) -> Seq<NotificationModel> {
    v.map_values(|n: Notification| n@)
}

/// `s` lists, newest first and each once, the notifications of `map` that
/// `pick` selects.
pub open spec fn lists(
    map: Map<u128, NotificationModel>,
    s: Seq<NotificationModel>,
    pick: spec_fn(NotificationModel) -> bool,
) -> bool {
    &&& newest_first(s)
    &&& forall|i: int, j: int| 0 <= i < j < s.len() ==> s[i].id != s[j].id
    &&& forall|i: int|
        #![trigger s[i]]
        0 <= i < s.len() ==> map.contains_key(s[i].id) && map[s[i].id] == s[i] && pick(s[i])
    &&& forall|id: u128|
        #![trigger pick(map[id])]
        map.contains_key(id) && pick(map[id]) ==> exists|i: int| 0 <= i < s.len() && s[i].id == id
}

/// The notifications of a player, or only the unread ones.
pub open spec fn of_player(n: NotificationModel, uid: Seq<char>, unread_only: bool) -> bool {
    n.uid == uid && (!unread_only || n.read_at is None)
}

/// `after` is `before` with every unread notification of `uid` read and
/// nothing else changed.
pub open spec fn marked_read(
    before: Map<u128, NotificationModel>,
    after: Map<u128, NotificationModel>,
    uid: Seq<char>,
) -> bool {
    &&& after.dom() == before.dom()
    &&& forall|id: u128| #[trigger]
        before.contains_key(id) && !of_player(before[id], uid, true) ==> after[id] == before[id]
    &&& forall|id: u128| #[trigger]
        before.contains_key(id) && of_player(before[id], uid, true) ==> after[id].read_at is Some
            && after[id] == (NotificationModel { read_at: after[id].read_at, ..before[id] })
}

/// Inserts `n` where it belongs in a list ordered newest first, and tells
/// where that is.
fn insert_newest_first(list: &mut Vec<Notification>, n: Notification) -> (p: usize)
    requires
        newest_first(models(old(list)@)),
    ensures
        p <= old(list)@.len(),
        models(final(list)@) == models(old(list)@).insert(p as int, n@),
        newest_first(models(final(list)@)),
{
    let mut p: usize = 0;
    while p < list.len() && !(list[p].created_at < n.created_at || (list[p].created_at
        == n.created_at && list[p].id < n.id))
        invariant
            p <= list@.len(),
            list@ == old(list)@,
            newest_first(models(list@)),
            forall|k: int| 0 <= k < p ==> listed_before(#[trigger] list@[k]@, n@),
        decreases list@.len() - p,
    {
        p = p + 1;
    }
    let ghost before = models(list@);
    let ghost nm = n@;
    proof {
        assert forall|k: int| p <= k < before.len() implies listed_before(nm, #[trigger] before[k]) by {
            assert(listed_before(before[p as int], before[k]) || k == p);
        }
    }
    list.insert(p, n);
    proof {
        let after = models(list@);
        assert(after =~= before.insert(p as int, nm));
        assert forall|i: int, j: int| 0 <= i < j < after.len() implies listed_before(
            after[i],
            after[j],
        ) by {
            if j < p {
                assert(after[i] == before[i] && after[j] == before[j]);
            } else if j == p {
                assert(after[i] == before[i]);
            } else if i < p {
                assert(after[i] == before[i] && after[j] == before[j - 1]);
            } else if i == p {
                assert(after[j] == before[j - 1]);
            } else {
                assert(after[i] == before[i - 1] && after[j] == before[j - 1]);
            }
        }
    }
    p
}

/// `s` holds, each once, the notifications among the first `i` of `mods`
/// that `pick` selects, as `map` has them.
pub open spec fn collected(
    map: Map<u128, NotificationModel>,
    mods: Seq<NotificationModel>,
    pick: spec_fn(NotificationModel) -> bool,
    s: Seq<NotificationModel>,
    i: int,
) -> bool {
    &&& forall|a: int, b: int| 0 <= a < b < s.len() ==> s[a].id != s[b].id
    &&& forall|a: int|
        #![trigger s[a]]
        0 <= a < s.len() ==> map.contains_key(s[a].id) && map[s[a].id] == s[a] && pick(s[a])
            && exists|k: int| 0 <= k < i && mods[k].id == s[a].id
    &&& forall|k: int|
        #![trigger pick(mods[k])]
        0 <= k < i && pick(mods[k]) ==> exists|a: int| 0 <= a < s.len() && s[a].id == mods[k].id
}

proof fn lemma_collect_picked(
    map: Map<u128, NotificationModel>,
    mods: Seq<NotificationModel>,
    pick: spec_fn(NotificationModel) -> bool,
    s: Seq<NotificationModel>,
    i: int,
    p: int,
)
    requires
        collected(map, mods, pick, s, i),
        0 <= i < mods.len(),
        0 <= p <= s.len(),
        forall|a: int, b: int| 0 <= a < b < mods.len() ==> mods[a].id != mods[b].id,
        map.contains_key(mods[i].id),
        map[mods[i].id] == mods[i],
        pick(mods[i]),
    ensures
        collected(map, mods, pick, s.insert(p, mods[i]), i + 1),
{
    let t = s.insert(p, mods[i]);
    assert forall|a: int| 0 <= a < s.len() implies s[a].id != mods[i].id by {
        let k = choose|k: int| 0 <= k < i && mods[k].id == s[a].id;
        assert(mods[k].id != mods[i].id);
    }
    assert forall|a: int, b: int| 0 <= a < b < t.len() implies t[a].id != t[b].id by {
        if b < p {
        } else if b == p {
        } else if a < p {
            assert(t[b] == s[b - 1]);
        } else if a == p {
            assert(t[b] == s[b - 1]);
        } else {
            assert(t[a] == s[a - 1] && t[b] == s[b - 1]);
        }
    }
    assert forall|a: int|
        #![trigger t[a]]
        0 <= a < t.len() implies map.contains_key(t[a].id) && map[t[a].id] == t[a] && pick(t[a])
            && exists|k: int| 0 <= k < i + 1 && mods[k].id == t[a].id by {
        if a < p {
            assert(t[a] == s[a]);
        } else if a == p {
            assert(mods[i].id == t[a].id);
        } else {
            assert(t[a] == s[a - 1]);
        }
    }
    assert forall|k: int|
        #![trigger pick(mods[k])]
        0 <= k < i + 1 && pick(mods[k]) implies exists|a: int| 0 <= a < t.len() && t[a].id == mods[k].id by {
        if k == i {
            assert(t[p] == mods[i]);
        } else {
            let a0 = choose|a: int| 0 <= a < s.len() && s[a].id == mods[k].id;
            if a0 < p {
                assert(t[a0] == s[a0]);
            } else {
                assert(t[a0 + 1] == s[a0]);
            }
        }
    }
}

proof fn lemma_collect_skipped(
    map: Map<u128, NotificationModel>,
    mods: Seq<NotificationModel>,
    pick: spec_fn(NotificationModel) -> bool,
    s: Seq<NotificationModel>,
    i: int,
)
    requires
        collected(map, mods, pick, s, i),
        0 <= i < mods.len(),
        !pick(mods[i]),
    ensures
        collected(map, mods, pick, s, i + 1),
{
    assert forall|a: int|
        #![trigger s[a]]
        0 <= a < s.len() implies exists|k: int| 0 <= k < i + 1 && mods[k].id == s[a].id by {
        let k = choose|k: int| 0 <= k < i && mods[k].id == s[a].id;
    }
}

/// What is collected of the first `i` entries stays collected when only
/// later entries change.
proof fn lemma_collect_frame(
    map: Map<u128, NotificationModel>,
    mods: Seq<NotificationModel>,
    pick: spec_fn(NotificationModel) -> bool,
    s: Seq<NotificationModel>,
    i: int,
    map2: Map<u128, NotificationModel>,
    mods2: Seq<NotificationModel>,
)
    requires
        collected(map, mods, pick, s, i),
        0 <= i <= mods.len(),
        mods2.len() == mods.len(),
        forall|k: int| 0 <= k < i ==> mods2[k] == mods[k],
        forall|k: int|
            0 <= k < i ==> map2.contains_key(#[trigger] mods[k].id) == map.contains_key(mods[k].id)
                && map2[mods[k].id] == map[mods[k].id],
    ensures
        collected(map2, mods2, pick, s, i),
{
    assert forall|a: int|
        #![trigger s[a]]
        0 <= a < s.len() implies map2.contains_key(s[a].id) && map2[s[a].id] == s[a] && pick(s[a])
            && exists|k: int| 0 <= k < i && mods2[k].id == s[a].id by {
        let k = choose|k: int| 0 <= k < i && mods[k].id == s[a].id;
        assert(mods2[k] == mods[k]);
    }
    assert forall|k: int|
        #![trigger pick(mods2[k])]
        0 <= k < i && pick(mods2[k]) implies exists|a: int| 0 <= a < s.len() && s[a].id == mods2[k].id by {
        assert(mods2[k] == mods[k]);
    }
}

proof fn lemma_collected_lists(
    map: Map<u128, NotificationModel>,
    mods: Seq<NotificationModel>,
    pick: spec_fn(NotificationModel) -> bool,
    s: Seq<NotificationModel>,
)
    requires
        collected(map, mods, pick, s, mods.len() as int),
        newest_first(s),
        forall|id: u128| #[trigger]
            map.contains_key(id) ==> exists|k: int| 0 <= k < mods.len() && mods[k].id == id,
        forall|k: int|
            #![trigger mods[k]]
            0 <= k < mods.len() ==> map.contains_key(mods[k].id) && map[mods[k].id] == mods[k],
    ensures
        lists(map, s, pick),
{
    assert forall|id: u128|
        #![trigger pick(map[id])]
        map.contains_key(id) && pick(map[id]) implies exists|a: int| 0 <= a < s.len() && s[a].id == id by {
        let k = choose|k: int| 0 <= k < mods.len() && mods[k].id == id;
        assert(map[mods[k].id] == mods[k]);
    }
}

/// Notifications by id. Reads and writes do not fail; reads hand out
/// copies, listed newest first.
pub trait NotificationRepository {
    spec fn notifications(&self) -> Map<u128, NotificationModel>;

    spec fn inv(&self) -> bool;

    proof fn lemma_consistent(&self)
        requires
            self.inv(),
        ensures
            forall|id: u128| #[trigger]
                self.notifications().contains_key(id) ==> self.notifications()[id].id == id,
    ;

    /// All notifications of the player, newest first.
    fn list_by_uid(&self, uid: &str) -> (r: Result<Vec<Notification>, NotificationError>)
        requires
            self.inv(),
        ensures
            r matches Ok(v) && lists(
                self.notifications(),
                models(v@),
                |n: NotificationModel| of_player(n, uid@, false),
            ),
    ;

    /// The unread notifications of the player, newest first.
    fn list_unread_by_uid(&self, uid: &str) -> (r: Result<Vec<Notification>, NotificationError>)
        requires
            self.inv(),
        ensures
            r matches Ok(v) && lists(
                self.notifications(),
                models(v@),
                |n: NotificationModel| of_player(n, uid@, true),
            ),
    ;

    fn find_by_id(&self, id: u128) -> (r: Result<Option<Notification>, NotificationError>)
        requires
            self.inv(),
        ensures
            match r {
                Ok(Some(n)) => self.notifications().contains_key(id) && n@ == self.notifications()[id],
                Ok(None) => !self.notifications().contains_key(id),
                Err(_) => false,
            },
    ;

    /// Stores a notification, in place of the one with its id.
    fn save(&mut self, notification: Notification) -> (r: Result<Notification, NotificationError>)
        requires
            old(self).inv(),
        ensures
            final(self).inv(),
            r matches Ok(n) && n@ == notification@,
            final(self).notifications() == old(self).notifications().insert(
                notification@.id,
                notification@,
            ),
    ;

    /// Marks the player's notification `id` read, now, unless it was read
    /// before. A notification of another player is not found.
    fn mark_read(&mut self, uid: &str, id: u128) -> (r: Result<Notification, NotificationError>)
        requires
            old(self).inv(),
        ensures
            final(self).inv(),
            !(old(self).notifications().contains_key(id) && old(self).notifications()[id].uid
                == uid@) ==> r == Err::<Notification, NotificationError>(NotificationError::NotFound)
                && final(self).notifications() == old(self).notifications(),
            old(self).notifications().contains_key(id) && old(self).notifications()[id].uid == uid@
                ==> (r matches Ok(n) && n@.read_at is Some && (old(self).notifications()[id].read_at is Some
                ==> n@ == old(self).notifications()[id]) && n@ == (NotificationModel {
                read_at: n@.read_at,
                ..old(self).notifications()[id]
            }) && final(self).notifications() == old(self).notifications().insert(id, n@)),
    ;

    /// Marks all unread notifications of the player read, at one moment, and
    /// lists them, newest first.
    fn mark_all_read(&mut self, uid: &str) -> (r: Result<Vec<Notification>, NotificationError>)
        requires
            old(self).inv(),
        ensures
            final(self).inv(),
            marked_read(old(self).notifications(), final(self).notifications(), uid@),
            forall|a: u128, b: u128|
                old(self).notifications().contains_key(a) && of_player(
                    old(self).notifications()[a],
                    uid@,
                    true,
                ) && old(self).notifications().contains_key(b) && of_player(
                    old(self).notifications()[b],
                    uid@,
                    true,
                ) ==> #[trigger] final(self).notifications()[a].read_at == #[trigger] final(self).notifications()[b].read_at,
            r matches Ok(v) && lists(
                final(self).notifications(),
                models(v@),
                |n: NotificationModel|
                    old(self).notifications().contains_key(n.id) && of_player(
                        old(self).notifications()[n.id],
                        uid@,
                        true,
                    ),
            ),
    ;
}

/// Notifications kept in memory, no id twice.
pub struct InMemoryNotificationRepository {
    notifications: Vec<Notification>,
}

impl InMemoryNotificationRepository {
    pub fn new() -> (r: Self)
        ensures
            r.inv(),
            r.notifications() == Map::<u128, NotificationModel>::empty(),
    {
        let r = InMemoryNotificationRepository { notifications: Vec::new() };
        proof {
            assert(r.ids() =~= Seq::<u128>::empty());
            assert(r.notifications() =~= Map::<u128, NotificationModel>::empty());
        }
        r
    }

    spec fn ids(&self) -> Seq<u128> {
        self.notifications@.map_values(|n: Notification| n.id)
    }

    proof fn lemma_lookup(&self, i: int)
        requires
            self.ids().no_duplicates(),
            0 <= i < self.notifications@.len(),
        ensures
            self.notifications().contains_key(self.notifications@[i].id),
            self.notifications()[self.notifications@[i].id] == self.notifications@[i]@,
            self.ids().index_of(self.notifications@[i].id) == i,
    {
        let k = self.ids()[i];
        assert(self.ids().contains(k));
        let j = self.ids().index_of(k);
        self.ids().index_of_first_ensures(k);
        if j != i {
            assert(self.ids()[j] == k);
        }
    }

    proof fn lemma_found(&self, id: u128)
        requires
            self.ids().no_duplicates(),
            self.notifications().contains_key(id),
        ensures
            exists|i: int|
                0 <= i < self.notifications@.len() && self.notifications@[i].id == id,
    {
        let i = self.ids().index_of(id);
        self.ids().index_of_first_ensures(id);
        assert(self.notifications@[i].id == id);
    }

    /// The player's notifications, or only the unread ones, newest first.
    fn collect(&self, uid: &str, unread_only: bool) -> (r: Vec<Notification>)
        requires
            self.inv(),
        ensures
            lists(
                self.notifications(),
                models(r@),
                |n: NotificationModel| of_player(n, uid@, unread_only),
            ),
    {
        let ghost map = self.notifications();
        let ghost mods = models(self.notifications@);
        let ghost pick = |n: NotificationModel| of_player(n, uid@, unread_only);
        proof {
            assert forall|a: int, b: int| 0 <= a < b < mods.len() implies mods[a].id
                != mods[b].id by {
                assert(self.ids()[a] == mods[a].id && self.ids()[b] == mods[b].id);
            }
            assert(collected(map, mods, pick, models(Seq::<Notification>::empty()), 0));
        }
        let mut out: Vec<Notification> = Vec::new();
        let mut i: usize = 0;
        while i < self.notifications.len()
            invariant
                self.inv(),
                map == self.notifications(),
                mods == models(self.notifications@),
                pick == (|n: NotificationModel| of_player(n, uid@, unread_only)),
                forall|a: int, b: int| 0 <= a < b < mods.len() ==> mods[a].id != mods[b].id,
                i <= self.notifications@.len(),
                newest_first(models(out@)),
                collected(map, mods, pick, models(out@), i as int),
            decreases self.notifications@.len() - i,
        {
            let n = &self.notifications[i];
            let wanted = same_text(n.uid.as_str(), uid) && (!unread_only || n.read_at.is_none());
            let ghost prev = models(out@);
            proof {
                self.lemma_lookup(i as int);
                assert(mods[i as int] == self.notifications@[i as int]@);
                assert(wanted == pick(mods[i as int]));
            }
            if wanted {
                let copy = n.duplicate();
                let p = insert_newest_first(&mut out, copy);
                proof {
                    lemma_collect_picked(map, mods, pick, prev, i as int, p as int);
                }
            } else {
                proof {
                    lemma_collect_skipped(map, mods, pick, prev, i as int);
                }
            }
            i = i + 1;
        }
        proof {
            assert forall|id: u128| #[trigger] map.contains_key(id) implies exists|k: int|
                0 <= k < mods.len() && mods[k].id == id by {
                self.lemma_found(id);
                let k = choose|k: int|
                    0 <= k < self.notifications@.len() && self.notifications@[k].id == id;
                assert(mods[k] == self.notifications@[k]@);
            }
            assert forall|k: int|
                #![trigger mods[k]]
                0 <= k < mods.len() implies map.contains_key(mods[k].id) && map[mods[k].id]
                    == mods[k] by {
                self.lemma_lookup(k);
                assert(mods[k] == self.notifications@[k]@);
            }
            lemma_collected_lists(map, mods, pick, models(out@));
        }
        out
    }

    /// Puts `n` in place of the notification at `i`, which has its id.
    fn replace_at(&mut self, i: usize, n: Notification)
        requires
            old(self).inv(),
            i < old(self).notifications@.len(),
            old(self).notifications@[i as int].id == n.id,
        ensures
            final(self).inv(),
            final(self).notifications@ == old(self).notifications@.update(i as int, n),
            final(self).notifications() == old(self).notifications().insert(n.id, n@),
    {
        let ghost id = n.id;
        let ghost model = n@;
        let ghost old_ids = self.ids();
        proof {
            self.lemma_lookup(i as int);
        }
        self.notifications.set(i, n);
        proof {
            assert(self.ids() =~= old_ids);
            assert forall|k: u128| #[trigger]
                self.notifications().contains_key(k) implies self.notifications()[k] == old(self).notifications().insert(id, model)[k] by {
                let j = self.ids().index_of(k);
                self.ids().index_of_first_ensures(k);
                self.lemma_lookup(j);
                if k != id {
                    old(self).lemma_lookup(j);
                }
            }
            assert(self.notifications() =~= old(self).notifications().insert(id, model));
        }
    }

    /// The position of the notification with `id`.
    fn position(&self, id: u128) -> (r: Option<usize>)
        requires
            self.inv(),
        ensures
            match r {
                Some(i) => i < self.notifications@.len() && self.notifications@[i as int].id == id,
                None => !self.notifications().contains_key(id),
            },
    {
        let mut i: usize = 0;
        while i < self.notifications.len()
            invariant
                i <= self.notifications@.len(),
                forall|j: int| 0 <= j < i ==> self.ids()[j] != id,
            decreases self.notifications@.len() - i,
        {
            if self.notifications[i].id == id {
                return Some(i);
            }
            i = i + 1;
        }
        proof {
            if self.ids().contains(id) {
                let j = choose|j: int| 0 <= j < self.ids().len() && self.ids()[j] == id;
                assert(self.ids()[j] == id);
            }
        }
        None
    }
}

impl NotificationRepository for InMemoryNotificationRepository {
    closed spec fn notifications(&self) -> Map<u128, NotificationModel> {
        Map::new(
            |id: u128| self.ids().contains(id),
            |id: u128| self.notifications@[self.ids().index_of(id)]@,
        )
    }

    closed spec fn inv(&self) -> bool {
        self.ids().no_duplicates()
    }

    proof fn lemma_consistent(&self) {
        assert forall|id: u128| #[trigger]
            self.notifications().contains_key(id) implies self.notifications()[id].id == id by {
            self.ids().index_of_first_ensures(id);
        }
    }

    fn list_by_uid(&self, uid: &str) -> (r: Result<Vec<Notification>, NotificationError>) {
        Ok(self.collect(uid, false))
    }

    fn list_unread_by_uid(&self, uid: &str) -> (r: Result<Vec<Notification>, NotificationError>) {
        Ok(self.collect(uid, true))
    }

    fn find_by_id(&self, id: u128) -> (r: Result<Option<Notification>, NotificationError>) {
        match self.position(id) {
            Some(i) => {
                proof {
                    self.lemma_lookup(i as int);
                }
                Ok(Some(self.notifications[i].duplicate()))
            },
            None => Ok(None),
        }
    }

    fn save(&mut self, notification: Notification) -> (r: Result<Notification, NotificationError>) {
        let copy = notification.duplicate();
        let ghost id = notification.id;
        let ghost model = notification@;
        let ghost old_ids = self.ids();
        match self.position(notification.id) {
            Some(i) => {
                self.replace_at(i, notification);
            },
            None => {
                self.notifications.push(notification);
                proof {
                    assert(self.ids() =~= old_ids.push(id));
                    assert forall|a: int, b: int|
                        0 <= a < self.ids().len() && 0 <= b < self.ids().len() && a != b implies self.ids()[a]
                        != self.ids()[b] by {
                        if a == old_ids.len() as int {
                            assert(old_ids.contains(self.ids()[b]) || b == a);
                        } else if b == old_ids.len() as int {
                            assert(old_ids.contains(self.ids()[a]));
                        }
                    }
                    assert forall|k: u128|
                        self.notifications().contains_key(k) <==> old(self).notifications().insert(
                            id,
                            model,
                        ).contains_key(k) by {
                        if old_ids.contains(k) {
                            let j = choose|j: int| 0 <= j < old_ids.len() && old_ids[j] == k;
                            assert(self.ids()[j] == k);
                        }
                        if k == id {
                            assert(self.ids()[old_ids.len() as int] == k);
                        }
                        if self.ids().contains(k) && k != id {
                            let j = choose|j: int| 0 <= j < self.ids().len() && self.ids()[j] == k;
                            assert(old_ids[j] == k);
                        }
                    }
                    assert forall|k: u128| #[trigger]
                        self.notifications().contains_key(k) implies self.notifications()[k]
                        == old(self).notifications().insert(id, model)[k] by {
                        let j = self.ids().index_of(k);
                        self.ids().index_of_first_ensures(k);
                        self.lemma_lookup(j);
                        if k != id {
                            old(self).lemma_lookup(j);
                        }
                    }
                    assert(self.notifications() =~= old(self).notifications().insert(id, model));
                }
            },
        }
        Ok(copy)
    }

    fn mark_read(&mut self, uid: &str, id: u128) -> (r: Result<Notification, NotificationError>) {
        let p = match self.position(id) {
            Some(p) => p,
            None => return Err(NotificationError::NotFound),
        };
        proof {
            self.lemma_lookup(p as int);
        }
        if !same_text(self.notifications[p].uid.as_str(), uid) {
            return Err(NotificationError::NotFound);
        }
        if self.notifications[p].read_at.is_some() {
            return Ok(self.notifications[p].duplicate());
        }
        let mut updated = self.notifications[p].duplicate();
        updated.read_at = Some(now_millis());
        let copy = updated.duplicate();
        self.replace_at(p, updated);
        Ok(copy)
    }

    fn mark_all_read(&mut self, uid: &str) -> (r: Result<Vec<Notification>, NotificationError>) {
        let ghost old_map = self.notifications();
        let ghost olds = self.notifications@;
        let ghost pick = |n: NotificationModel|
            old_map.contains_key(n.id) && of_player(old_map[n.id], uid@, true);
        let now = now_millis();
        let ghost marked = |n: NotificationModel|
            if of_player(n, uid@, true) {
                NotificationModel { read_at: Some(now as int), ..n }
            } else {
                n
            };
        proof {
            assert forall|a: int, b: int| 0 <= a < b < olds.len() implies olds[a].id
                != olds[b].id by {
                assert(self.ids()[a] == olds[a].id && self.ids()[b] == olds[b].id);
            }
            assert(collected(
                self.notifications(),
                models(self.notifications@),
                pick,
                models(Seq::<Notification>::empty()),
                0,
            ));
        }
        let mut out: Vec<Notification> = Vec::new();
        let mut i: usize = 0;
        while i < self.notifications.len()
            invariant
                self.inv(),
                old_map == old(self).notifications(),
                olds == old(self).notifications@,
                pick == (|n: NotificationModel|
                    old_map.contains_key(n.id) && of_player(old_map[n.id], uid@, true)),
                marked == (|n: NotificationModel|
                    if of_player(n, uid@, true) {
                        NotificationModel { read_at: Some(now as int), ..n }
                    } else {
                        n
                    }),
                forall|a: int, b: int| 0 <= a < b < olds.len() ==> olds[a].id != olds[b].id,
                i <= self.notifications@.len(),
                self.notifications@.len() == olds.len(),
                forall|k: int| 0 <= k < olds.len() ==> #[trigger] self.notifications@[k].id == olds[k].id,
                forall|k: int| i <= k < olds.len() ==> #[trigger] self.notifications@[k] == olds[k],
                forall|k: int| 0 <= k < i ==> #[trigger] self.notifications@[k]@ == marked(olds[k]@),
                newest_first(models(out@)),
                collected(self.notifications(), models(self.notifications@), pick, models(out@), i as int),
            decreases olds.len() - i,
        {
            let ghost map_before = self.notifications();
            let ghost mods_before = models(self.notifications@);
            let ghost prev = models(out@);
            proof {
                old(self).lemma_lookup(i as int);
                assert(self.notifications@[i as int] == olds[i as int]);
                assert(mods_before[i as int] == olds[i as int]@);
                assert(pick(mods_before[i as int]) == of_player(olds[i as int]@, uid@, true));
            }
            let wanted = same_text(self.notifications[i].uid.as_str(), uid)
                && self.notifications[i].read_at.is_none();
            if wanted {
                let mut updated = self.notifications[i].duplicate();
                updated.read_at = Some(now);
                let copy = updated.duplicate();
                let ghost upd = updated@;
                self.replace_at(i, updated);
                proof {
                    let map_after = self.notifications();
                    let mods_after = models(self.notifications@);
                    assert(mods_after =~= mods_before.update(i as int, upd));
                    assert forall|k: int|
                        0 <= k < i implies map_after.contains_key(#[trigger] mods_before[k].id)
                            == map_before.contains_key(mods_before[k].id)
                            && map_after[mods_before[k].id] == map_before[mods_before[k].id] by {
                        assert(mods_before[k].id == olds[k].id);
                    }
                    lemma_collect_frame(
                        map_before,
                        mods_before,
                        pick,
                        prev,
                        i as int,
                        map_after,
                        mods_after,
                    );
                    assert(upd == marked(olds[i as int]@));
                }
                let p = insert_newest_first(&mut out, copy);
                proof {
                    let mods_after = models(self.notifications@);
                    assert forall|a: int, b: int| 0 <= a < b < mods_after.len() implies mods_after[a].id
                        != mods_after[b].id by {
                        assert(mods_after[a].id == olds[a].id && mods_after[b].id == olds[b].id);
                    }
                    lemma_collect_picked(
                        self.notifications(),
                        mods_after,
                        pick,
                        prev,
                        i as int,
                        p as int,
                    );
                }
            } else {
                proof {
                    assert(self.notifications@[i as int]@ == marked(olds[i as int]@));
                    lemma_collect_skipped(
                        self.notifications(),
                        models(self.notifications@),
                        pick,
                        prev,
                        i as int,
                    );
                }
            }
            i = i + 1;
        }
        proof {
            let map = self.notifications();
            let mods = models(self.notifications@);
            assert forall|id: u128| #[trigger] map.contains_key(id) implies exists|k: int|
                0 <= k < mods.len() && mods[k].id == id by {
                self.lemma_found(id);
                let k = choose|k: int|
                    0 <= k < self.notifications@.len() && self.notifications@[k].id == id;
                assert(mods[k] == self.notifications@[k]@);
            }
            assert forall|k: int|
                #![trigger mods[k]]
                0 <= k < mods.len() implies map.contains_key(mods[k].id) && map[mods[k].id]
                    == mods[k] by {
                self.lemma_lookup(k);
                assert(mods[k] == self.notifications@[k]@);
            }
            lemma_collected_lists(map, mods, pick, models(out@));
            assert forall|id: u128| map.contains_key(id) <==> old_map.contains_key(id) by {
                if map.contains_key(id) {
                    self.lemma_found(id);
                    let k = choose|k: int|
                        0 <= k < self.notifications@.len() && self.notifications@[k].id == id;
                    old(self).lemma_lookup(k);
                }
                if old_map.contains_key(id) {
                    old(self).lemma_found(id);
                    let k = choose|k: int| 0 <= k < olds.len() && olds[k].id == id;
                    self.lemma_lookup(k);
                }
            }
            assert(map.dom() =~= old_map.dom());
            assert forall|id: u128| #[trigger] old_map.contains_key(id) implies map[id] == marked(
                old_map[id],
            ) by {
                old(self).lemma_found(id);
                let k = choose|k: int| 0 <= k < olds.len() && olds[k].id == id;
                old(self).lemma_lookup(k);
                self.lemma_lookup(k);
            }
        }
        Ok(out)
    }
}

} // verus!
