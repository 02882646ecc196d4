use crate::address::Address;
use vstd::prelude::*;

verus! {

/// One reserved notification.
#[derive(Clone, Debug)]
pub struct Notification {
    pub notification_id: String,
    /// Set once the notification has been finalized; never cleared.
    pub sent: bool,
    /// The address allowed to finalize this notification.
    pub updater: Address,
}

/// A notification as a mathematical value.
pub struct NotificationView {
    pub id: Seq<char>,
    pub sent: bool,
    pub updater: Seq<u8>,
}

impl View for Notification {
    type V = NotificationView;

    open spec fn view(&self) -> NotificationView {
        NotificationView { id: self.notification_id@, sent: self.sent, updater: self.updater@ }
    }
}

/// The ledger as a mathematical value.
pub struct LedgerView {
    pub initialized: bool,
    pub vault: Seq<u8>,
    pub fee: u64,
    pub notifications: Seq<NotificationView>,
}

/// Whether some record of `ns` carries `id`.
pub open spec fn has_id(ns: Seq<NotificationView>, id: Seq<char>) -> bool {
    exists|i: int| 0 <= i < ns.len() && #[trigger] ns[i].id == id
}

/// No two records of `ns` carry the same id.
pub open spec fn ids_unique(ns: Seq<NotificationView>) -> bool {
    forall|i: int, j: int|
        0 <= i < ns.len() && 0 <= j < ns.len() && i != j ==> #[trigger] ns[i].id != #[trigger] ns[j].id
}

/// The position in `ns` of a record that carries `id`; meaningful where
/// `has_id(ns, id)`.
pub open spec fn index_of(ns: Seq<NotificationView>, id: Seq<char>) -> int {
    choose|i: int| 0 <= i < ns.len() && #[trigger] ns[i].id == id
}

/// The record of `ns` that carries `id`; meaningful where `has_id(ns, id)`.
pub open spec fn record_of(ns: Seq<NotificationView>, id: Seq<char>) -> NotificationView {
    ns[index_of(ns, id)]
}

/// The ledger of one deployment: where fees go, how much each notification
/// costs, and every notification reserved so far, in order of reservation.
#[derive(Debug)]
pub struct MainData {
    pub(crate) initialized: bool,
    pub(crate) vault: Address,
    pub(crate) fee: u64,
    pub(crate) notifications: Vec<Notification>,
}

impl View for MainData {
    type V = LedgerView;

    closed spec fn view(&self) -> LedgerView {
        LedgerView {
            initialized: self.initialized,
            vault: self.vault@,
            fee: self.fee,
            notifications: self.notifications@.map_values(|n: Notification| n@),
        }
    }
}

impl MainData {
    /// Well-formed: notification ids are unique.
    pub open spec fn wf(&self) -> bool {
        ids_unique(self@.notifications)
    }

    /// An empty, not yet initialized ledger: what the host allocates before
    /// `init` runs.
    pub fn new() -> (r: MainData)
        ensures
            r.wf(),
            !r@.initialized,
            r@.vault == seq![0u8; 32],
            r@.fee == 0,
            r@.notifications.len() == 0,
    {
        let r = MainData {
            initialized: false,
            vault: Address::new([0u8; 32]),
            fee: 0,
            notifications: Vec::new(),
        };
        assert(r@.vault =~= seq![0u8; 32]);
        assert(r@.notifications =~= Seq::<NotificationView>::empty());
        r
    }

    /// Rebuilds a ledger from its stored parts; `None` where two of the
    /// notifications share an id.
    pub fn from_parts(initialized: bool, vault: Address, fee: u64, notifications: Vec<Notification>) -> (r:
        Option<MainData>)
        ensures
            match r {
                Some(l) => l.wf() && l@ == (LedgerView {
                    initialized,
                    vault: vault@,
                    fee,
                    notifications: notifications@.map_values(|n: Notification| n@),
                }),
                None => !ids_unique(notifications@.map_values(|n: Notification| n@)),
            },
    {
        let ghost all = notifications@.map_values(|n: Notification| n@);
        let mut l = MainData { initialized, vault, fee, notifications: Vec::new() };
        let mut i: usize = 0;
        assert(l@.notifications =~= all.take(0));
        while i < notifications.len()
            invariant
                0 <= i <= notifications.len(),
                all == notifications@.map_values(|n: Notification| n@),
                l.wf(),
                l@.initialized == initialized,
                l@.vault == vault@,
                l@.fee == fee,
                l@.notifications == all.take(i as int),
            decreases notifications.len() - i,
        {
            let n = &notifications[i];
            if l.position(&n.notification_id).is_some() {
                proof {
                    let k = choose|k: int|
                        0 <= k < i && #[trigger] all.take(i as int)[k].id == n.notification_id@;
                    assert(all[k].id == all[i as int].id);
                }
                return None;
            }
            let copy = Notification {
                notification_id: n.notification_id.clone(),
                sent: n.sent,
                updater: n.updater,
            };
            l.insert(copy);
            assert(l@.notifications =~= all.take(i + 1));
            i = i + 1;
        }
        assert(all.take(i as int) =~= all);
        Some(l)
    }

    pub fn is_initialized(&self) -> (r: bool)
        ensures
            r == self@.initialized,
    {
        self.initialized
    }

    /// The address that receives the fees.
    pub fn vault_address(&self) -> (r: Address)
        ensures
            r@ == self@.vault,
    {
        self.vault
    }

    /// The amount charged for each notification.
    pub fn fee_amount(&self) -> (r: u64)
        ensures
            r == self@.fee,
    {
        self.fee
    }

    pub fn len(&self) -> (r: usize)
        ensures
            r == self@.notifications.len(),
    {
        self.notifications.len()
    }

    /// Fills a ledger that was not initialized yet: fees of `fee` go to
    /// `vault`, and no notification is reserved.
    pub(crate) fn set_up(&mut self, vault: Address, fee: u64)
        ensures
            final(self).wf(),
            final(self)@ == (LedgerView {
                initialized: true,
                vault: vault@,
                fee,
                notifications: Seq::empty(),
            }),
    {
        self.initialized = true;
        self.vault = vault;
        self.fee = fee;
        self.notifications = Vec::new();
        assert(self@.notifications =~= Seq::<NotificationView>::empty());
    }

    /// The position of the record that carries `id`.
    pub(crate) fn position(&self, id: &String) -> (r: Option<usize>)
        ensures
            match r {
                Some(i) => i < self@.notifications.len() && self@.notifications[i as int].id == id@,
                None => !has_id(self@.notifications, id@),
            },
    {
        let mut i: usize = 0;
        while i < self.notifications.len()
            invariant
                0 <= i <= self.notifications.len(),
                forall|k: int| 0 <= k < i ==> self@.notifications[k].id != id@,
            decreases self.notifications.len() - i,
        {
            if self.notifications[i].notification_id == *id {
                return Some(i);
            }
            i = i + 1;
        }
        None
    }

    /// The record at position `i`, in order of reservation.
    pub fn record_at(&self, i: usize) -> (r: &Notification)
        requires
            i < self@.notifications.len(),
        ensures
            r@ == self@.notifications[i as int],
    {
        &self.notifications[i]
    }

    /// The record that carries `id`, if any.
    pub fn find(&self, id: &String) -> (r: Option<&Notification>)
        requires
            self.wf(),
        ensures
            match r {
                Some(n) => has_id(self@.notifications, id@) && n@ == record_of(self@.notifications, id@),
                None => !has_id(self@.notifications, id@),
            },
    {
        match self.position(id) {
            Some(i) => {
                proof {
                    lemma_record_of(self@.notifications, id@, i as int);
                }
                Some(&self.notifications[i])
            },
            None => None,
        }
    }

    /// Appends a record whose id is not yet taken; the caller checks that.
    pub fn insert(&mut self, record: Notification)
        requires
            old(self).wf(),
            !has_id(old(self)@.notifications, record@.id),
        ensures
            final(self).wf(),
            final(self)@ == (LedgerView {
                notifications: old(self)@.notifications.push(record@),
                ..old(self)@
            }),
    {
        self.notifications.push(record);
        proof {
            let ns = old(self)@.notifications;
            assert(self@.notifications =~= ns.push(record@));
            assert forall|i: int, j: int|
                0 <= i < ns.len() + 1 && 0 <= j < ns.len() + 1 && i != j
                implies #[trigger] self@.notifications[i].id != #[trigger] self@.notifications[j].id by {
                if i == ns.len() {
                    assert(ns[j].id == self@.notifications[j].id);
                } else if j == ns.len() {
                    assert(ns[i].id == self@.notifications[i].id);
                }
            }
        }
    }

    /// Marks the record at `i` as sent.
    pub(crate) fn mark_sent(&mut self, i: usize)
        requires
            old(self).wf(),
            i < old(self)@.notifications.len(),
        ensures
            final(self).wf(),
            final(self)@ == (LedgerView {
                notifications: old(self)@.notifications.update(
                    i as int,
                    NotificationView { sent: true, ..old(self)@.notifications[i as int] },
                ),
                ..old(self)@
            }),
    {
        let n = Notification {
            notification_id: self.notifications[i].notification_id.clone(),
            sent: true,
            updater: self.notifications[i].updater,
        };
        self.notifications.set(i, n);
        proof {
            let ns = old(self)@.notifications;
            assert(self@.notifications =~= ns.update(
                i as int,
                NotificationView { sent: true, ..ns[i as int] },
            ));
            assert forall|a: int, b: int|
                0 <= a < ns.len() && 0 <= b < ns.len() && a != b
                implies #[trigger] self@.notifications[a].id != #[trigger] self@.notifications[b].id by {
                assert(self@.notifications[a].id == ns[a].id);
                assert(self@.notifications[b].id == ns[b].id);
            }
        }
    }
}

/// With unique ids, the record at a position that carries `id` is the record
/// of `id`.
pub proof fn lemma_record_of(ns: Seq<NotificationView>, id: Seq<char>, i: int)
    requires
        ids_unique(ns),
        0 <= i < ns.len(),
        ns[i].id == id,
    ensures
        has_id(ns, id),
        index_of(ns, id) == i,
        record_of(ns, id) == ns[i],
{
    assert(ns[i].id == id);
    let j = index_of(ns, id);
    assert(ns[j].id == id);
}

/// Appending a record with a fresh id keeps ids unique, and that record is
/// then the record of its id.
pub proof fn lemma_push_fresh(ns: Seq<NotificationView>, rec: NotificationView)
    requires
        ids_unique(ns),
        !has_id(ns, rec.id),
    ensures
        ids_unique(ns.push(rec)),
        has_id(ns.push(rec), rec.id),
        record_of(ns.push(rec), rec.id) == rec,
        forall|id: Seq<char>| #[trigger] has_id(ns, id) ==> has_id(ns.push(rec), id),
{
    let ms = ns.push(rec);
    assert forall|i: int, j: int|
        0 <= i < ms.len() && 0 <= j < ms.len() && i != j
        implies #[trigger] ms[i].id != #[trigger] ms[j].id by {
        if i == ns.len() {
            assert(ns[j].id == ms[j].id);
        } else if j == ns.len() {
            assert(ns[i].id == ms[i].id);
        }
    }
    lemma_record_of(ms, rec.id, ns.len() as int);
    assert forall|id: Seq<char>| #[trigger] has_id(ns, id) implies has_id(ms, id) by {
        let k = choose|k: int| 0 <= k < ns.len() && #[trigger] ns[k].id == id;
        assert(ms[k].id == id);
    }
}

/// Replacing a record by one with the same id keeps ids unique, keeps the
/// same ids present, and makes the new record the record of that id.
pub proof fn lemma_update_same_id(ns: Seq<NotificationView>, i: int, rec: NotificationView)
    requires
        ids_unique(ns),
        0 <= i < ns.len(),
        rec.id == ns[i].id,
    ensures
        ids_unique(ns.update(i, rec)),
        record_of(ns.update(i, rec), rec.id) == rec,
        forall|id: Seq<char>| #[trigger] has_id(ns.update(i, rec), id) == has_id(ns, id),
        forall|id: Seq<char>|
            id != rec.id && has_id(ns, id) ==> #[trigger] record_of(ns.update(i, rec), id)
                == record_of(ns, id),
{
    let ms = ns.update(i, rec);
    assert forall|a: int, b: int|
        0 <= a < ms.len() && 0 <= b < ms.len() && a != b
        implies #[trigger] ms[a].id != #[trigger] ms[b].id by {
        assert(ms[a].id == ns[a].id);
        assert(ms[b].id == ns[b].id);
    }
    lemma_record_of(ms, rec.id, i);
    assert forall|id: Seq<char>| #[trigger] has_id(ms, id) == has_id(ns, id) by {
        if has_id(ms, id) {
            let k = choose|k: int| 0 <= k < ms.len() && #[trigger] ms[k].id == id;
            assert(ns[k].id == id);
        }
        if has_id(ns, id) {
            let k = choose|k: int| 0 <= k < ns.len() && #[trigger] ns[k].id == id;
            assert(ms[k].id == id);
        }
    }
    assert forall|id: Seq<char>|
        id != rec.id && has_id(ns, id) implies #[trigger] record_of(ms, id) == record_of(ns, id) by {
        let k = index_of(ns, id);
        lemma_record_of(ns, id, k);
        assert(ms[k] == ns[k]);
        lemma_record_of(ms, id, k);
    }
}

} // verus!
