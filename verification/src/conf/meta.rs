//! Configuration api metadata: the per-namespace notification bookkeeping.

use vstd::prelude::*;
use crate::conf::requests::FetchRequest;
use crate::conf::requests::WatchRequest;
use crate::conf::requests::spec_fetch_matches_watch;

verus! {

/// Sentinel notification id meaning "the server has never yet reported on this
/// namespace"; a long poll made of only such entries asks for everything.
pub const UNINITIALIZED_NOTIFICATION_ID: i32 = -1;

/// One watched namespace together with the last notification id the server
/// reported for it. A fresh entry carries [`UNINITIALIZED_NOTIFICATION_ID`].
#[derive(Clone, Debug, PartialEq)]
pub struct Notification {
    pub namespace_name: String,
    pub notification_id: i32,
}

/// Mathematical model of a [`Notification`]: the namespace as a character
/// sequence and the id as an unbounded integer.
#[verifier::ext_equal]
pub struct NotificationView {
    pub namespace_name: Seq<char>,
    pub notification_id: int,
}

impl View for Notification {
    type V = NotificationView;

    open spec fn view(&self) -> NotificationView {
        NotificationView {
            namespace_name: self.namespace_name@,
            notification_id: self.notification_id as int,
        }
    }
}

/// The models of a whole notification state, entry by entry.
pub open spec fn notification_views(s: Seq<Notification>) -> Seq<NotificationView> {
    s.map_values(|n: Notification| n@)
}

impl Default for Notification {
    /// An entry for the empty namespace that has never been notified.
    fn default() -> (r: Self)
        ensures
            r@.namespace_name == Seq::<char>::empty(),
            r@.notification_id == UNINITIALIZED_NOTIFICATION_ID as int,
    {
        Notification {
            namespace_name: String::new(),
            notification_id: UNINITIALIZED_NOTIFICATION_ID,
        }
    }
}

/// The id an entry carries after the newer entries are merged into it: the id
/// of the last newer entry naming the same namespace, or the old id when none
/// does.
pub open spec fn spec_merged_id(e: NotificationView, newer: Seq<NotificationView>) -> int
    decreases newer.len(),
{
    if newer.len() == 0 {
        e.notification_id
    } else if newer.last().namespace_name == e.namespace_name {
        newer.last().notification_id
    } else {
        spec_merged_id(e, newer.drop_last())
    }
}

/// Merging newer entries into a state: every entry keeps its place and its
/// namespace; its id becomes what the newer entries say of that namespace.
/// Newer entries naming no namespace of the state are ignored.
pub open spec fn spec_merge(
    state: Seq<NotificationView>,
    newer: Seq<NotificationView>,
) -> Seq<NotificationView> {
    Seq::new(
        state.len(),
        |i: int|
            NotificationView {
                namespace_name: state[i].namespace_name,
                notification_id: spec_merged_id(state[i], newer),
            },
    )
}

/// Merging a single newer entry: the id of every entry of its namespace is
/// overwritten, every other entry stands unchanged.
pub open spec fn spec_apply_one(
    state: Seq<NotificationView>,
    x: NotificationView,
) -> Seq<NotificationView> {
    Seq::new(
        state.len(),
        |i: int|
            if state[i].namespace_name == x.namespace_name {
                NotificationView { namespace_name: state[i].namespace_name, notification_id: x.notification_id }
            } else {
                state[i]
            },
    )
}

/// Merging one more newer entry is merging the earlier ones and then applying
/// the last one.
pub proof fn lemma_merge_step(
    state: Seq<NotificationView>,
    newer: Seq<NotificationView>,
    x: NotificationView,
)
    ensures
        spec_merge(state, newer.push(x)) =~~= spec_apply_one(spec_merge(state, newer), x),
{
    assert(newer.push(x).drop_last() =~= newer);
    assert forall|i: int| 0 <= i < state.len() implies spec_merge(state, newer.push(x))[i]
        == spec_apply_one(spec_merge(state, newer), x)[i] by {
        assert(newer.push(x).last() == x);
    }
}

/// An entry whose namespace none of the newer entries names keeps its id.
pub proof fn lemma_merged_id_no_match(e: NotificationView, newer: Seq<NotificationView>)
    requires
        forall|j: int| 0 <= j < newer.len() ==> newer[j].namespace_name != e.namespace_name,
    ensures
        spec_merged_id(e, newer) == e.notification_id,
    decreases newer.len(),
{
    if newer.len() > 0 {
        lemma_merged_id_no_match(e, newer.drop_last());
    }
}

/// Law: merging is per-namespace, not positional. Every entry keeps its place
/// and its namespace, and an entry whose namespace the newer entries do not
/// name stands entirely unchanged.
pub proof fn lemma_merge_per_namespace(
    state: Seq<NotificationView>,
    newer: Seq<NotificationView>,
    i: int,
)
    requires
        0 <= i < state.len(),
    ensures
        spec_merge(state, newer).len() == state.len(),
        spec_merge(state, newer)[i].namespace_name == state[i].namespace_name,
        (forall|j: int| 0 <= j < newer.len() ==> newer[j].namespace_name != state[i].namespace_name)
            ==> spec_merge(state, newer)[i] == state[i],
{
    if forall|j: int| 0 <= j < newer.len() ==> newer[j].namespace_name != state[i].namespace_name {
        lemma_merged_id_no_match(state[i], newer);
    }
}

/// Whether every entry still carries the sentinel id, i.e. the server has
/// never yet reported on any watched namespace.
pub open spec fn spec_all_uninitialized(s: Seq<NotificationView>) -> bool {
    forall|i: int|
        0 <= i < s.len() ==> s[i].notification_id == UNINITIALIZED_NOTIFICATION_ID as int
}

/// Law: merging a single entry that carries a real notification id into a
/// state that contains its namespace leaves the state no longer uninitialized.
pub proof fn lemma_merge_nonsentinel_initializes(
    state: Seq<NotificationView>,
    x: NotificationView,
)
    requires
        exists|i: int| 0 <= i < state.len() && state[i].namespace_name == x.namespace_name,
        x.notification_id != UNINITIALIZED_NOTIFICATION_ID as int,
    ensures
        !spec_all_uninitialized(spec_merge(state, seq![x])),
{
    let i = choose|i: int| 0 <= i < state.len() && state[i].namespace_name == x.namespace_name;
    assert(seq![x].last() == x);
    assert(spec_merge(state, seq![x])[i].notification_id == x.notification_id);
}

/// True iff every entry of the state still carries the sentinel id; this
/// distinguishes the first ever check from the later ones.
pub fn all_uninitialized(notifications: &Vec<Notification>) -> (r: bool)
    ensures
        r == spec_all_uninitialized(notification_views(notifications@)),
{
    let n = notifications.len();
    for i in 0..n
        invariant
            n == notifications@.len(),
            forall|j: int|
                0 <= j < i ==> notification_views(notifications@)[j].notification_id
                    == UNINITIALIZED_NOTIFICATION_ID as int,
    {
        if notifications[i].notification_id != UNINITIALIZED_NOTIFICATION_ID {
            assert(notification_views(notifications@)[i as int].notification_id
                != UNINITIALIZED_NOTIFICATION_ID as int);
            return false;
        }
    }
    true
}

impl Notification {
    /// True iff this entry still carries the sentinel id, i.e. the server has
    /// never reported a notification for its namespace.
    pub fn is_uninitialized(&self) -> (r: bool)
        ensures
            r == (self@.notification_id == UNINITIALIZED_NOTIFICATION_ID as int),
    {
        self.notification_id == UNINITIALIZED_NOTIFICATION_ID
    }

    /// Merges newer entries into the existing ones: for each incoming entry,
    /// the existing entries of exactly the same namespace take over its id
    /// (the last incoming entry of a namespace wins). Incoming entries naming
    /// no existing namespace are ignored; no entry is added or removed.
    pub fn update_notifications(older: &mut Vec<Notification>, newer: &Vec<Notification>)
        ensures
            notification_views(final(older)@) == spec_merge(
                notification_views(old(older)@),
                notification_views(newer@),
            ),
    {
        let ghost orig = notification_views(older@);
        let ghost newviews = notification_views(newer@);
        let n = newer.len();
        assert(notification_views(older@) =~~= spec_merge(orig, newviews.take(0)));
        for j in 0..n
            invariant
                n == newer@.len(),
                newviews == notification_views(newer@),
                newviews.len() == n,
                older@.len() == orig.len(),
                notification_views(older@) =~~= spec_merge(orig, newviews.take(j as int)),
        {
            let ghost before = notification_views(older@);
            let ghost x = newviews[j as int];
            let m = older.len();
            for i in 0..m
                invariant
                    m == older@.len(),
                    m == before.len(),
                    x == newviews[j as int],
                    0 <= j < newviews.len(),
                    newviews == notification_views(newer@),
                    n == newer@.len(),
                    notification_views(older@) =~~= Seq::new(
                        before.len(),
                        |k: int| if k < i { spec_apply_one(before, x)[k] } else { before[k] },
                    ),
            {
                let ghost prev = older@;
                if older[i].namespace_name == newer[j].namespace_name {
                    let name = older[i].namespace_name.clone();
                    let ghost gname = name@;
                    proof {
                        assert(gname == notification_views(prev)[i as int].namespace_name);
                        assert(notification_views(prev)[i as int] == before[i as int]);
                        assert(before[i as int].namespace_name == x.namespace_name);
                    }
                    older.set(
                        i,
                        Notification {
                            namespace_name: name,
                            notification_id: newer[j].notification_id,
                        },
                    );
                    proof {
                        assert(older@[i as int]@.namespace_name == gname);
                        assert(older@[i as int]@.notification_id == x.notification_id);
                    }
                }
                proof {
                    assert forall|k: int| 0 <= k < before.len() implies notification_views(older@)[k]
                        == Seq::new(
                        before.len(),
                        |k: int| if k < i + 1 { spec_apply_one(before, x)[k] } else { before[k] },
                    )[k] by {
                        if k != i {
                            assert(older@[k] == prev[k]);
                            assert(notification_views(older@)[k] == notification_views(prev)[k]);
                        } else {
                            if before[k].namespace_name == x.namespace_name {
                                assert(notification_views(older@)[k] =~~= spec_apply_one(before, x)[k]);
                            } else {
                                assert(older@[k] == prev[k]);
                                assert(notification_views(older@)[k] == notification_views(prev)[k]);
                            }
                        }
                    }
                    assert(notification_views(older@) =~~= Seq::new(
                        before.len(),
                        |k: int| if k < i + 1 { spec_apply_one(before, x)[k] } else { before[k] },
                    ));
                }
            }
            proof {
                assert(notification_views(older@) =~~= spec_apply_one(before, x));
                lemma_merge_step(orig, newviews.take(j as int), x);
                assert(newviews.take(j as int).push(x) =~~= newviews.take(j + 1));
                assert(notification_views(older@) =~~= spec_merge(orig, newviews.take(j + 1)));
            }
        }
        proof {
            assert(newviews.take(n as int) =~~= newviews);
        }
    }

    /// One fetch request per notification entry, each carrying the watch
    /// request's coordinates for that entry's namespace.
    pub fn create_fetch_requests(notifications: &Vec<Notification>, watch: &WatchRequest) -> (r:
        Vec<FetchRequest>)
        ensures
            r@.len() == notifications@.len(),
            forall|i: int|
                0 <= i < r@.len() ==> spec_fetch_matches_watch(
                    r@[i],
                    *watch,
                    notifications@[i]@.namespace_name,
                ),
    {
        let mut r: Vec<FetchRequest> = Vec::new();
        let n = notifications.len();
        for i in 0..n
            invariant
                n == notifications@.len(),
                r@.len() == i,
                forall|j: int|
                    0 <= j < i ==> spec_fetch_matches_watch(
                        r@[j],
                        *watch,
                        notifications@[j]@.namespace_name,
                    ),
        {
            r.push(FetchRequest::from_watch(watch, notifications[i].namespace_name.clone()));
        }
        r
    }
}

} // verus!
