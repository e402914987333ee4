//! The watch engine: a session owns the per-namespace notification state,
//! classifies each long-poll answer, and says which namespaces to re-fetch.
//!
//! The session is a state machine from poll outcomes to actions; the embedding
//! application only performs the transport round trips it is told to make and
//! hands their plain results back.

use vstd::prelude::*;
use crate::conf::meta::Notification;
use crate::conf::meta::NotificationView;
use crate::conf::meta::notification_views;
use crate::conf::meta::spec_merge;
use crate::conf::meta::spec_all_uninitialized;
use crate::conf::meta::all_uninitialized;
use crate::conf::meta::UNINITIALIZED_NOTIFICATION_ID;
use crate::conf::requests::FetchRequest;
use crate::conf::requests::WatchRequest;
use crate::conf::requests::NotifyRequest;
use crate::conf::requests::spec_fetch_matches_watch;
use crate::conf::responses::FetchResponse;
use crate::errors::ApolloClientError;
use crate::errors::ApolloResponseError;
use crate::meta::DEFAULT_NOTIFY_TIMEOUT_MS;
use crate::meta::INITIAL_NOTIFY_TIMEOUT_MS;
use crate::utils::str_eq;
use crate::utils::name_views;

verus! {

/// What one long-poll round trip told the session, after classification.
pub enum LongPollOutcome {
    /// The server reported these namespaces' notification ids as changed.
    Changed(Vec<Notification>),
    /// The server answered that nothing changed during its hold period.
    Unchanged,
    /// The client-side wait elapsed before any server response; routine under
    /// long polling, never an error.
    TimedOut,
    /// Any other failure: transport error, unexpected status, malformed body.
    HardError(ApolloClientError),
}

/// What the session asks of its caller after one poll outcome.
pub enum WatchAction {
    /// Fetch these namespaces concurrently and emit the resulting batch.
    Fetch(Vec<FetchRequest>),
    /// Emit this poll failure as a failed item; the session keeps polling.
    Report(ApolloClientError),
    /// Emit nothing; poll again.
    Poll,
}

/// The plain result of one long-poll transport round trip, as the embedding
/// application hands it back: an HTTP response (with the notification entries
/// when its body parsed), a client-side timeout, or a transport failure.
pub enum PollResult {
    Response { status: u16, notifications: Option<Vec<Notification>>, body: String },
    ClientTimeout,
    TransportError { message: String },
}

/// Whether an outcome is routine silence: nothing changed or the long-poll
/// window elapsed. Either way the session polls again without emitting.
pub open spec fn spec_silent_outcome(o: LongPollOutcome) -> bool {
    o is Unchanged || o is TimedOut
}

/// Classifies one long-poll transport answer into the protocol's outcomes:
/// a not-modified status is silence; any other non-success status, a transport
/// failure or an unreadable body is a hard error; a success status carrying
/// entries is a change, and one carrying none is silence as well.
pub fn classify_poll_result(raw: PollResult) -> (r: LongPollOutcome)
    ensures
        raw is ClientTimeout ==> r is TimedOut,
        (raw matches PollResult::TransportError { message } ==> r
            == LongPollOutcome::HardError(ApolloClientError::Transport(message))),
        (raw matches PollResult::Response { status, notifications, body } ==> {
            &&& status == 304 ==> r is Unchanged
            &&& (status != 304 && !(200 <= status < 300)) ==> r == LongPollOutcome::HardError(
                ApolloClientError::ApolloResponse(ApolloResponseError { status, body }),
            )
            &&& (200 <= status < 300 && notifications is None) ==> r == LongPollOutcome::HardError(
                ApolloClientError::MalformedBody,
            )
            &&& (200 <= status < 300 && (notifications matches Some(ns) && ns@.len() > 0)) ==> r
                == LongPollOutcome::Changed(notifications->0)
            &&& (200 <= status < 300 && (notifications matches Some(ns) && ns@.len() == 0)) ==> r
                is Unchanged
        }),
{
    match raw {
        PollResult::Response { status, notifications, body } => {
            if status == 304 {
                LongPollOutcome::Unchanged
            } else if !(200 <= status && status < 300) {
                LongPollOutcome::HardError(
                    ApolloClientError::ApolloResponse(ApolloResponseError { status, body }),
                )
            } else {
                match notifications {
                    Some(ns) => {
                        if ns.len() > 0 {
                            LongPollOutcome::Changed(ns)
                        } else {
                            LongPollOutcome::Unchanged
                        }
                    },
                    None => LongPollOutcome::HardError(ApolloClientError::MalformedBody),
                }
            }
        },
        PollResult::ClientTimeout => LongPollOutcome::TimedOut,
        PollResult::TransportError { message } => LongPollOutcome::HardError(
            ApolloClientError::Transport(message),
        ),
    }
}

/// Whether no two entries share a namespace.
pub open spec fn spec_unique_namespaces(s: Seq<NotificationView>) -> bool {
    forall|i: int, j: int|
        0 <= i < j < s.len() ==> s[i].namespace_name != s[j].namespace_name
}

/// Whether some name of the list equals the given one.
pub open spec fn spec_contains_name(names: Seq<Seq<char>>, x: Seq<char>) -> bool {
    exists|i: int| 0 <= i < names.len() && names[i] == x
}

/// The names kept when duplicates collapse: every name's first occurrence, in
/// order; later occurrences are dropped.
pub open spec fn spec_dedup_names(names: Seq<Seq<char>>) -> Seq<Seq<char>>
    decreases names.len(),
{
    if names.len() == 0 {
        Seq::empty()
    } else if spec_contains_name(names.drop_last(), names.last()) {
        spec_dedup_names(names.drop_last())
    } else {
        spec_dedup_names(names.drop_last()).push(names.last())
    }
}

/// Collapsing duplicates keeps exactly the names that were there.
pub proof fn lemma_dedup_names_contains(names: Seq<Seq<char>>, x: Seq<char>)
    ensures
        spec_contains_name(spec_dedup_names(names), x) <==> spec_contains_name(names, x),
    decreases names.len(),
{
    if names.len() > 0 {
        let pre = names.drop_last();
        let last = names.last();
        let d = spec_dedup_names(names);
        let dp = spec_dedup_names(pre);
        lemma_dedup_names_contains(pre, x);
        if spec_contains_name(pre, last) {
            assert(d == dp);
            if spec_contains_name(names, x) {
                let i = choose|i: int| 0 <= i < names.len() && names[i] == x;
                if i < names.len() - 1 {
                    assert(pre[i] == x);
                } else {
                    assert(x == last);
                    assert(spec_contains_name(pre, x));
                }
            }
            if spec_contains_name(d, x) {
                assert(spec_contains_name(pre, x));
                let i = choose|i: int| 0 <= i < pre.len() && pre[i] == x;
                assert(names[i] == x);
            }
        } else {
            assert(d == dp.push(last));
            if spec_contains_name(names, x) {
                let i = choose|i: int| 0 <= i < names.len() && names[i] == x;
                if i == names.len() - 1 {
                    assert(d[d.len() - 1] == x);
                } else {
                    assert(pre[i] == x);
                    assert(spec_contains_name(pre, x));
                    assert(spec_contains_name(dp, x));
                    let k = choose|k: int| 0 <= k < dp.len() && dp[k] == x;
                    assert(d[k] == x);
                }
            }
            if spec_contains_name(d, x) {
                let i = choose|i: int| 0 <= i < d.len() && d[i] == x;
                if i == d.len() - 1 {
                    assert(x == last);
                    assert(names[names.len() - 1] == x);
                } else {
                    assert(dp[i] == x);
                    assert(spec_contains_name(dp, x));
                    assert(spec_contains_name(pre, x));
                    let k = choose|k: int| 0 <= k < pre.len() && pre[k] == x;
                    assert(names[k] == x);
                }
            }
        }
    }
}

/// Collapsing duplicates leaves no two equal names.
pub proof fn lemma_dedup_names_unique(names: Seq<Seq<char>>)
    ensures
        forall|i: int, j: int|
            0 <= i < j < spec_dedup_names(names).len() ==> spec_dedup_names(names)[i]
                != spec_dedup_names(names)[j],
    decreases names.len(),
{
    if names.len() > 0 {
        lemma_dedup_names_unique(names.drop_last());
        if !spec_contains_name(names.drop_last(), names.last()) {
            lemma_dedup_names_contains(names.drop_last(), names.last());
            let d = spec_dedup_names(names);
            assert forall|i: int, j: int| 0 <= i < j < d.len() implies d[i] != d[j] by {
                if j == d.len() - 1 {
                    assert(d[j] == names.last());
                    assert(spec_dedup_names(names.drop_last())[i] == d[i]);
                    if d[i] == names.last() {
                        assert(spec_contains_name(spec_dedup_names(names.drop_last()), names.last()));
                    }
                }
            }
        }
    }
}

/// The fresh entries a session starts from: one uninitialized entry per
/// distinct requested namespace, in first-occurrence order.
pub open spec fn spec_initial_entries(names: Seq<Seq<char>>) -> Seq<NotificationView> {
    spec_dedup_names(names).map_values(
        |ns: Seq<char>|
            NotificationView {
                namespace_name: ns,
                notification_id: UNINITIALIZED_NOTIFICATION_ID as int,
            },
    )
}

/// True iff some entry watches the given namespace.
fn contains_namespace(entries: &Vec<Notification>, name: &str) -> (r: bool)
    ensures
        r == spec_contains_name(
            notification_views(entries@).map_values(|n: NotificationView| n.namespace_name),
            name@,
        ),
{
    let ghost names = notification_views(entries@).map_values(
        |n: NotificationView| n.namespace_name,
    );
    let n = entries.len();
    for i in 0..n
        invariant
            n == entries@.len(),
            names == notification_views(entries@).map_values(
                |n: NotificationView| n.namespace_name,
            ),
            names.len() == n,
            forall|j: int| 0 <= j < i ==> names[j] != name@,
    {
        if str_eq(entries[i].namespace_name.as_str(), name) {
            assert(names[i as int] == name@);
            return true;
        }
    }
    false
}

/// The state after one poll outcome: a change merges the reported entries,
/// everything else leaves the state exactly as it was.
pub open spec fn spec_outcome_state(
    s: Seq<NotificationView>,
    o: LongPollOutcome,
) -> Seq<NotificationView> {
    match o {
        LongPollOutcome::Changed(newer) => spec_merge(s, notification_views(newer@)),
        _ => s,
    }
}

/// The state after a whole sequence of poll outcomes, first outcome first.
pub open spec fn spec_run_state(
    s: Seq<NotificationView>,
    outcomes: Seq<LongPollOutcome>,
) -> Seq<NotificationView>
    decreases outcomes.len(),
{
    if outcomes.len() == 0 {
        s
    } else {
        spec_run_state(spec_outcome_state(s, outcomes.first()), outcomes.drop_first())
    }
}

/// How many batches a sequence of poll outcomes makes the session emit: one
/// per change; silence and hard errors emit no batch.
pub open spec fn spec_batches_emitted(outcomes: Seq<LongPollOutcome>) -> int
    decreases outcomes.len(),
{
    if outcomes.len() == 0 {
        0
    } else {
        (if outcomes.first() is Changed {
            1int
        } else {
            0int
        }) + spec_batches_emitted(outcomes.drop_first())
    }
}

/// Law: not-modified answers and timeouts are silent. However many arrive in a
/// row, the notification state stands untouched and no batch is emitted.
pub proof fn lemma_silent_rounds_emit_nothing(
    s: Seq<NotificationView>,
    outcomes: Seq<LongPollOutcome>,
)
    requires
        forall|i: int| 0 <= i < outcomes.len() ==> spec_silent_outcome(#[trigger] outcomes[i]),
    ensures
        spec_run_state(s, outcomes) == s,
        spec_batches_emitted(outcomes) == 0,
    decreases outcomes.len(),
{
    if outcomes.len() > 0 {
        assert(spec_silent_outcome(outcomes[0]));
        assert forall|i: int| 0 <= i < outcomes.drop_first().len() implies spec_silent_outcome(
            #[trigger] outcomes.drop_first()[i],
        ) by {
            assert(outcomes.drop_first()[i] == outcomes[i + 1]);
        }
        lemma_silent_rounds_emit_nothing(s, outcomes.drop_first());
    }
}

/// Law: the watched namespace set is fixed at session creation. No sequence of
/// poll outcomes adds, removes, reorders or renames entries; only ids move.
pub proof fn lemma_run_preserves_namespaces(
    s: Seq<NotificationView>,
    outcomes: Seq<LongPollOutcome>,
)
    ensures
        spec_run_state(s, outcomes).len() == s.len(),
        forall|i: int|
            0 <= i < s.len() ==> #[trigger] spec_run_state(s, outcomes)[i].namespace_name == s[i]
                .namespace_name,
    decreases outcomes.len(),
{
    if outcomes.len() > 0 {
        let s1 = spec_outcome_state(s, outcomes.first());
        assert(s1.len() == s.len());
        assert(forall|i: int|
            0 <= i < s.len() ==> #[trigger] s1[i].namespace_name == s[i].namespace_name);
        lemma_run_preserves_namespaces(s1, outcomes.drop_first());
    }
}

/// Uniqueness of namespaces survives every poll outcome.
pub proof fn lemma_outcome_preserves_uniqueness(s: Seq<NotificationView>, o: LongPollOutcome)
    requires
        spec_unique_namespaces(s),
    ensures
        spec_unique_namespaces(spec_outcome_state(s, o)),
{
}

/// One watch session: the notification state for a fixed set of namespaces,
/// driven by the poll outcomes its caller feeds back.
pub struct WatchSession {
    request: WatchRequest,
    notifications: Vec<Notification>,
}

impl WatchSession {
    /// The coordinates this session polls and fetches with.
    pub closed spec fn spec_request(&self) -> WatchRequest {
        self.request
    }

    /// The model of the session's notification state.
    pub closed spec fn spec_state(&self) -> Seq<NotificationView> {
        notification_views(self.notifications@)
    }

    /// The session's invariant: no two entries share a namespace.
    pub open spec fn wf(&self) -> bool {
        spec_unique_namespaces(self.spec_state())
    }

    /// A fresh session over the request's namespaces: one uninitialized entry
    /// per distinct namespace, in first-occurrence order (duplicate names in
    /// the request collapse to their first occurrence).
    ///
    /// A watch over zero namespaces is meaningless; the caller must not ask
    /// for one.
    pub fn new(request: WatchRequest) -> (r: Self)
        requires
            request.namespace_names@.len() > 0,
        ensures
            r.wf(),
            r.spec_request() == request,
            r.spec_state() == spec_initial_entries(name_views(request.namespace_names@)),
            r.spec_state().len() > 0,
            spec_all_uninitialized(r.spec_state()),
    {
        let ghost all_names = name_views(request.namespace_names@);
        let mut entries: Vec<Notification> = Vec::new();
        let n = request.namespace_names.len();
        assert(all_names.take(0) =~= Seq::<Seq<char>>::empty());
        for i in 0..n
            invariant
                n == request.namespace_names@.len(),
                all_names == name_views(request.namespace_names@),
                all_names.len() == n,
                notification_views(entries@) =~~= spec_initial_entries(all_names.take(i as int)),
        {
            let ghost prefix = all_names.take(i as int);
            proof {
                assert(all_names.take(i + 1).drop_last() =~= prefix);
                assert(all_names.take(i + 1).last() == all_names[i as int]);
                lemma_dedup_names_contains(prefix, all_names[i as int]);
            }
            if !contains_namespace(&entries, request.namespace_names[i].as_str()) {
                proof {
                    assert(notification_views(entries@).map_values(
                        |n: NotificationView| n.namespace_name,
                    ) =~~= spec_dedup_names(prefix));
                }
                let ghost prev = entries@;
                entries.push(
                    Notification {
                        namespace_name: request.namespace_names[i].clone(),
                        notification_id: UNINITIALIZED_NOTIFICATION_ID,
                    },
                );
                proof {
                    assert(entries@.last()@.namespace_name == all_names[i as int]);
                    assert(notification_views(entries@) =~~= spec_initial_entries(
                        all_names.take(i + 1),
                    ));
                }
            } else {
                proof {
                    assert(notification_views(entries@).map_values(
                        |n: NotificationView| n.namespace_name,
                    ) =~~= spec_dedup_names(prefix));
                    assert(notification_views(entries@) =~~= spec_initial_entries(
                        all_names.take(i + 1),
                    ));
                }
            }
        }
        proof {
            assert(all_names.take(n as int) =~= all_names);
            lemma_dedup_names_unique(all_names);
            assert(spec_contains_name(all_names, all_names[0]));
            lemma_dedup_names_contains(all_names, all_names[0]);
            assert(spec_dedup_names(all_names).len() > 0);
        }
        let r = WatchSession { request, notifications: entries };
        proof {
            assert(spec_unique_namespaces(r.spec_state()));
        }
        r
    }

    /// A read-only look at the notification entries, in session order.
    pub fn notifications(&self) -> (r: &Vec<Notification>)
        ensures
            notification_views(r@) == self.spec_state(),
    {
        &self.notifications
    }

    /// True iff the server has never yet reported on any entry: the very first
    /// check of the session is still ahead.
    pub fn is_uninitialized(&self) -> (r: bool)
        ensures
            r == spec_all_uninitialized(self.spec_state()),
    {
        all_uninitialized(&self.notifications)
    }

    /// The client-side timeout for the next notification check: short before
    /// the first server report so the session falls through to its
    /// unconditional first fetch, the full long-poll window afterwards.
    pub fn poll_timeout_ms(&self) -> (r: u64)
        ensures
            r == if spec_all_uninitialized(self.spec_state()) {
                INITIAL_NOTIFY_TIMEOUT_MS
            } else {
                DEFAULT_NOTIFY_TIMEOUT_MS
            },
    {
        if self.is_uninitialized() {
            INITIAL_NOTIFY_TIMEOUT_MS
        } else {
            DEFAULT_NOTIFY_TIMEOUT_MS
        }
    }

    /// The notification check to issue next: the session's coordinates, its
    /// whole current state, and the timeout fitting the session's phase.
    pub fn notify_request(&self) -> (r: NotifyRequest)
        ensures
            r.app_id@ == self.spec_request().app_id@,
            r.cluster_name@ == self.spec_request().cluster_name@,
            notification_views(r.notifications@) == self.spec_state(),
            r.timeout == if spec_all_uninitialized(self.spec_state()) {
                INITIAL_NOTIFY_TIMEOUT_MS
            } else {
                DEFAULT_NOTIFY_TIMEOUT_MS
            },
    {
        let timeout = self.poll_timeout_ms();
        let entries = clone_notifications(&self.notifications);
        NotifyRequest::from_watch(&self.request, entries, timeout)
    }

    /// Law: the first batch is unconditional. These are the fetches of the
    /// session's very first emission, one per watched namespace in session
    /// order — they depend on nothing a poll could report.
    pub fn initial_fetch_requests(&self) -> (r: Vec<FetchRequest>)
        ensures
            r@.len() == self.spec_state().len(),
            forall|i: int|
                0 <= i < r@.len() ==> spec_fetch_matches_watch(
                    #[trigger] r@[i],
                    self.spec_request(),
                    self.spec_state()[i].namespace_name,
                ),
    {
        Notification::create_fetch_requests(&self.notifications, &self.request)
    }

    /// Drives the session one step on a classified poll outcome.
    ///
    /// A change is merged into the state and answered with fetches of exactly
    /// the reported namespaces; silence (not-modified, timeout) leaves the
    /// state untouched and asks only for the next poll; a hard error leaves
    /// the state untouched and is handed back to be reported, the session
    /// polling on. The watched namespace set never changes.
    ///
    /// Every answer asks for the next poll at once: silence is paced by the
    /// server's own hold time, but a hard error is retried without backoff,
    /// so against a persistently failing server the caller may want to add
    /// pacing of its own before polling again.
    pub fn on_poll_outcome(&mut self, outcome: LongPollOutcome) -> (action: WatchAction)
        requires
            old(self).wf(),
        ensures
            final(self).wf(),
            final(self).spec_request() == old(self).spec_request(),
            final(self).spec_state() == spec_outcome_state(old(self).spec_state(), outcome),
            final(self).spec_state().len() == old(self).spec_state().len(),
            forall|i: int|
                0 <= i < old(self).spec_state().len() ==> #[trigger] final(self).spec_state()[i]
                    .namespace_name == old(self).spec_state()[i].namespace_name,
            spec_silent_outcome(outcome) ==> (final(self).spec_state() == old(self).spec_state()
                && action is Poll),
            (outcome matches LongPollOutcome::HardError(e) ==> (final(self).spec_state() == old(
                self,
            ).spec_state() && action == WatchAction::Report(e))),
            (outcome matches LongPollOutcome::Changed(newer) ==> (action
                matches WatchAction::Fetch(reqs) && reqs@.len() == newer@.len() && forall|i: int|
                0 <= i < reqs@.len() ==> spec_fetch_matches_watch(
                    #[trigger] reqs@[i],
                    old(self).spec_request(),
                    newer@[i]@.namespace_name,
                ))),
    {
        match outcome {
            LongPollOutcome::Changed(newer) => {
                Notification::update_notifications(&mut self.notifications, &newer);
                let reqs = Notification::create_fetch_requests(&newer, &self.request);
                proof {
                    lemma_outcome_preserves_uniqueness(
                        old(self).spec_state(),
                        LongPollOutcome::Changed(newer),
                    );
                }
                WatchAction::Fetch(reqs)
            },
            LongPollOutcome::Unchanged => WatchAction::Poll,
            LongPollOutcome::TimedOut => WatchAction::Poll,
            LongPollOutcome::HardError(e) => WatchAction::Report(e),
        }
    }
}

/// Clones notification entries, preserving their views.
fn clone_notifications(entries: &Vec<Notification>) -> (r: Vec<Notification>)
    ensures
        notification_views(r@) == notification_views(entries@),
{
    let mut r: Vec<Notification> = Vec::new();
    let n = entries.len();
    for i in 0..n
        invariant
            n == entries@.len(),
            r@.len() == i,
            forall|j: int| 0 <= j < i ==> #[trigger] r@[j]@ == entries@[j]@,
    {
        r.push(
            Notification {
                namespace_name: entries[i].namespace_name.clone(),
                notification_id: entries[i].notification_id,
            },
        );
        assert(r@[i as int]@ =~~= entries@[i as int]@);
    }
    assert(notification_views(r@) =~~= notification_views(entries@));
    r
}

/// One unit of the watch engine's output: for each namespace of one detected
/// change, its freshly fetched configuration or the failure that fetch met.
/// Failures are scoped to their namespace and never touch their siblings.
pub struct ChangeBatch {
    pub entries: Vec<(String, Result<FetchResponse, ApolloClientError>)>,
}

impl ChangeBatch {
    /// Gathers the per-namespace fetch results of one change into a batch,
    /// exactly as handed in: independent results, keyed by namespace.
    pub fn from_results(results: Vec<(String, Result<FetchResponse, ApolloClientError>)>) -> (r:
        Self)
        ensures
            r.entries == results,
    {
        ChangeBatch { entries: results }
    }

    /// How many namespaces the batch covers.
    pub fn len(&self) -> (r: usize)
        ensures
            r == self.entries@.len(),
    {
        self.entries.len()
    }

    /// The position of the first entry for the given namespace, if any.
    pub fn find(&self, namespace: &str) -> (r: Option<usize>)
        ensures
            r matches Some(i) ==> 0 <= i < self.entries@.len() && self.entries@[i as int].0@
                == namespace@ && (forall|j: int|
                0 <= j < i ==> (#[trigger] self.entries@[j].0)@ != namespace@),
            r is None ==> forall|i: int|
                0 <= i < self.entries@.len() ==> (#[trigger] self.entries@[i].0)@ != namespace@,
    {
        let n = self.entries.len();
        for i in 0..n
            invariant
                n == self.entries@.len(),
                forall|j: int| 0 <= j < i ==> (#[trigger] self.entries@[j].0)@ != namespace@,
        {
            if str_eq(self.entries[i].0.as_str(), namespace) {
                return Some(i);
            }
        }
        None
    }

    /// The result recorded for the given namespace, if any.
    pub fn get(&self, namespace: &str) -> (r: Option<&Result<FetchResponse, ApolloClientError>>)
        ensures
            r matches Some(v) ==> exists|i: int|
                0 <= i < self.entries@.len() && self.entries@[i].0@ == namespace@ && *v
                    == self.entries@[i].1,
            r is None ==> forall|i: int|
                0 <= i < self.entries@.len() ==> (#[trigger] self.entries@[i].0)@ != namespace@,
    {
        match self.find(namespace) {
            Some(i) => {
                let v = &self.entries[i].1;
                assert(self.entries@[i as int].0@ == namespace@ && *v == self.entries@[i as int].1);
                Some(v)
            },
            None => None,
        }
    }
}

} // verus!

