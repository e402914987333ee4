//! Configuration api requests and their deterministic encoding.

use vstd::prelude::*;
use crate::conf::meta::Notification;
use crate::conf::meta::NotificationView;
use crate::conf::meta::notification_views;
use crate::conf::meta::UNINITIALIZED_NOTIFICATION_ID;
use crate::encode::push_char;
use crate::encode::i64_to_string;
use crate::encode::spec_decimal;
use crate::encode::spec_json_escaped;
use crate::encode::json_escape_into;
use crate::meta::DEFAULT_CLUSTER_NAME;
use crate::meta::DEFAULT_NOTIFY_TIMEOUT_MS;
use crate::urls::pair_views;

verus! {

/// The character-sequence view of an optional string.
pub open spec fn opt_str_view(o: Option<String>) -> Option<Seq<char>> {
    match o {
        Some(s) => Some(s@),
        None => None,
    }
}

/// Clones an optional string, preserving its view.
fn clone_opt_string(o: &Option<String>) -> (r: Option<String>)
    ensures
        opt_str_view(r) == opt_str_view(*o),
{
    match o {
        Some(s) => Some(s.clone()),
        None => None,
    }
}

/// Appends clones of the given query pairs, preserving their views.
fn clone_pairs_into(out: &mut Vec<(String, String)>, src: &Vec<(String, String)>)
    ensures
        pair_views(final(out)@) == pair_views(old(out)@) + pair_views(src@),
{
    let n = src.len();
    let ghost start = pair_views(out@);
    for i in 0..n
        invariant
            n == src@.len(),
            pair_views(out@) =~~= start + pair_views(src@).take(i as int),
    {
        let pair = (src[i].0.clone(), src[i].1.clone());
        let ghost gpair = pair;
        let ghost prev = out@;
        out.push(pair);
        proof {
            assert(out@ == prev.push(gpair));
            assert forall|k: int| 0 <= k < prev.len() + 1 implies pair_views(prev.push(gpair))[k]
                == (start + pair_views(src@).take(i + 1))[k] by {
                if k < prev.len() {
                    assert(pair_views(prev.push(gpair))[k] == pair_views(prev)[k]);
                    assert((start + pair_views(src@).take(i as int))[k] == (start + pair_views(
                        src@,
                    ).take(i + 1))[k]);
                } else {
                    assert(prev.push(gpair)[k] == gpair);
                    assert(gpair.0@ == src@[i as int].0@ && gpair.1@ == src@[i as int].1@);
                }
            }
            assert(pair_views(out@) =~~= start + pair_views(src@).take(i + 1));
        }
    }
    assert(pair_views(src@).take(n as int) =~~= pair_views(src@));
}

/// The query contribution of the optional resolved client ip.
pub open spec fn spec_ip_query(ip: Option<Seq<char>>) -> Seq<(Seq<char>, Seq<char>)> {
    match ip {
        Some(v) => seq![("ip"@, v)],
        None => Seq::empty(),
    }
}

/// The query contribution of the optional release key.
pub open spec fn spec_release_query(release_key: Option<Seq<char>>) -> Seq<(Seq<char>, Seq<char>)> {
    match release_key {
        Some(v) => seq![("releaseKey"@, v)],
        None => Seq::empty(),
    }
}

/// Request configuration from cache.
#[derive(Clone, Debug)]
pub struct CachedFetchRequest {
    pub app_id: String,
    pub namespace_name: String,
    pub ip: Option<String>,
    pub cluster_name: String,
    pub extras_queries: Vec<(String, String)>,
    pub access_key: Option<String>,
}

impl Default for CachedFetchRequest {
    /// An empty request aimed at the default cluster.
    fn default() -> (r: Self)
        ensures
            r.app_id@ == Seq::<char>::empty(),
            r.namespace_name@ == Seq::<char>::empty(),
            r.ip is None,
            r.cluster_name@ == DEFAULT_CLUSTER_NAME@,
            r.extras_queries@ == Seq::<(String, String)>::empty(),
            r.access_key is None,
    {
        CachedFetchRequest {
            app_id: String::new(),
            namespace_name: String::new(),
            ip: None,
            cluster_name: DEFAULT_CLUSTER_NAME.to_owned(),
            extras_queries: Vec::new(),
            access_key: None,
        }
    }
}

impl CachedFetchRequest {
    /// Url path.
    pub fn path(&self) -> (r: String)
        ensures
            r@ == "/configfiles/"@ + self.app_id@ + "/"@ + self.cluster_name@ + "/"@
                + self.namespace_name@,
    {
        let mut r = "/configfiles/".to_owned();
        r.append(self.app_id.as_str());
        r.append("/");
        r.append(self.cluster_name.as_str());
        r.append("/");
        r.append(self.namespace_name.as_str());
        r
    }

    /// Url queries: the resolved client ip when present, then the extras.
    pub fn queries(&self) -> (r: Vec<(String, String)>)
        ensures
            pair_views(r@) == spec_ip_query(opt_str_view(self.ip)) + pair_views(
                self.extras_queries@,
            ),
    {
        let mut r: Vec<(String, String)> = Vec::new();
        match &self.ip {
            Some(ip) => {
                r.push(("ip".to_owned(), ip.clone()));
                assert(pair_views(r@) =~~= spec_ip_query(opt_str_view(self.ip)));
            },
            None => {
                assert(pair_views(r@) =~~= spec_ip_query(opt_str_view(self.ip)));
            },
        }
        clone_pairs_into(&mut r, &self.extras_queries);
        r
    }

    /// AppId.
    pub fn app_id(&self) -> (r: &str)
        ensures
            r@ == self.app_id@,
    {
        self.app_id.as_str()
    }

    /// Access key for request signing, when the service asks for one.
    pub fn access_key(&self) -> (r: &Option<String>)
        ensures
            opt_str_view(*r) == opt_str_view(self.access_key),
    {
        &self.access_key
    }
}

/// Request configuration without cache.
#[derive(Clone, Debug)]
pub struct FetchRequest {
    pub app_id: String,
    pub namespace_name: String,
    pub cluster_name: String,
    pub ip: Option<String>,
    pub release_key: Option<String>,
    pub extras_queries: Vec<(String, String)>,
    pub access_key: Option<String>,
}

/// Whether a fetch request carries a watch request's coordinates for the given
/// namespace: same application, cluster, ip, extras and access key, no release
/// key pin.
pub open spec fn spec_fetch_matches_watch(f: FetchRequest, w: WatchRequest, ns: Seq<char>) -> bool {
    &&& f.app_id@ == w.app_id@
    &&& f.namespace_name@ == ns
    &&& f.cluster_name@ == w.cluster_name@
    &&& opt_str_view(f.ip) == opt_str_view(w.ip)
    &&& f.release_key is None
    &&& pair_views(f.extras_queries@) == pair_views(w.extras_queries@)
    &&& opt_str_view(f.access_key) == opt_str_view(w.access_key)
}

impl Default for FetchRequest {
    /// An empty request aimed at the default cluster.
    fn default() -> (r: Self)
        ensures
            r.app_id@ == Seq::<char>::empty(),
            r.namespace_name@ == Seq::<char>::empty(),
            r.cluster_name@ == DEFAULT_CLUSTER_NAME@,
            r.ip is None,
            r.release_key is None,
            r.extras_queries@ == Seq::<(String, String)>::empty(),
            r.access_key is None,
    {
        FetchRequest {
            app_id: String::new(),
            namespace_name: String::new(),
            cluster_name: DEFAULT_CLUSTER_NAME.to_owned(),
            ip: None,
            release_key: None,
            extras_queries: Vec::new(),
            access_key: None,
        }
    }
}

impl FetchRequest {
    /// The namespace this request fetches.
    pub fn namespace_name(&self) -> (r: String)
        ensures
            r@ == self.namespace_name@,
    {
        self.namespace_name.clone()
    }

    /// A fetch of one namespace with the coordinates of a watch request.
    pub fn from_watch(watch: &WatchRequest, namespace_name: String) -> (r: Self)
        ensures
            spec_fetch_matches_watch(r, *watch, namespace_name@),
    {
        let mut extras: Vec<(String, String)> = Vec::new();
        clone_pairs_into(&mut extras, &watch.extras_queries);
        FetchRequest {
            app_id: watch.app_id.clone(),
            cluster_name: watch.cluster_name.clone(),
            namespace_name,
            ip: clone_opt_string(&watch.ip),
            release_key: None,
            extras_queries: extras,
            access_key: clone_opt_string(&watch.access_key),
        }
    }

    /// Url path.
    pub fn path(&self) -> (r: String)
        ensures
            r@ == "/configs/"@ + self.app_id@ + "/"@ + self.cluster_name@ + "/"@
                + self.namespace_name@,
    {
        let mut r = "/configs/".to_owned();
        r.append(self.app_id.as_str());
        r.append("/");
        r.append(self.cluster_name.as_str());
        r.append("/");
        r.append(self.namespace_name.as_str());
        r
    }

    /// Url queries: the resolved client ip and the pinned release key when
    /// present, then the extras.
    pub fn queries(&self) -> (r: Vec<(String, String)>)
        ensures
            pair_views(r@) == spec_ip_query(opt_str_view(self.ip)) + spec_release_query(
                opt_str_view(self.release_key),
            ) + pair_views(self.extras_queries@),
    {
        let mut r: Vec<(String, String)> = Vec::new();
        match &self.ip {
            Some(ip) => {
                r.push(("ip".to_owned(), ip.clone()));
            },
            None => {},
        }
        match &self.release_key {
            Some(release_key) => {
                r.push(("releaseKey".to_owned(), release_key.clone()));
            },
            None => {},
        }
        assert(pair_views(r@) =~~= spec_ip_query(opt_str_view(self.ip)) + spec_release_query(
            opt_str_view(self.release_key),
        ));
        clone_pairs_into(&mut r, &self.extras_queries);
        r
    }

    /// AppId.
    pub fn app_id(&self) -> (r: &str)
        ensures
            r@ == self.app_id@,
    {
        self.app_id.as_str()
    }

    /// Access key for request signing, when the service asks for one.
    pub fn access_key(&self) -> (r: &Option<String>)
        ensures
            opt_str_view(*r) == opt_str_view(self.access_key),
    {
        &self.access_key
    }
}

/// One notification entry as the serialized notifications parameter writes it.
pub open spec fn spec_notification_json(n: NotificationView) -> Seq<char> {
    "{\"namespaceName\":\""@ + spec_json_escaped(n.namespace_name) + "\",\"notificationId\":"@
        + spec_decimal(n.notification_id) + "}"@
}

/// The entries of the serialized notifications parameter, joined with commas.
pub open spec fn spec_notifications_json_body(s: Seq<NotificationView>) -> Seq<char>
    decreases s.len(),
{
    if s.len() == 0 {
        Seq::empty()
    } else if s.len() == 1 {
        spec_notification_json(s.first())
    } else {
        spec_notification_json(s.first()) + seq![','] + spec_notifications_json_body(s.drop_first())
    }
}

/// The serialized notifications parameter: a bracketed list of entries.
pub open spec fn spec_notifications_json(s: Seq<NotificationView>) -> Seq<char> {
    seq!['['] + spec_notifications_json_body(s) + seq![']']
}

/// Serializes the notification entries for the long-poll request parameter.
pub fn notifications_json(notifications: &Vec<Notification>) -> (r: String)
    ensures
        r@ == spec_notifications_json(notification_views(notifications@)),
{
    let mut r = String::new();
    push_char(&mut r, '[');
    let n = notifications.len();
    let ghost views = notification_views(notifications@);
    let ghost start = r@;
    assert(views.skip(0) == views);
    for i in 0..n
        invariant
            n == notifications@.len(),
            views == notification_views(notifications@),
            views.len() == n,
            r@ + spec_notifications_json_body(views.skip(i as int)) == start
                + spec_notifications_json_body(views),
    {
        proof {
            assert(views.skip(i as int).first() == views[i as int]);
            assert(views.skip(i as int).drop_first() =~= views.skip(i + 1));
        }
        r.append("{\"namespaceName\":\"");
        json_escape_into(&mut r, notifications[i].namespace_name.as_str());
        r.append("\",\"notificationId\":");
        let id_str = i64_to_string(notifications[i].notification_id as i64);
        r.append(id_str.as_str());
        r.append("}");
        if i + 1 < n {
            push_char(&mut r, ',');
        }
        assert(r@ + spec_notifications_json_body(views.skip(i + 1)) =~= start
            + spec_notifications_json_body(views));
    }
    assert(views.skip(n as int) =~= Seq::<NotificationView>::empty());
    push_char(&mut r, ']');
    assert(r@ =~= seq!['['] + spec_notifications_json_body(views) + seq![']']);
    r
}

/// Listen for change notifications: one long-poll round trip.
#[derive(Clone, Debug)]
pub struct NotifyRequest {
    pub app_id: String,
    pub notifications: Vec<Notification>,
    pub cluster_name: String,
    /// Client-side timeout of this round trip, in milliseconds.
    pub timeout: u64,
    pub access_key: Option<String>,
}

impl Default for NotifyRequest {
    /// An empty request aimed at the default cluster, with the long-poll
    /// timeout of the protocol.
    fn default() -> (r: Self)
        ensures
            r.app_id@ == Seq::<char>::empty(),
            r.notifications@ == Seq::<Notification>::empty(),
            r.cluster_name@ == DEFAULT_CLUSTER_NAME@,
            r.timeout == DEFAULT_NOTIFY_TIMEOUT_MS,
            r.access_key is None,
    {
        NotifyRequest {
            app_id: String::new(),
            notifications: Vec::new(),
            cluster_name: DEFAULT_CLUSTER_NAME.to_owned(),
            timeout: DEFAULT_NOTIFY_TIMEOUT_MS,
            access_key: None,
        }
    }
}

impl NotifyRequest {
    /// A notification check with the coordinates of a watch request, asking
    /// about the given entries with the given timeout.
    pub fn from_watch(watch: &WatchRequest, notifications: Vec<Notification>, timeout: u64) -> (r:
        Self)
        ensures
            r.app_id@ == watch.app_id@,
            r.cluster_name@ == watch.cluster_name@,
            notification_views(r.notifications@) == notification_views(notifications@),
            r.timeout == timeout,
            opt_str_view(r.access_key) == opt_str_view(watch.access_key),
    {
        NotifyRequest {
            app_id: watch.app_id.clone(),
            cluster_name: watch.cluster_name.clone(),
            notifications,
            timeout,
            access_key: clone_opt_string(&watch.access_key),
        }
    }

    /// Url path.
    pub fn path(&self) -> (r: String)
        ensures
            r@ == "/notifications/v2"@,
    {
        "/notifications/v2".to_owned()
    }

    /// Url queries: the application, the cluster and the serialized
    /// notification entries.
    pub fn queries(&self) -> (r: Vec<(String, String)>)
        ensures
            pair_views(r@) == seq![
                ("appId"@, self.app_id@),
                ("cluster"@, self.cluster_name@),
                ("notifications"@, spec_notifications_json(notification_views(self.notifications@))),
            ],
    {
        let mut r: Vec<(String, String)> = Vec::new();
        r.push(("appId".to_owned(), self.app_id.clone()));
        r.push(("cluster".to_owned(), self.cluster_name.clone()));
        r.push(("notifications".to_owned(), notifications_json(&self.notifications)));
        assert(pair_views(r@) =~~= seq![
            ("appId"@, self.app_id@),
            ("cluster"@, self.cluster_name@),
            ("notifications"@, spec_notifications_json(notification_views(self.notifications@))),
        ]);
        r
    }

    /// AppId.
    pub fn app_id(&self) -> (r: &str)
        ensures
            r@ == self.app_id@,
    {
        self.app_id.as_str()
    }

    /// Access key for request signing, when the service asks for one.
    pub fn access_key(&self) -> (r: &Option<String>)
        ensures
            opt_str_view(*r) == opt_str_view(self.access_key),
    {
        &self.access_key
    }
}

/// Watch multiple namespaces for change.
#[derive(Clone, Debug)]
pub struct WatchRequest {
    pub app_id: String,
    pub namespace_names: Vec<String>,
    pub cluster_name: String,
    pub ip: Option<String>,
    pub extras_queries: Vec<(String, String)>,
    pub access_key: Option<String>,
}

impl Default for WatchRequest {
    /// An empty request aimed at the default cluster.
    fn default() -> (r: Self)
        ensures
            r.app_id@ == Seq::<char>::empty(),
            r.namespace_names@ == Seq::<String>::empty(),
            r.cluster_name@ == DEFAULT_CLUSTER_NAME@,
            r.ip is None,
            r.extras_queries@ == Seq::<(String, String)>::empty(),
            r.access_key is None,
    {
        WatchRequest {
            app_id: String::new(),
            namespace_names: Vec::new(),
            cluster_name: DEFAULT_CLUSTER_NAME.to_owned(),
            ip: None,
            extras_queries: Vec::new(),
            access_key: None,
        }
    }
}

impl WatchRequest {
    /// One fresh notification entry per requested namespace, in the caller's
    /// order, every one still uninitialized.
    pub fn create_notifications(&self) -> (r: Vec<Notification>)
        ensures
            r@.len() == self.namespace_names@.len(),
            forall|i: int|
                0 <= i < r@.len() ==> (#[trigger] r@[i])@.namespace_name
                    == self.namespace_names@[i]@ && r@[i]@.notification_id
                    == UNINITIALIZED_NOTIFICATION_ID as int,
    {
        let mut r: Vec<Notification> = Vec::new();
        let n = self.namespace_names.len();
        for i in 0..n
            invariant
                n == self.namespace_names@.len(),
                r@.len() == i,
                forall|j: int|
                    0 <= j < i ==> (#[trigger] r@[j])@.namespace_name
                        == self.namespace_names@[j]@ && r@[j]@.notification_id
                        == UNINITIALIZED_NOTIFICATION_ID as int,
        {
            r.push(
                Notification {
                    namespace_name: self.namespace_names[i].clone(),
                    notification_id: UNINITIALIZED_NOTIFICATION_ID,
                },
            );
        }
        r
    }
}

} // verus!
