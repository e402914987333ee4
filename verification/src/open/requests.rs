//! Open platform api requests and their deterministic encoding.

use vstd::prelude::*;
use crate::encode::push_char;
use crate::meta::DEFAULT_CLUSTER_NAME;
use crate::meta::HttpMethod;
use crate::open::meta::OpenCreatedItem;
use crate::open::meta::OpenRelease;
use crate::open::meta::OpenUpdateItem;
use crate::urls::pair_views;
use crate::utils::name_views;

verus! {

/// Names joined with commas.
pub open spec fn spec_comma_join(names: Seq<Seq<char>>) -> Seq<char>
    decreases names.len(),
{
    if names.len() == 0 {
        Seq::empty()
    } else if names.len() == 1 {
        names.first()
    } else {
        names.first() + seq![','] + spec_comma_join(names.drop_first())
    }
}

/// Joins names with commas.
fn join_comma(names: &Vec<String>) -> (r: String)
    ensures
        r@ == spec_comma_join(name_views(names@)),
{
    let mut r = String::new();
    let n = names.len();
    let ghost all = name_views(names@);
    let ghost start = r@;
    assert(all.skip(0) == all);
    for i in 0..n
        invariant
            n == names@.len(),
            all == name_views(names@),
            all.len() == n,
            r@ + spec_comma_join(all.skip(i as int)) == start + spec_comma_join(all),
    {
        proof {
            assert(all.skip(i as int).first() == all[i as int]);
            assert(all.skip(i as int).drop_first() =~= all.skip(i + 1));
        }
        r.append(names[i].as_str());
        if i + 1 < n {
            push_char(&mut r, ',');
        }
        assert(r@ + spec_comma_join(all.skip(i + 1)) =~= start + spec_comma_join(all));
    }
    assert(all.skip(n as int) =~= Seq::<Seq<char>>::empty());
    assert(r@ =~= start + spec_comma_join(all));
    r
}

/// Fetch cluster and environment infos.
#[derive(Clone, Debug)]
pub struct OpenEnvClusterRequest {
    pub app_id: String,
}

impl Default for OpenEnvClusterRequest {
    /// A request with an empty application id.
    fn default() -> (r: Self)
        ensures
            r.app_id@ == Seq::<char>::empty(),
    {
        OpenEnvClusterRequest { app_id: String::new() }
    }
}

impl OpenEnvClusterRequest {
    /// Url path.
    pub fn path(&self) -> (r: String)
        ensures
            r@ == "openapi/v1/apps/"@ + self.app_id@ + "/envclusters"@,
    {
        let mut r = "openapi/v1/apps/".to_owned();
        r.append(self.app_id.as_str());
        r.append("/envclusters");
        r
    }

    /// AppId.
    pub fn app_id(&self) -> (r: &str)
        ensures
            r@ == self.app_id@,
    {
        self.app_id.as_str()
    }
}

/// Fetch app infos.
#[derive(Clone, Debug)]
pub struct OpenAppRequest {
    /// The applications asked about; none means all of them.
    pub app_ids: Option<Vec<String>>,
}

/// The query contribution of the optional application list: the names joined
/// with commas under one key.
pub open spec fn spec_app_ids_query(o: Option<Vec<String>>) -> Seq<(Seq<char>, Seq<char>)> {
    match o {
        Some(ids) => seq![("appIds"@, spec_comma_join(name_views(ids@)))],
        None => Seq::empty(),
    }
}

impl Default for OpenAppRequest {
    /// A request about all applications.
    fn default() -> (r: Self)
        ensures
            r.app_ids is None,
    {
        OpenAppRequest { app_ids: None }
    }
}

impl OpenAppRequest {
    /// Url path.
    pub fn path(&self) -> (r: String)
        ensures
            r@ == "openapi/v1/apps"@,
    {
        "openapi/v1/apps".to_owned()
    }

    /// Url queries: the asked-about applications, when named.
    pub fn queries(&self) -> (r: Vec<(String, String)>)
        ensures
            pair_views(r@) == spec_app_ids_query(self.app_ids),
    {
        let mut r: Vec<(String, String)> = Vec::new();
        match &self.app_ids {
            Some(ids) => {
                r.push(("appIds".to_owned(), join_comma(ids)));
            },
            None => {},
        }
        assert(pair_views(r@) =~~= spec_app_ids_query(self.app_ids));
        r
    }
}

/// Fetch cluster infos.
#[derive(Clone, Debug)]
pub struct OpenClusterRequest {
    pub env: String,
    pub app_id: String,
    pub cluster_name: String,
}

impl Default for OpenClusterRequest {
    /// A request aimed at the default cluster.
    fn default() -> (r: Self)
        ensures
            r.env@ == Seq::<char>::empty(),
            r.app_id@ == Seq::<char>::empty(),
            r.cluster_name@ == DEFAULT_CLUSTER_NAME@,
    {
        OpenClusterRequest {
            env: String::new(),
            app_id: String::new(),
            cluster_name: DEFAULT_CLUSTER_NAME.to_owned(),
        }
    }
}

impl OpenClusterRequest {
    /// Url path.
    pub fn path(&self) -> (r: String)
        ensures
            r@ == "openapi/v1/envs/"@ + self.env@ + "/apps/"@ + self.app_id@ + "/clusters/"@
                + self.cluster_name@,
    {
        let mut r = "openapi/v1/envs/".to_owned();
        r.append(self.env.as_str());
        r.append("/apps/");
        r.append(self.app_id.as_str());
        r.append("/clusters/");
        r.append(self.cluster_name.as_str());
        r
    }

    /// AppId.
    pub fn app_id(&self) -> (r: &str)
        ensures
            r@ == self.app_id@,
    {
        self.app_id.as_str()
    }
}

/// Fetch namespace info.
#[derive(Clone, Debug)]
pub struct OpenNamespaceRequest {
    pub env: String,
    pub app_id: String,
    pub cluster_name: String,
}

impl Default for OpenNamespaceRequest {
    /// A request aimed at the default cluster.
    fn default() -> (r: Self)
        ensures
            r.env@ == Seq::<char>::empty(),
            r.app_id@ == Seq::<char>::empty(),
            r.cluster_name@ == DEFAULT_CLUSTER_NAME@,
    {
        OpenNamespaceRequest {
            env: String::new(),
            app_id: String::new(),
            cluster_name: DEFAULT_CLUSTER_NAME.to_owned(),
        }
    }
}

impl OpenNamespaceRequest {
    /// Url path.
    pub fn path(&self) -> (r: String)
        ensures
            r@ == "openapi/v1/envs/"@ + self.env@ + "/apps/"@ + self.app_id@ + "/clusters/"@
                + self.cluster_name@ + "/namespaces"@,
    {
        let mut r = "openapi/v1/envs/".to_owned();
        r.append(self.env.as_str());
        r.append("/apps/");
        r.append(self.app_id.as_str());
        r.append("/clusters/");
        r.append(self.cluster_name.as_str());
        r.append("/namespaces");
        r
    }

    /// AppId.
    pub fn app_id(&self) -> (r: &str)
        ensures
            r@ == self.app_id@,
    {
        self.app_id.as_str()
    }
}

/// Create configuration item.
#[derive(Debug, Clone)]
pub struct OpenCreateItemRequest {
    pub env: String,
    pub app_id: String,
    pub namespace_name: String,
    pub cluster_name: String,
    /// The item the request's body carries.
    pub item: OpenCreatedItem,
}

impl Default for OpenCreateItemRequest {
    /// A request aimed at the default cluster, carrying an empty item.
    fn default() -> (r: Self)
        ensures
            r.env@ == Seq::<char>::empty(),
            r.app_id@ == Seq::<char>::empty(),
            r.namespace_name@ == Seq::<char>::empty(),
            r.cluster_name@ == DEFAULT_CLUSTER_NAME@,
            r.item.key@ == Seq::<char>::empty(),
            r.item.value@ == Seq::<char>::empty(),
            r.item.comment is None,
            r.item.data_change_created_by@ == Seq::<char>::empty(),
    {
        OpenCreateItemRequest {
            env: String::new(),
            app_id: String::new(),
            namespace_name: String::new(),
            cluster_name: DEFAULT_CLUSTER_NAME.to_owned(),
            item: Default::default(),
        }
    }
}

impl OpenCreateItemRequest {
    /// Url path.
    pub fn path(&self) -> (r: String)
        ensures
            r@ == "openapi/v1/envs/"@ + self.env@ + "/apps/"@ + self.app_id@ + "/clusters/"@
                + self.cluster_name@ + "/namespaces/"@ + self.namespace_name@ + "/items"@,
    {
        let mut r = "openapi/v1/envs/".to_owned();
        r.append(self.env.as_str());
        r.append("/apps/");
        r.append(self.app_id.as_str());
        r.append("/clusters/");
        r.append(self.cluster_name.as_str());
        r.append("/namespaces/");
        r.append(self.namespace_name.as_str());
        r.append("/items");
        r
    }

    /// Request method.
    pub fn method(&self) -> (r: HttpMethod)
        ensures
            r == HttpMethod::Post,
    {
        HttpMethod::Post
    }

    /// AppId.
    pub fn app_id(&self) -> (r: &str)
        ensures
            r@ == self.app_id@,
    {
        self.app_id.as_str()
    }
}

/// Update configuration item.
#[derive(Debug, Clone)]
pub struct OpenUpdateItemRequest {
    pub env: String,
    pub app_id: String,
    pub namespace_name: String,
    pub cluster_name: String,
    /// Whether a missing item is created rather than refused.
    pub create_if_not_exists: bool,
    /// The update the request's body carries.
    pub item: OpenUpdateItem,
}

impl Default for OpenUpdateItemRequest {
    /// A request aimed at the default cluster, carrying an empty update.
    fn default() -> (r: Self)
        ensures
            r.env@ == Seq::<char>::empty(),
            r.app_id@ == Seq::<char>::empty(),
            r.namespace_name@ == Seq::<char>::empty(),
            r.cluster_name@ == DEFAULT_CLUSTER_NAME@,
            r.create_if_not_exists == false,
            r.item.key@ == Seq::<char>::empty(),
            r.item.value@ == Seq::<char>::empty(),
            r.item.comment is None,
            r.item.data_change_created_by is None,
            r.item.data_change_last_modified_by@ == Seq::<char>::empty(),
    {
        OpenUpdateItemRequest {
            env: String::new(),
            app_id: String::new(),
            namespace_name: String::new(),
            cluster_name: DEFAULT_CLUSTER_NAME.to_owned(),
            create_if_not_exists: false,
            item: Default::default(),
        }
    }
}

impl OpenUpdateItemRequest {
    /// Url path, ending in the key of the updated item.
    pub fn path(&self) -> (r: String)
        ensures
            r@ == "openapi/v1/envs/"@ + self.env@ + "/apps/"@ + self.app_id@ + "/clusters/"@
                + self.cluster_name@ + "/namespaces/"@ + self.namespace_name@ + "/items/"@
                + self.item.key@,
    {
        let mut r = "openapi/v1/envs/".to_owned();
        r.append(self.env.as_str());
        r.append("/apps/");
        r.append(self.app_id.as_str());
        r.append("/clusters/");
        r.append(self.cluster_name.as_str());
        r.append("/namespaces/");
        r.append(self.namespace_name.as_str());
        r.append("/items/");
        r.append(self.item.key.as_str());
        r
    }

    /// Request method.
    pub fn method(&self) -> (r: HttpMethod)
        ensures
            r == HttpMethod::Put,
    {
        HttpMethod::Put
    }

    /// Url queries: the creation flag, when set.
    pub fn queries(&self) -> (r: Vec<(String, String)>)
        ensures
            pair_views(r@) == if self.create_if_not_exists {
                seq![("createIfNotExists"@, "true"@)]
            } else {
                Seq::<(Seq<char>, Seq<char>)>::empty()
            },
    {
        let mut r: Vec<(String, String)> = Vec::new();
        if self.create_if_not_exists {
            r.push(("createIfNotExists".to_owned(), "true".to_owned()));
        }
        assert(pair_views(r@) =~~= if self.create_if_not_exists {
            seq![("createIfNotExists"@, "true"@)]
        } else {
            Seq::<(Seq<char>, Seq<char>)>::empty()
        });
        r
    }

    /// AppId.
    pub fn app_id(&self) -> (r: &str)
        ensures
            r@ == self.app_id@,
    {
        self.app_id.as_str()
    }
}

/// Publish a namespace.
#[derive(Debug, Clone)]
pub struct OpenPublishNamespaceRequest {
    pub env: String,
    pub app_id: String,
    pub namespace_name: String,
    pub cluster_name: String,
    /// The release the request's body carries.
    pub release: OpenRelease,
}

impl Default for OpenPublishNamespaceRequest {
    /// A request aimed at the default cluster, carrying an empty release.
    fn default() -> (r: Self)
        ensures
            r.env@ == Seq::<char>::empty(),
            r.app_id@ == Seq::<char>::empty(),
            r.namespace_name@ == Seq::<char>::empty(),
            r.cluster_name@ == DEFAULT_CLUSTER_NAME@,
            r.release.release_title@ == Seq::<char>::empty(),
            r.release.release_comment is None,
            r.release.released_by@ == Seq::<char>::empty(),
    {
        OpenPublishNamespaceRequest {
            env: String::new(),
            app_id: String::new(),
            namespace_name: String::new(),
            cluster_name: DEFAULT_CLUSTER_NAME.to_owned(),
            release: Default::default(),
        }
    }
}

impl OpenPublishNamespaceRequest {
    /// Url path.
    pub fn path(&self) -> (r: String)
        ensures
            r@ == "openapi/v1/envs/"@ + self.env@ + "/apps/"@ + self.app_id@ + "/clusters/"@
                + self.cluster_name@ + "/namespaces/"@ + self.namespace_name@ + "/releases"@,
    {
        let mut r = "openapi/v1/envs/".to_owned();
        r.append(self.env.as_str());
        r.append("/apps/");
        r.append(self.app_id.as_str());
        r.append("/clusters/");
        r.append(self.cluster_name.as_str());
        r.append("/namespaces/");
        r.append(self.namespace_name.as_str());
        r.append("/releases");
        r
    }

    /// Request method.
    pub fn method(&self) -> (r: HttpMethod)
        ensures
            r == HttpMethod::Post,
    {
        HttpMethod::Post
    }

    /// AppId.
    pub fn app_id(&self) -> (r: &str)
        ensures
            r@ == self.app_id@,
    {
        self.app_id.as_str()
    }
}

} // verus!
