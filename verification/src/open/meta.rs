//! Open platform api metadata: the items and releases the requests carry.

use vstd::prelude::*;

verus! {

/// Item for [`crate::open::requests::OpenCreateItemRequest`].
#[derive(Debug, Clone, PartialEq)]
pub struct OpenCreatedItem {
    pub key: String,
    pub value: String,
    pub comment: Option<String>,
    pub data_change_created_by: String,
}

impl Default for OpenCreatedItem {
    /// An empty item without a comment.
    fn default() -> (r: Self)
        ensures
            r.key@ == Seq::<char>::empty(),
            r.value@ == Seq::<char>::empty(),
            r.comment is None,
            r.data_change_created_by@ == Seq::<char>::empty(),
    {
        OpenCreatedItem {
            key: String::new(),
            value: String::new(),
            comment: None,
            data_change_created_by: String::new(),
        }
    }
}

/// Item for [`crate::open::requests::OpenUpdateItemRequest`].
#[derive(Debug, Clone, PartialEq)]
pub struct OpenUpdateItem {
    pub key: String,
    pub value: String,
    pub comment: Option<String>,
    pub data_change_created_by: Option<String>,
    pub data_change_last_modified_by: String,
}

impl Default for OpenUpdateItem {
    /// An empty update without a comment or creator.
    fn default() -> (r: Self)
        ensures
            r.key@ == Seq::<char>::empty(),
            r.value@ == Seq::<char>::empty(),
            r.comment is None,
            r.data_change_created_by is None,
            r.data_change_last_modified_by@ == Seq::<char>::empty(),
    {
        OpenUpdateItem {
            key: String::new(),
            value: String::new(),
            comment: None,
            data_change_created_by: None,
            data_change_last_modified_by: String::new(),
        }
    }
}

/// Item for [`crate::open::requests::OpenPublishNamespaceRequest`].
#[derive(Debug, Clone, PartialEq)]
pub struct OpenRelease {
    pub release_title: String,
    pub release_comment: Option<String>,
    pub released_by: String,
}

impl Default for OpenRelease {
    /// An empty release without a comment.
    fn default() -> (r: Self)
        ensures
            r.release_title@ == Seq::<char>::empty(),
            r.release_comment is None,
            r.released_by@ == Seq::<char>::empty(),
    {
        OpenRelease {
            release_title: String::new(),
            release_comment: None,
            released_by: String::new(),
        }
    }
}

} // verus!
