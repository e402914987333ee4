//! Common api metadata: namespace kinds, request methods and protocol defaults.

use vstd::prelude::*;
use crate::utils::spec_ends_with;
use crate::utils::str_ends_with;

verus! {

/// Cluster requested when the caller names none.
pub const DEFAULT_CLUSTER_NAME: &'static str = "default";

/// Overall request timeout of the plain configuration apis, in milliseconds.
pub const DEFAULT_TIMEOUT_MS: u64 = 30_000;

/// Client-side timeout of one long-poll notification check, in milliseconds;
/// it exceeds the server's own hold window by a safety margin.
pub const DEFAULT_NOTIFY_TIMEOUT_MS: u64 = 90_000;

/// Client-side timeout of the very first notification check of a session, in
/// milliseconds. The server may hold a request made of only uninitialized
/// entries for its full window, while the right action — the unconditional
/// first fetch — should happen at once; a short timeout falls through to it.
pub const INITIAL_NOTIFY_TIMEOUT_MS: u64 = 3_000;

/// Http method of a request, as far as these apis use them.
#[derive(Debug, Clone, Copy, PartialEq, Eq, Structural)]
pub enum HttpMethod {
    Get,
    Post,
    Put,
}

/// Kind of a configuration namespace.
#[derive(Debug, Clone, Copy, PartialEq, Eq, Structural)]
pub enum NamespaceKind {
    Properties,
    Xml,
    Json,
    Yaml,
    Txt,
}

/// The kind a namespace name of the given characters denotes: decided by its
/// suffix, with `.properties` the default for suffix-less names.
pub open spec fn spec_infer_namespace_kind(s: Seq<char>) -> NamespaceKind {
    if spec_ends_with(s, ".xml"@) {
        NamespaceKind::Xml
    } else if spec_ends_with(s, ".json"@) {
        NamespaceKind::Json
    } else if spec_ends_with(s, ".yml"@) || spec_ends_with(s, ".yaml"@) {
        NamespaceKind::Yaml
    } else if spec_ends_with(s, ".txt"@) {
        NamespaceKind::Txt
    } else {
        NamespaceKind::Properties
    }
}

/// The lower-case name of a namespace kind.
pub open spec fn spec_namespace_kind_name(k: NamespaceKind) -> Seq<char> {
    match k {
        NamespaceKind::Properties => "properties"@,
        NamespaceKind::Xml => "xml"@,
        NamespaceKind::Json => "json"@,
        NamespaceKind::Yaml => "yaml"@,
        NamespaceKind::Txt => "txt"@,
    }
}

impl NamespaceKind {
    /// Infer the configuration namespace kind.
    pub fn infer_namespace_kind(namespace_name: &str) -> (r: Self)
        ensures
            r == spec_infer_namespace_kind(namespace_name@),
    {
        if str_ends_with(namespace_name, ".xml") {
            NamespaceKind::Xml
        } else if str_ends_with(namespace_name, ".json") {
            NamespaceKind::Json
        } else if str_ends_with(namespace_name, ".yml") || str_ends_with(namespace_name, ".yaml") {
            NamespaceKind::Yaml
        } else if str_ends_with(namespace_name, ".txt") {
            NamespaceKind::Txt
        } else {
            NamespaceKind::Properties
        }
    }

    /// The kind's lower-case name.
    pub fn as_str(&self) -> (r: &'static str)
        ensures
            r@ == spec_namespace_kind_name(*self),
    {
        match self {
            NamespaceKind::Properties => "properties",
            NamespaceKind::Xml => "xml",
            NamespaceKind::Json => "json",
            NamespaceKind::Yaml => "yaml",
            NamespaceKind::Txt => "txt",
        }
    }
}

} // verus!
