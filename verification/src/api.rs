//! The object model that the pipeline depends on.

use vstd::prelude::*;

verus! {

/// Empty struct for when data should be discarded.
#[derive(Clone, Default, Debug)]
pub struct NotUsed {}

/// Name and optional namespace of one object, as sequences of characters.
pub type Identity = (Seq<char>, Option<Seq<char>>);

/// The view of an optional string.
pub open spec fn option_view(s: Option<String>) -> Option<Seq<char>> {
    match s {
        Some(v) => Some(v@),
        None => None,
    }
}

/// A status object that the API server sends when a request fails.
#[derive(Debug, Clone)]
pub struct ErrorResponse {
    pub status: String,
    pub message: String,
    pub reason: String,
    pub code: u16,
}

/// A class of cluster objects: group, version, kind and optional namespace.
#[derive(Debug, Clone)]
pub struct Resource {
    pub group: String,
    pub version: String,
    pub kind: String,
    pub namespace: Option<String>,
}

/// Selectors that narrow what a watch lists.
#[derive(Debug, Clone)]
pub struct ListParams {
    pub field_selector: Option<String>,
    pub label_selector: Option<String>,
}

/// What the pipeline needs to read from a watched object, whatever its kind.
pub trait Meta {
    /// The object's name.
    spec fn spec_name(&self) -> Seq<char>;

    /// The object's namespace, if it is namespaced.
    spec fn spec_namespace(&self) -> Option<Seq<char>>;

    fn name(&self) -> (r: String)
        ensures
            r@ == self.spec_name(),
    ;

    fn namespace(&self) -> (r: Option<String>)
        ensures
            option_view(r) == self.spec_namespace(),
    ;
}

/// The metadata of an object, reduced to what identifies it.
#[derive(Debug, Clone)]
pub struct ObjectMeta {
    pub name: String,
    pub namespace: Option<String>,
}

impl Meta for ObjectMeta {
    open spec fn spec_name(&self) -> Seq<char> {
        self.name@
    }

    open spec fn spec_namespace(&self) -> Option<Seq<char>> {
        option_view(self.namespace)
    }

    fn name(&self) -> (r: String) {
        self.name.clone()
    }

    fn namespace(&self) -> (r: Option<String>) {
        match &self.namespace {
            Some(ns) => Some(ns.clone()),
            None => None,
        }
    }
}

/// One notification from a watch source.
#[derive(Debug)]
pub enum WatchEvent<K> {
    /// The object was observed for the first time.
    Added(K),
    /// The object's state changed.
    Modified(K),
    /// The object was removed.
    Deleted(K),
    /// The watch stream itself failed.
    Error(ErrorResponse),
}

} // verus!
