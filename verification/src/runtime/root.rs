//! The factory of the root container, which hosts embedded resources only.

use crate::runtime::emb_res::{EmbeddedResource, Lifecycle};
use crate::runtime::factory::{CreationError, FunctionBlockFactory};
use crate::runtime::fb::FunctionBlock;
use crate::runtime::model::{empty_container, resource, BlockModel};
use crate::text::same_text;
use std::sync::Arc;
use vstd::prelude::*;

verus! {

/// `Arc::clone`: a second handle to the value that `shared` points to.
#[verifier::external_body]
fn share<T>(shared: &Arc<T>) -> (handle: Arc<T>)
    ensures
        handle == *shared,
{
    Arc::clone(shared)
}

impl<F> FunctionBlockFactory for Arc<F> where F: FunctionBlockFactory {
    open spec fn catalog(&self) -> Map<Seq<char>, BlockModel> {
        (**self).catalog()
    }

    fn create(&self, type_tag: &str) -> (created: Result<Box<dyn FunctionBlock>, CreationError>) {
        (**self).create(type_tag)
    }
}

/// A factory that knows the type `EMB_RES` and nothing else. Every resource
/// it makes instantiates its own children from the one factory given here.
pub struct RootFactory<F> where F: FunctionBlockFactory {
    factory: Arc<F>,
}

/// The catalog of a root factory around a factory with the catalog `inner`:
/// `EMB_RES` alone, a stopped resource that holds nothing yet.
pub open spec fn root_catalog(inner: Map<Seq<char>, BlockModel>) -> Map<Seq<char>, BlockModel> {
    map!["EMB_RES"@ => resource(Lifecycle::Stopped, empty_container(inner))]
}

impl<F> RootFactory<F> where F: FunctionBlockFactory {
    /// The catalog of the factory that the resources share.
    pub closed spec fn inner(&self) -> Map<Seq<char>, BlockModel> {
        self.factory.catalog()
    }

    /// A root factory whose resources instantiate from `factory`.
    pub fn new(factory: F) -> (root: Self)
        ensures
            root.inner() == factory.catalog(),
    {
        Self { factory: Arc::new(factory) }
    }
}

impl<F> FunctionBlockFactory for RootFactory<F> where F: FunctionBlockFactory + Send + Sync + 'static {
    open spec fn catalog(&self) -> Map<Seq<char>, BlockModel> {
        root_catalog(self.inner())
    }

    fn create(&self, type_tag: &str) -> (created: Result<Box<dyn FunctionBlock>, CreationError>) {
        if same_text(type_tag, "EMB_RES") {
            Ok(Box::new(EmbeddedResource::new(share(&self.factory))))
        } else {
            Err(CreationError::UnknownType)
        }
    }
}

} // verus!
