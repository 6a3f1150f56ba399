//! Block types: the standard ones, and a mock for any type tag.

pub mod standard;

use crate::protocol::server::{Data, Error};
use crate::runtime::factory::Creator;
use crate::runtime::fb::{
    refuse, DataInput, DataOutput, EventInput, EventOutput, FunctionBlock, Instance,
};
use crate::runtime::model::{leaf, BlockModel};
use crate::runtime::Request;
use vstd::prelude::*;

verus! {

/// A block without ports that carries whatever type tag it is given.
pub struct MockFunctionBlock(String);

impl MockFunctionBlock {
    /// The type tag that the block carries.
    pub closed spec fn tag(&self) -> Seq<char> {
        self.0@
    }

    /// A creator of mock blocks with the type tag `type_tag`.
    pub fn creator(type_tag: &str) -> (creator: MockFunctionBlock)
        ensures
            creator.tag() == type_tag@,
    {
        MockFunctionBlock(type_tag.to_owned())
    }
}

impl FunctionBlock for MockFunctionBlock {
    open spec fn model(&self) -> BlockModel {
        leaf(self.tag(), Set::empty(), Set::empty())
    }

    fn type_tag(&self) -> (tag: String) {
        self.0.clone()
    }

    fn request(&mut self, request: Request) -> (reply: Result<Option<Data>, Error>) {
        refuse(&request)
    }

    fn get_data_output(&self, name: &str) -> (port: Option<DataOutput>) {
        None
    }

    fn get_data_input(&self, name: &str) -> (port: Option<DataInput>) {
        None
    }

    fn get_event_output(&self, name: &str) -> (port: Option<EventOutput>) {
        None
    }

    fn get_event_input(&self, name: &str) -> (port: Option<EventInput>) {
        None
    }
}

impl Creator for MockFunctionBlock {
    open spec fn product(&self) -> BlockModel {
        leaf(self.tag(), Set::empty(), Set::empty())
    }

    fn create(&self) -> (created: Instance) {
        Instance { block: Box::new(MockFunctionBlock(self.0.clone())) }
    }
}

} // verus!
