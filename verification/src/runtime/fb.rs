//! The capability set of a function block, and the port handles it gives out.

use crate::protocol::server::{outcome_view, Data, Error};
use crate::runtime::model::{refusal, respond, BlockModel};
use crate::runtime::Request;
use vstd::prelude::*;

verus! {

/// A data input of a block.
#[derive(Clone, Debug)]
pub struct DataInput {}

/// A data output of a block.
#[derive(Clone, Debug)]
pub struct DataOutput {}

/// An event input of a block.
#[derive(Clone, Debug)]
pub struct EventInput {}

/// An event output of a block.
#[derive(Clone, Debug)]
pub struct EventOutput {}

/// A named instance of a registered type: the unit of composition and
/// addressing. Every block is described by a [`BlockModel`], and each
/// capability is what the model says: the type tag and the ports are those of
/// the model, and a request is answered as [`respond`] answers it. A block is
/// thus a leaf, which refuses every request, or a resource.
pub trait FunctionBlock: Send {
    /// The block as a mathematical value.
    spec fn model(&self) -> BlockModel;

    /// The stable tag of the block's type.
    fn type_tag(&self) -> (tag: String)
        ensures
            tag@ == self.model().type_tag,
    ;

    /// Handles a request that has reached this block, with what is left of its
    /// destination.
    fn request(&mut self, request: Request) -> (reply: Result<Option<Data>, Error>)
        ensures
            (final(self).model(), outcome_view(reply)) == respond(old(self).model(), request@),
    ;

    /// The data output called `name`, if the block has one.
    fn get_data_output(&self, name: &str) -> (port: Option<DataOutput>)
        ensures
            port is Some <==> self.model().data_outputs.contains(name@),
    ;

    /// The data input called `name`, if the block has one.
    fn get_data_input(&self, name: &str) -> (port: Option<DataInput>)
        ensures
            port is Some <==> self.model().data_inputs.contains(name@),
    ;

    /// The event output called `name`, if the block has one.
    fn get_event_output(&self, name: &str) -> (port: Option<EventOutput>)
        ensures
            port is Some <==> self.model().event_outputs.contains(name@),
    ;

    /// The event input called `name`, if the block has one.
    fn get_event_input(&self, name: &str) -> (port: Option<EventInput>)
        ensures
            port is Some <==> self.model().event_inputs.contains(name@),
    ;
}

/// A freshly made block of some type, owned by whoever asked for it.
pub struct Instance {
    pub block: Box<dyn FunctionBlock>,
}

/// The answer of a block that routes nowhere: `InvalidOperation` to a request
/// addressed to it, `InvalidDestination` to one addressed beyond it.
pub fn refuse(request: &Request) -> (reply: Result<Option<Data>, Error>)
    ensures
        reply == Err::<Option<Data>, Error>(refusal(request@.destination)),
{
    if request.destination.is_empty() {
        Err(Error::InvalidOperation)
    } else {
        Err(Error::InvalidDestination)
    }
}

} // verus!
