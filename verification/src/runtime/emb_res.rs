//! The embedded resource: a block that hosts a container and can be started
//! and stopped.

use crate::protocol::server::{Action, Data, Error};
use crate::runtime::container::SimpleContainer;
use crate::runtime::factory::FunctionBlockFactory;
use crate::runtime::fb::{DataInput, DataOutput, EventInput, EventOutput, FunctionBlock};
use crate::runtime::model::{empty_container, resource, BlockModel, ContainerModel};
use crate::runtime::Request;
use vstd::prelude::*;

verus! {

/// Whether a resource is running. A new resource is stopped.
#[derive(Clone, Copy, Debug, PartialEq, Eq, Structural)]
pub enum Lifecycle {
    Stopped,
    Running,
}

/// A block of type `EMB_RES`: a container of blocks with a lifecycle.
pub struct EmbeddedResource<F> where F: FunctionBlockFactory {
    state: Lifecycle,
    container: SimpleContainer<F>,
}

impl<F> EmbeddedResource<F> where F: FunctionBlockFactory {
    /// The lifecycle state.
    pub closed spec fn lifecycle(&self) -> Lifecycle {
        self.state
    }

    /// The container inside, as a mathematical value.
    pub closed spec fn hosted(&self) -> ContainerModel {
        self.container@
    }

    /// A stopped resource around an empty container that instantiates from
    /// `factory`.
    pub fn new(factory: F) -> (res: Self)
        ensures
            res.lifecycle() == Lifecycle::Stopped,
            res.hosted() == empty_container(factory.catalog()),
    {
        Self { state: Lifecycle::Stopped, container: SimpleContainer::new(factory) }
    }

    /// Starts the resource. Starting a running resource changes nothing.
    pub fn start(&mut self)
        ensures
            final(self).lifecycle() == Lifecycle::Running,
            final(self).hosted() == old(self).hosted(),
    {
        self.state = Lifecycle::Running;
    }

    /// Stops the resource. Stopping a stopped resource changes nothing.
    pub fn stop(&mut self)
        ensures
            final(self).lifecycle() == Lifecycle::Stopped,
            final(self).hosted() == old(self).hosted(),
    {
        self.state = Lifecycle::Stopped;
    }

    /// Whether the resource is running.
    pub fn is_running(&self) -> (running: bool)
        ensures
            running == (self.lifecycle() == Lifecycle::Running),
    {
        match self.state {
            Lifecycle::Running => true,
            Lifecycle::Stopped => false,
        }
    }
}

impl<F> FunctionBlock for EmbeddedResource<F> where F: FunctionBlockFactory + Send {
    open spec fn model(&self) -> BlockModel {
        resource(self.lifecycle(), self.hosted())
    }

    fn type_tag(&self) -> (tag: String) {
        "EMB_RES".to_owned()
    }

    fn request(&mut self, request: Request) -> (reply: Result<Option<Data>, Error>) {
        if !request.destination.is_empty() {
            return self.container.process_request(request);
        }
        match request.action {
            Action::Start => {
                self.start();
                Ok(None)
            },
            Action::Stop => {
                self.stop();
                Ok(None)
            },
            Action::Kill => {
                self.stop();
                Ok(None)
            },
            _ => self.container.process_request(request),
        }
    }

    fn get_data_output(&self, name: &str) -> (port: Option<DataOutput>) {
        None
    }

    fn get_data_input(&self, name: &str) -> (port: Option<DataInput>) {
        None
    }

    fn get_event_output(&self, name: &str) -> (port: Option<EventOutput>) {
        None
    }

    fn get_event_input(&self, name: &str) -> (port: Option<EventInput>) {
        None
    }
}

} // verus!
