//! The standard block types. Their type tags and ports are in place; they do
//! not execute anything yet.

use crate::protocol::server::{Data, Error};
use crate::runtime::factory::Creator;
use crate::runtime::fb::{
    refuse, DataInput, DataOutput, EventInput, EventOutput, FunctionBlock, Instance,
};
use crate::runtime::model::{leaf, BlockModel};
use crate::runtime::Request;
use crate::text::same_text;
use vstd::prelude::*;

verus! {

/// The model of a switch: type `E_SWITCH`, one data input `G`.
pub open spec fn switch_model() -> BlockModel {
    leaf("E_SWITCH"@, set!["G"@], Set::empty())
}

/// The model of a cycle: type `E_CYCLE`, one data input `DT`.
pub open spec fn cycle_model() -> BlockModel {
    leaf("E_CYCLE"@, set!["DT"@], Set::empty())
}

/// The model of a set-reset: type `E_SR`, one data output `Q`.
pub open spec fn set_reset_model() -> BlockModel {
    leaf("E_SR"@, Set::empty(), set!["Q"@])
}

/// A switch.
pub struct Switch {
    g: DataInput,
}

impl Switch {
    pub fn new() -> (block: Self)
        ensures
            block.model() == switch_model(),
    {
        Self { g: DataInput {  } }
    }
}

impl FunctionBlock for Switch {
    open spec fn model(&self) -> BlockModel {
        switch_model()
    }

    fn type_tag(&self) -> (tag: String) {
        "E_SWITCH".to_owned()
    }

    fn request(&mut self, request: Request) -> (reply: Result<Option<Data>, Error>) {
        refuse(&request)
    }

    fn get_data_output(&self, name: &str) -> (port: Option<DataOutput>) {
        None
    }

    fn get_data_input(&self, name: &str) -> (port: Option<DataInput>) {
        if same_text(name, "G") {
            Some(self.g.clone())
        } else {
            None
        }
    }

    fn get_event_output(&self, name: &str) -> (port: Option<EventOutput>) {
        None
    }

    fn get_event_input(&self, name: &str) -> (port: Option<EventInput>) {
        None
    }
}

impl Creator for Switch {
    open spec fn product(&self) -> BlockModel {
        switch_model()
    }

    fn create(&self) -> (created: Instance) {
        Instance { block: Box::new(Switch::new()) }
    }
}

/// A cycle.
pub struct Cycle {
    dt: DataInput,
}

impl Cycle {
    pub fn new() -> (block: Self)
        ensures
            block.model() == cycle_model(),
    {
        Self { dt: DataInput {  } }
    }
}

impl FunctionBlock for Cycle {
    open spec fn model(&self) -> BlockModel {
        cycle_model()
    }

    fn type_tag(&self) -> (tag: String) {
        "E_CYCLE".to_owned()
    }

    fn request(&mut self, request: Request) -> (reply: Result<Option<Data>, Error>) {
        refuse(&request)
    }

    fn get_data_output(&self, name: &str) -> (port: Option<DataOutput>) {
        None
    }

    fn get_data_input(&self, name: &str) -> (port: Option<DataInput>) {
        if same_text(name, "DT") {
            Some(self.dt.clone())
        } else {
            None
        }
    }

    fn get_event_output(&self, name: &str) -> (port: Option<EventOutput>) {
        None
    }

    fn get_event_input(&self, name: &str) -> (port: Option<EventInput>) {
        None
    }
}

impl Creator for Cycle {
    open spec fn product(&self) -> BlockModel {
        cycle_model()
    }

    fn create(&self) -> (created: Instance) {
        Instance { block: Box::new(Cycle::new()) }
    }
}

/// A set-reset.
pub struct SetReset {
    q: DataOutput,
}

impl SetReset {
    pub fn new() -> (block: Self)
        ensures
            block.model() == set_reset_model(),
    {
        Self { q: DataOutput {  } }
    }
}

impl FunctionBlock for SetReset {
    open spec fn model(&self) -> BlockModel {
        set_reset_model()
    }

    fn type_tag(&self) -> (tag: String) {
        "E_SR".to_owned()
    }

    fn request(&mut self, request: Request) -> (reply: Result<Option<Data>, Error>) {
        refuse(&request)
    }

    fn get_data_output(&self, name: &str) -> (port: Option<DataOutput>) {
        if same_text(name, "Q") {
            Some(self.q.clone())
        } else {
            None
        }
    }

    fn get_data_input(&self, name: &str) -> (port: Option<DataInput>) {
        None
    }

    fn get_event_output(&self, name: &str) -> (port: Option<EventOutput>) {
        None
    }

    fn get_event_input(&self, name: &str) -> (port: Option<EventInput>) {
        None
    }
}

impl Creator for SetReset {
    open spec fn product(&self) -> BlockModel {
        set_reset_model()
    }

    fn create(&self) -> (created: Instance) {
        Instance { block: Box::new(SetReset::new()) }
    }
}

} // verus!
