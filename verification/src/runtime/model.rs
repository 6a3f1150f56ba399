//! The mathematical model of the block hierarchy: what a block and a container
//! are as values, and how each answers a request. The executable types are
//! specified as refinements of these functions.

use crate::protocol::server::{Action, DataView, Error, FunctionBlockView};
use crate::runtime::container::{AddError, ConnectError};
use crate::runtime::emb_res::Lifecycle;
use crate::text::split;
use vstd::prelude::*;

verus! {

/// A block as a value: its type tag, the names of its ports, and what lies
/// inside it.
pub struct BlockModel {
    pub type_tag: Seq<char>,
    pub data_inputs: Set<Seq<char>>,
    pub data_outputs: Set<Seq<char>>,
    pub event_inputs: Set<Seq<char>>,
    pub event_outputs: Set<Seq<char>>,
    pub body: Body,
}

/// What lies inside a block: nothing, for a leaf, which refuses every request;
/// or a lifecycle state and a container, for a resource.
pub enum Body {
    Leaf,
    Resource { state: Lifecycle, container: ContainerModel },
}

/// One end of a connection: a port of a child block.
pub struct PortView {
    pub block: Seq<char>,
    pub port: Seq<char>,
}

/// A container as a value: the types it can instantiate, each with the model
/// of a fresh instance; its children by name, oldest first; and the
/// connections installed between their ports, oldest first.
pub struct ContainerModel {
    pub catalog: Map<Seq<char>, BlockModel>,
    pub children: Seq<(Seq<char>, BlockModel)>,
    pub bindings: Seq<(PortView, PortView)>,
}

/// A request as a value: the path still to travel, the verb and the payload.
pub struct RequestView {
    pub destination: Seq<Seq<char>>,
    pub action: Action,
    pub data: Option<DataView>,
}

/// What handling a request gives: an optional payload, or the reason for
/// failure.
pub type Reply = Result<Option<DataView>, Error>;

/// A leaf block with the given tag and data ports, and no event ports.
pub open spec fn leaf(type_tag: Seq<char>, data_inputs: Set<Seq<char>>, data_outputs: Set<Seq<char>>) -> BlockModel {
    BlockModel {
        type_tag,
        data_inputs,
        data_outputs,
        event_inputs: Set::empty(),
        event_outputs: Set::empty(),
        body: Body::Leaf,
    }
}

/// A container that instantiates from `catalog` and holds nothing yet.
pub open spec fn empty_container(catalog: Map<Seq<char>, BlockModel>) -> ContainerModel {
    ContainerModel { catalog, children: Seq::empty(), bindings: Seq::empty() }
}

/// A resource block in the given state around the given container.
pub open spec fn resource(state: Lifecycle, container: ContainerModel) -> BlockModel {
    BlockModel {
        type_tag: "EMB_RES"@,
        data_inputs: Set::empty(),
        data_outputs: Set::empty(),
        event_inputs: Set::empty(),
        event_outputs: Set::empty(),
        body: Body::Resource { state, container },
    }
}

/// The index of the first child called `name`, if there is one.
pub open spec fn find(children: Seq<(Seq<char>, BlockModel)>, name: Seq<char>) -> Option<int>
    decreases children.len(),
{
    if children.len() == 0 {
        None
    } else if children[0].0 == name {
        Some(0)
    } else {
        match find(children.drop_first(), name) {
            Some(i) => Some(i + 1),
            None => None,
        }
    }
}

/// The index of the first binding from `source` to `destination`, if there is
/// one.
pub open spec fn find_binding(bindings: Seq<(PortView, PortView)>, source: PortView, destination: PortView) -> Option<int>
    decreases bindings.len(),
{
    if bindings.len() == 0 {
        None
    } else if bindings[0] == (source, destination) {
        Some(0)
    } else {
        match find_binding(bindings.drop_first(), source, destination) {
            Some(i) => Some(i + 1),
            None => None,
        }
    }
}

/// The port reference that `text` spells: `block.port`, with exactly one dot.
pub open spec fn port_of(text: Seq<char>) -> Option<PortView> {
    let parts = split(text, '.');
    if parts.len() == 2 {
        Some(PortView { block: parts[0], port: parts[1] })
    } else {
        None
    }
}

/// The children as a payload lists them: name and type tag, in order.
pub open spec fn listing(children: Seq<(Seq<char>, BlockModel)>) -> Seq<FunctionBlockView> {
    Seq::new(
        children.len(),
        |i: int| FunctionBlockView { name: children[i].0, type_tag: children[i].1.type_tag },
    )
}

/// Adding a child: refused where the name is taken, then where the type is
/// unknown; else a fresh instance of the type joins the children.
pub open spec fn add_child(c: ContainerModel, name: Seq<char>, type_tag: Seq<char>) -> (
    ContainerModel,
    Result<(), AddError>,
) {
    if find(c.children, name) is Some {
        (c, Err(AddError::ItemAlreadyExist))
    } else if !c.catalog.contains_key(type_tag) {
        (c, Err(AddError::UnknownType))
    } else {
        (ContainerModel { children: c.children.push((name, c.catalog[type_tag])), ..c }, Ok(()))
    }
}

/// Removing a child by name; a name that is not there changes nothing. The
/// child goes with all that is inside it; connections stay as they are.
pub open spec fn remove_child(c: ContainerModel, name: Seq<char>) -> ContainerModel {
    match find(c.children, name) {
        Some(i) => ContainerModel { children: c.children.remove(i), ..c },
        None => c,
    }
}

/// Why the connection from `source` to `destination` cannot be resolved, if
/// it cannot: the source block, its data output, the destination block and its
/// data input are looked up in this order.
pub open spec fn resolve(c: ContainerModel, source: PortView, destination: PortView) -> Option<
    ConnectError,
> {
    match find(c.children, source.block) {
        None => Some(ConnectError::UnknownBlock),
        Some(i) => if !c.children[i].1.data_outputs.contains(source.port) {
            Some(ConnectError::UnknownPort)
        } else {
            match find(c.children, destination.block) {
                None => Some(ConnectError::UnknownBlock),
                Some(j) => if !c.children[j].1.data_inputs.contains(destination.port) {
                    Some(ConnectError::UnknownPort)
                } else {
                    None
                },
            }
        },
    }
}

/// Installing a connection: both ends are resolved first, and a failure leaves
/// the container as it was. A connection that is already installed stays so.
pub open spec fn connect(c: ContainerModel, source: PortView, destination: PortView) -> (
    ContainerModel,
    Result<(), ConnectError>,
) {
    match resolve(c, source, destination) {
        Some(e) => (c, Err(e)),
        None => if find_binding(c.bindings, source, destination) is Some {
            (c, Ok(()))
        } else {
            (ContainerModel { bindings: c.bindings.push((source, destination)), ..c }, Ok(()))
        },
    }
}

/// Removing a connection: both ends are resolved as for installing; a
/// connection that was never installed is reported and changes nothing.
pub open spec fn disconnect(c: ContainerModel, source: PortView, destination: PortView) -> (
    ContainerModel,
    Result<(), ConnectError>,
) {
    match resolve(c, source, destination) {
        Some(e) => (c, Err(e)),
        None => match find_binding(c.bindings, source, destination) {
            Some(i) => (ContainerModel { bindings: c.bindings.remove(i), ..c }, Ok(())),
            None => (c, Err(ConnectError::UnknownBinding)),
        },
    }
}

/// The reply that reports how adding a child went.
pub open spec fn added_reply(added: Result<(), AddError>) -> Reply {
    match added {
        Ok(_) => Ok(None),
        Err(e) => Err(e.reason()),
    }
}

/// The reply that reports how installing or removing a connection went.
pub open spec fn connected_reply(connected: Result<(), ConnectError>) -> Reply {
    match connected {
        Ok(_) => Ok(None),
        Err(e) => Err(e.reason()),
    }
}

/// What a container does with a request addressed to itself.
pub open spec fn local(c: ContainerModel, action: Action, data: Option<DataView>) -> (ContainerModel, Reply) {
    match (action, data) {
        (Action::Query, Some(DataView::FunctionBlock { name, type_tag })) => {
            if name == "*"@ && type_tag == "*"@ && c.children.len() > 0 {
                (c, Ok(Some(DataView::FunctionBlockList(listing(c.children)))))
            } else {
                (c, Ok(None))
            }
        },
        (Action::Create, Some(DataView::FunctionBlock { name, type_tag })) => {
            let (after, added) = add_child(c, name, type_tag);
            (after, added_reply(added))
        },
        (Action::Delete, Some(DataView::FunctionBlock { name, type_tag })) => (remove_child(c, name), Ok(None)),
        (Action::Create, Some(DataView::Connection { source, destination })) => {
            match (port_of(source), port_of(destination)) {
                (Some(s), Some(d)) => {
                    let (after, connected) = connect(c, s, d);
                    (after, connected_reply(connected))
                },
                _ => (c, Err(Error::InvalidDestination)),
            }
        },
        (Action::Delete, Some(DataView::Connection { source, destination })) => {
            match (port_of(source), port_of(destination)) {
                (Some(s), Some(d)) => {
                    let (after, connected) = disconnect(c, s, d);
                    (after, connected_reply(connected))
                },
                _ => (c, Err(Error::InvalidDestination)),
            }
        },
        (Action::Read, Some(DataView::Watches)) => (c, Ok(None)),
        _ => (c, Err(Error::InvalidOperation)),
    }
}

/// What a block that routes nowhere answers: a request addressed to it is not
/// an operation it has, and one addressed beyond it has no destination.
pub open spec fn refusal(destination: Seq<Seq<char>>) -> Error {
    if destination.len() == 0 {
        Error::InvalidOperation
    } else {
        Error::InvalidDestination
    }
}

/// What a container does with a request: one with a path goes to the child
/// that the head of the path names, with the rest of the path; one without is
/// handled here.
pub open spec fn dispatch(c: ContainerModel, request: RequestView) -> (ContainerModel, Reply)
    decreases request.destination.len(), 0nat,
{
    if request.destination.len() > 0 {
        match find(c.children, request.destination[0]) {
            Some(i) => {
                let onward = RequestView { destination: request.destination.drop_first(), ..request };
                let (child, reply) = respond(c.children[i].1, onward);
                (ContainerModel { children: c.children.update(i, (c.children[i].0, child)), ..c }, reply)
            },
            None => (c, Err(Error::InvalidDestination)),
        }
    } else {
        local(c, request.action, request.data)
    }
}

/// What a block does with a request. A leaf refuses. A resource routes a
/// request with a path through its container; of those addressed to itself it
/// takes the lifecycle verbs and leaves the rest to its container.
pub open spec fn respond(block: BlockModel, request: RequestView) -> (BlockModel, Reply)
    decreases request.destination.len(), 1nat,
{
    match block.body {
        Body::Leaf => (block, Err(refusal(request.destination))),
        Body::Resource { state, container } => {
            if request.destination.len() == 0 && request.action == Action::Start {
                (BlockModel { body: Body::Resource { state: Lifecycle::Running, container }, ..block }, Ok(None))
            } else if request.destination.len() == 0 && (request.action == Action::Stop
                || request.action == Action::Kill) {
                (BlockModel { body: Body::Resource { state: Lifecycle::Stopped, container }, ..block }, Ok(None))
            } else {
                let (inner, reply) = dispatch(container, request);
                (BlockModel { body: Body::Resource { state, container: inner }, ..block }, reply)
            }
        },
    }
}

/// No two of the children share a name.
pub open spec fn distinct(children: Seq<(Seq<char>, BlockModel)>) -> bool {
    forall|i: int, j: int| 0 <= i < j < children.len() ==> children[i].0 != children[j].0
}

/// Names are unique in the container inside a block, if it has one, and in
/// every container below it.
pub open spec fn unique_below(block: BlockModel) -> bool
    decreases block, 0nat,
{
    match block.body {
        Body::Leaf => true,
        Body::Resource { state, container } => unique_names(container),
    }
}

/// Names are unique among the children of a container, in every container
/// below it, and in whatever the container may still instantiate.
pub open spec fn unique_names(c: ContainerModel) -> bool
    decreases c, 1nat,
{
    &&& distinct(c.children)
    &&& forall|i: int| 0 <= i < c.children.len() ==> unique_below(#[trigger] c.children[i].1)
    &&& forall|tag: Seq<char>| #[trigger]
        c.catalog.contains_key(tag) ==> unique_below(c.catalog[tag])
}

} // verus!
