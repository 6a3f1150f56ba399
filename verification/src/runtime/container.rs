//! The container: named children, and the dispatch of requests to them or to
//! the container itself.

use crate::protocol::server::{entry_views, outcome_view, Action, Data, Error, FunctionBlock as Entry};
use crate::runtime::factory::{CreationError, FunctionBlockFactory};
use crate::runtime::fb::FunctionBlock;
use crate::runtime::model::{
    add_child, connect, disconnect, dispatch, empty_container, find, find_binding, listing, local,
    port_of, remove_child, resolve, respond, unique_names, BlockModel, ContainerModel, PortView,
};
use crate::runtime::lemmas::lemma_names_stay_unique;
use crate::runtime::Request;
use crate::text::{same_text, split_text};
use vstd::prelude::*;

verus! {

/// Why a child was not added.
#[derive(Clone, Copy, Debug, PartialEq, Eq, Structural)]
pub enum AddError {
    ItemAlreadyExist,
    UnknownType,
    Internal,
}

impl AddError {
    /// The protocol error that reports this failure.
    pub open spec fn reason(self) -> Error {
        match self {
            AddError::ItemAlreadyExist => Error::DuplicateObject,
            AddError::UnknownType => Error::UnsupportedType,
            AddError::Internal => Error::Unknown,
        }
    }
}

impl From<AddError> for Error {
    fn from(e: AddError) -> (reason: Error) {
        match e {
            AddError::ItemAlreadyExist => Error::DuplicateObject,
            AddError::UnknownType => Error::UnsupportedType,
            AddError::Internal => Error::Unknown,
        }
    }
}

impl vstd::std_specs::convert::FromSpecImpl<AddError> for Error {
    open spec fn obeys_from_spec() -> bool {
        true
    }

    open spec fn from_spec(e: AddError) -> Error {
        e.reason()
    }
}

/// Why a connection was not installed or removed.
#[derive(Clone, Copy, Debug, PartialEq, Eq, Structural)]
pub enum ConnectError {
    UnknownBlock,
    UnknownPort,
    UnknownBinding,
}

impl ConnectError {
    /// The protocol error that reports this failure.
    pub open spec fn reason(self) -> Error {
        match self {
            ConnectError::UnknownBlock => Error::NoSuchObject,
            ConnectError::UnknownPort => Error::InvalidObject,
            ConnectError::UnknownBinding => Error::NoSuchObject,
        }
    }
}

impl From<ConnectError> for Error {
    fn from(e: ConnectError) -> (reason: Error) {
        match e {
            ConnectError::UnknownBlock => Error::NoSuchObject,
            ConnectError::UnknownPort => Error::InvalidObject,
            ConnectError::UnknownBinding => Error::NoSuchObject,
        }
    }
}

impl vstd::std_specs::convert::FromSpecImpl<ConnectError> for Error {
    open spec fn obeys_from_spec() -> bool {
        true
    }

    open spec fn from_spec(e: ConnectError) -> Error {
        e.reason()
    }
}

/// One end of a connection: a port of a child, written `block.port`.
#[derive(Clone, Debug, PartialEq, Eq, Hash)]
pub struct PortDestination {
    block: String,
    port: String,
}

impl View for PortDestination {
    type V = PortView;

    closed spec fn view(&self) -> PortView {
        PortView { block: self.block@, port: self.port@ }
    }
}

impl PortDestination {
    /// Parses `block.port`. A text with no dot, or with more than one, is no
    /// port reference.
    pub fn from_str(name: &str) -> (parsed: Result<PortDestination, ()>)
        ensures
            parsed is Ok <==> port_of(name@) is Some,
            parsed matches Ok(p) ==> Some(p@) == port_of(name@),
    {
        let mut parts = split_text(name, '.');
        if parts.len() != 2 {
            Err(())
        } else {
            let port = parts.remove(1);
            let block = parts.remove(0);
            Ok(PortDestination { block, port })
        }
    }

    /// The name of the block.
    pub fn block(&self) -> (name: &str)
        ensures
            name@ == self@.block,
    {
        self.block.as_str()
    }

    /// The name of the port on that block.
    pub fn port(&self) -> (name: &str)
        ensures
            name@ == self@.port,
    {
        self.port.as_str()
    }

    /// The reference as text: block, dot, port.
    pub fn to_text(&self) -> (text: String)
        ensures
            text@ == self@.block + seq!['.'] + self@.port,
    {
        proof {
            reveal_strlit(".");
        }
        let mut text = self.block.clone();
        text.append(".");
        text.append(self.port.as_str());
        text
    }
}

/// Parses both ends of a connection; `None` where either is no port
/// reference.
fn parse_ends(source: &str, destination: &str) -> (ends: Option<(PortDestination, PortDestination)>)
    ensures
        match (port_of(source@), port_of(destination@)) {
            (Some(s), Some(d)) => ends matches Some(e) && e.0@ == s && e.1@ == d,
            _ => ends is None,
        },
{
    match (PortDestination::from_str(source), PortDestination::from_str(destination)) {
        (Ok(source), Ok(destination)) => Some((source, destination)),
        _ => None,
    }
}

/// What a container offers for managing its children and their connections.
pub trait Container {
    /// The container as a mathematical value.
    spec fn model(&self) -> ContainerModel;

    /// Adds a child called `name` of the type `type_tag`.
    fn add_child(&mut self, name: String, type_tag: &str) -> (added: Result<(), AddError>)
        ensures
            (final(self).model(), added) == add_child(old(self).model(), name@, type_tag@),
    ;

    /// Removes the child called `name`, if there is one.
    fn remove_child(&mut self, name: &str)
        ensures
            final(self).model() == remove_child(old(self).model(), name@),
    ;

    /// Connects a data output to a data input.
    fn connect(&mut self, source: PortDestination, destination: PortDestination) -> (connected:
        Result<(), ConnectError>)
        ensures
            (final(self).model(), connected) == connect(old(self).model(), source@, destination@),
    ;

    /// Removes the connection from a data output to a data input.
    fn disconnect(&mut self, source: PortDestination, destination: PortDestination) -> (connected:
        Result<(), ConnectError>)
        ensures
            (final(self).model(), connected) == disconnect(
                old(self).model(),
                source@,
                destination@,
            ),
    ;
}

/// The children of a container as values: name and model, in order.
pub open spec fn child_models(children: Seq<(String, Box<dyn FunctionBlock>)>) -> Seq<
    (Seq<char>, BlockModel),
> {
    Seq::new(children.len(), |i: int| (children[i].0@, children[i].1.model()))
}

/// The connections of a container as values, in order.
pub open spec fn binding_views(bindings: Seq<(PortDestination, PortDestination)>) -> Seq<
    (PortView, PortView),
> {
    Seq::new(bindings.len(), |i: int| (bindings[i].0@, bindings[i].1@))
}

/// Where `find` looks: at `at` stands the first child called `name`, or no
/// child is called so.
pub proof fn lemma_find(children: Seq<(Seq<char>, BlockModel)>, name: Seq<char>)
    ensures
        match find(children, name) {
            Some(i) => 0 <= i < children.len() && children[i].0 == name && forall|j: int|
                0 <= j < i ==> children[j].0 != name,
            None => forall|j: int| 0 <= j < children.len() ==> children[j].0 != name,
        },
    decreases children.len(),
{
    if children.len() > 0 && children[0].0 != name {
        let rest = children.drop_first();
        lemma_find(rest, name);
        match find(rest, name) {
            Some(i) => {
                assert forall|j: int| 0 <= j < i + 1 implies children[j].0 != name by {
                    if j > 0 {
                        assert(rest[j - 1] == children[j]);
                    }
                }
            },
            None => {
                assert forall|j: int| 0 <= j < children.len() implies children[j].0 != name by {
                    if j > 0 {
                        assert(rest[j - 1] == children[j]);
                    }
                }
            },
        }
    }
}

/// Where `find_binding` looks: at the first binding between the two ports, or
/// there is none.
pub proof fn lemma_find_binding(
    bindings: Seq<(PortView, PortView)>,
    source: PortView,
    destination: PortView,
)
    ensures
        match find_binding(bindings, source, destination) {
            Some(i) => 0 <= i < bindings.len() && bindings[i] == (source, destination) && forall|
                j: int,
            |
                0 <= j < i ==> bindings[j] != (source, destination),
            None => forall|j: int| 0 <= j < bindings.len() ==> bindings[j] != (source, destination),
        },
    decreases bindings.len(),
{
    if bindings.len() > 0 && bindings[0] != (source, destination) {
        let rest = bindings.drop_first();
        lemma_find_binding(rest, source, destination);
        match find_binding(rest, source, destination) {
            Some(i) => {
                assert forall|j: int| 0 <= j < i + 1 implies bindings[j] != (
                    source,
                    destination,
                ) by {
                    if j > 0 {
                        assert(rest[j - 1] == bindings[j]);
                    }
                }
            },
            None => {
                assert forall|j: int| 0 <= j < bindings.len() implies bindings[j] != (
                    source,
                    destination,
                ) by {
                    if j > 0 {
                        assert(rest[j - 1] == bindings[j]);
                    }
                }
            },
        }
    }
}

/// A container that instantiates its children from a factory.
pub struct SimpleContainer<F> where F: FunctionBlockFactory {
    factory: F,
    children: Vec<(String, Box<dyn FunctionBlock>)>,
    bindings: Vec<(PortDestination, PortDestination)>,
}

impl<F> View for SimpleContainer<F> where F: FunctionBlockFactory {
    type V = ContainerModel;

    closed spec fn view(&self) -> ContainerModel {
        ContainerModel {
            catalog: self.factory.catalog(),
            children: child_models(self.children@),
            bindings: binding_views(self.bindings@),
        }
    }
}

impl<F> SimpleContainer<F> where F: FunctionBlockFactory {
    /// An empty container that instantiates from `factory`.
    pub fn new(factory: F) -> (container: Self)
        ensures
            container@ == empty_container(factory.catalog()),
    {
        let container = Self { factory, children: Vec::new(), bindings: Vec::new() };
        assert(container@.children =~= Seq::empty());
        assert(container@.bindings =~= Seq::empty());
        container
    }

    /// Handles a request: one with a destination goes to the child that the
    /// head of the destination names, one without is handled here. Names that
    /// were unique in every container of the hierarchy stay so.
    pub fn process_request(&mut self, request: Request) -> (reply: Result<Option<Data>, Error>)
        ensures
            (final(self)@, outcome_view(reply)) == dispatch(old(self)@, request@),
            unique_names(old(self)@) ==> unique_names(final(self)@),
    {
        proof {
            if unique_names(self@) {
                lemma_names_stay_unique(self@, request@);
            }
        }
        match request.pop() {
            (Some(next), request) => self.child_process_request(next, request),
            (None, request) => self.local_process_request(request),
        }
    }

    /// Hands a request to the child called `next`; without such a child the
    /// destination is invalid and nothing changes.
    pub fn child_process_request(&mut self, next: String, request: Request) -> (reply: Result<
        Option<Data>,
        Error,
    >)
        ensures
            (final(self)@, outcome_view(reply)) == (match find(old(self)@.children, next@) {
                Some(i) => {
                    let (child, reply) = respond(old(self)@.children[i].1, request@);
                    (
                        ContainerModel {
                            children: old(self)@.children.update(i, (old(self)@.children[i].0, child)),
                            ..old(self)@
                        },
                        reply,
                    )
                },
                None => (old(self)@, Err(Error::InvalidDestination)),
            }),
    {
        match self.position(next.as_str()) {
            Some(i) => {
                let reply = self.children[i].1.request(request);
                assert(self@.children =~= old(self)@.children.update(
                    i as int,
                    (old(self)@.children[i as int].0, self.children@[i as int].1.model()),
                ));
                reply
            },
            None => Err(Error::InvalidDestination),
        }
    }

    /// Handles a request addressed to this container.
    pub fn local_process_request(&mut self, request: Request) -> (reply: Result<Option<Data>, Error>)
        ensures
            (final(self)@, outcome_view(reply)) == local(
                old(self)@,
                request@.action,
                request@.data,
            ),
    {
        match (request.action, request.data) {
            (Action::Query, Some(Data::FunctionBlock { name, type_tag })) => {
                if same_text(name.as_str(), "*") && same_text(type_tag.as_str(), "*") {
                    if self.children.len() == 0 {
                        Ok(None)
                    } else {
                        Ok(Some(Data::FunctionBlockList(self.list())))
                    }
                } else {
                    Ok(None)
                }
            },
            (Action::Create, Some(Data::FunctionBlock { name, type_tag })) => {
                match self.add_child(name, type_tag.as_str()) {
                    Ok(_) => Ok(None),
                    Err(e) => Err(Error::from(e)),
                }
            },
            (Action::Delete, Some(Data::FunctionBlock { name, type_tag })) => {
                self.remove_child(name.as_str());
                Ok(None)
            },
            (Action::Create, Some(Data::Connection { source, destination })) => {
                match parse_ends(source.as_str(), destination.as_str()) {
                    Some((source, destination)) => match self.connect(source, destination) {
                        Ok(_) => Ok(None),
                        Err(e) => Err(Error::from(e)),
                    },
                    None => Err(Error::InvalidDestination),
                }
            },
            (Action::Delete, Some(Data::Connection { source, destination })) => {
                match parse_ends(source.as_str(), destination.as_str()) {
                    Some((source, destination)) => match self.disconnect(source, destination) {
                        Ok(_) => Ok(None),
                        Err(e) => Err(Error::from(e)),
                    },
                    None => Err(Error::InvalidDestination),
                }
            },
            (Action::Read, Some(Data::Watches)) => Ok(None),
            _ => Err(Error::InvalidOperation),
        }
    }

    /// The index of the first child called `name`.
    fn position(&self, name: &str) -> (at: Option<usize>)
        ensures
            match at {
                Some(i) => find(self@.children, name@) == Some(i as int) && i < self.children@.len(),
                None => find(self@.children, name@) is None,
            },
    {
        let mut i: usize = 0;
        while i < self.children.len()
            invariant
                i <= self.children@.len(),
                forall|j: int| 0 <= j < i ==> self@.children[j].0 != name@,
            decreases self.children@.len() - i,
        {
            if same_text(self.children[i].0.as_str(), name) {
                proof {
                    lemma_find(self@.children, name@);
                    assert(self@.children[i as int].0 == name@);
                }
                return Some(i);
            }
            i += 1;
        }
        proof {
            lemma_find(self@.children, name@);
        }
        None
    }

    /// The index of the first connection from `source` to `destination`.
    fn binding_position(&self, source: &PortDestination, destination: &PortDestination) -> (at:
        Option<usize>)
        ensures
            match at {
                Some(i) => find_binding(self@.bindings, source@, destination@) == Some(i as int) && i
                    < self.bindings@.len(),
                None => find_binding(self@.bindings, source@, destination@) is None,
            },
    {
        let mut i: usize = 0;
        while i < self.bindings.len()
            invariant
                i <= self.bindings@.len(),
                forall|j: int| 0 <= j < i ==> self@.bindings[j] != (source@, destination@),
            decreases self.bindings@.len() - i,
        {
            let same = same_text(self.bindings[i].0.block(), source.block()) && same_text(
                self.bindings[i].0.port(),
                source.port(),
            ) && same_text(self.bindings[i].1.block(), destination.block()) && same_text(
                self.bindings[i].1.port(),
                destination.port(),
            );
            if same {
                proof {
                    lemma_find_binding(self@.bindings, source@, destination@);
                    assert(self@.bindings[i as int] == (source@, destination@));
                }
                return Some(i);
            }
            i += 1;
        }
        proof {
            lemma_find_binding(self@.bindings, source@, destination@);
        }
        None
    }

    /// The children as a payload lists them.
    fn list(&self) -> (entries: Vec<Entry>)
        ensures
            entry_views(entries@) == listing(self@.children),
    {
        let mut entries: Vec<Entry> = Vec::new();
        let mut i: usize = 0;
        while i < self.children.len()
            invariant
                i <= self.children@.len(),
                entries@.len() == i,
                forall|j: int| 0 <= j < i ==> (#[trigger] entries@[j])@ == listing(self@.children)[j],
            decreases self.children@.len() - i,
        {
            let entry = Entry {
                name: self.children[i].0.clone(),
                type_tag: self.children[i].1.type_tag(),
            };
            entries.push(entry);
            i += 1;
        }
        entries
    }
}

impl<F> Container for SimpleContainer<F> where F: FunctionBlockFactory {
    open spec fn model(&self) -> ContainerModel {
        self@
    }

    fn add_child(&mut self, name: String, type_tag: &str) -> (added: Result<(), AddError>) {
        if self.position(name.as_str()).is_some() {
            return Err(AddError::ItemAlreadyExist);
        }
        match self.factory.create(type_tag) {
            Ok(child) => {
                let entry = (name, child);
                self.children.push(entry);
                assert(self@.children =~= old(self)@.children.push(
                    (name@, old(self)@.catalog[type_tag@]),
                ));
                Ok(())
            },
            Err(e) => Err(
                match e {
                    CreationError::UnknownType => AddError::UnknownType,
                    CreationError::Internal => AddError::Internal,
                },
            ),
        }
    }

    fn remove_child(&mut self, name: &str) {
        match self.position(name) {
            Some(i) => {
                let _ = self.children.remove(i);
                assert(self@.children =~= old(self)@.children.remove(i as int));
            },
            None => {},
        }
    }

    fn connect(&mut self, source: PortDestination, destination: PortDestination) -> (connected:
        Result<(), ConnectError>) {
        match self.resolve(&source, &destination) {
            Some(e) => Err(e),
            None => {
                if self.binding_position(&source, &destination).is_none() {
                    self.bindings.push((source, destination));
                    assert(self@.bindings =~= old(self)@.bindings.push((source@, destination@)));
                }
                Ok(())
            },
        }
    }

    fn disconnect(&mut self, source: PortDestination, destination: PortDestination) -> (connected:
        Result<(), ConnectError>) {
        match self.resolve(&source, &destination) {
            Some(e) => Err(e),
            None => match self.binding_position(&source, &destination) {
                Some(i) => {
                    let _ = self.bindings.remove(i);
                    assert(self@.bindings =~= old(self)@.bindings.remove(i as int));
                    Ok(())
                },
                None => Err(ConnectError::UnknownBinding),
            },
        }
    }
}

impl<F> SimpleContainer<F> where F: FunctionBlockFactory {
    /// Looks up both ends of a connection: the source block, its data output,
    /// the destination block, its data input. The first that is missing is
    /// reported.
    fn resolve(&self, source: &PortDestination, destination: &PortDestination) -> (missing: Option<
        ConnectError,
    >)
        ensures
            missing == resolve(self@, source@, destination@),
    {
        let from = match self.position(source.block()) {
            Some(i) => i,
            None => { return Some(ConnectError::UnknownBlock); },
        };
        if self.children[from].1.get_data_output(source.port()).is_none() {
            return Some(ConnectError::UnknownPort);
        }
        let to = match self.position(destination.block()) {
            Some(i) => i,
            None => { return Some(ConnectError::UnknownBlock); },
        };
        if self.children[to].1.get_data_input(destination.port()).is_none() {
            return Some(ConnectError::UnknownPort);
        }
        None
    }
}

} // verus!
