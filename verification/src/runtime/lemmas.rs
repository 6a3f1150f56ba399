//! What holds of every container and every block, proved of the model that
//! the executable types refine.

use crate::protocol::server::{Action, DataView, Error};
use crate::runtime::container::{lemma_find, ConnectError};
use crate::runtime::emb_res::Lifecycle;
use crate::runtime::model::{
    connect, dispatch, empty_container, find, leaf, local, resolve, respond, unique_below,
    unique_names, BlockModel, Body, ContainerModel, PortView, RequestView,
};
use crate::runtime::root::root_catalog;
use vstd::prelude::*;

verus! {

/// The request that asks a container to create the child `name` of the type
/// `type_tag`.
pub open spec fn create_block(name: Seq<char>, type_tag: Seq<char>) -> RequestView {
    RequestView {
        destination: Seq::empty(),
        action: Action::Create,
        data: Some(DataView::FunctionBlock { name, type_tag }),
    }
}

/// The request that asks a container to delete the child `name`.
pub open spec fn delete_block(name: Seq<char>, type_tag: Seq<char>) -> RequestView {
    RequestView {
        destination: Seq::empty(),
        action: Action::Delete,
        data: Some(DataView::FunctionBlock { name, type_tag }),
    }
}

/// A child that was just added is found under its name.
pub proof fn lemma_find_after_push(
    children: Seq<(Seq<char>, BlockModel)>,
    name: Seq<char>,
    block: BlockModel,
)
    ensures
        find(children.push((name, block)), name) is Some,
{
    let grown = children.push((name, block));
    lemma_find(grown, name);
    if find(grown, name) is None {
        assert(grown[children.len() as int].0 == name);
    }
}

/// Name uniqueness: once a child called `name` has been created, creating
/// another of that name, of whatever type, is refused as a duplicate and
/// changes nothing.
pub proof fn lemma_second_create_is_duplicate(
    c: ContainerModel,
    name: Seq<char>,
    first_type: Seq<char>,
    second_type: Seq<char>,
)
    requires
        dispatch(c, create_block(name, first_type)).1 is Ok,
    ensures
        dispatch(dispatch(c, create_block(name, first_type)).0, create_block(name, second_type)) == (
            dispatch(c, create_block(name, first_type)).0,
            Err::<Option<DataView>, Error>(Error::DuplicateObject),
        ),
{
    lemma_find_after_push(c.children, name, c.catalog[first_type]);
}

/// A name that is taken is never given to a second child.
pub proof fn lemma_create_on_taken_name(c: ContainerModel, name: Seq<char>, type_tag: Seq<char>)
    requires
        find(c.children, name) is Some,
    ensures
        dispatch(c, create_block(name, type_tag)) == (
            c,
            Err::<Option<DataView>, Error>(Error::DuplicateObject),
        ),
{
}

/// Idempotent delete: deleting a child always succeeds, and where no child
/// has the name nothing changes. After a delete of `name`, a second one finds
/// nothing to do where names are unique.
pub proof fn lemma_delete_succeeds(c: ContainerModel, name: Seq<char>, type_tag: Seq<char>)
    ensures
        dispatch(c, delete_block(name, type_tag)).1 == Ok::<Option<DataView>, Error>(None),
        find(c.children, name) is None ==> dispatch(c, delete_block(name, type_tag)).0 == c,
{
}

/// Unknown type: creating a child of a type that the catalog does not know,
/// under a name that is free, is refused as an unsupported type and changes
/// nothing.
pub proof fn lemma_unknown_type(c: ContainerModel, name: Seq<char>, type_tag: Seq<char>)
    requires
        find(c.children, name) is None,
        !c.catalog.contains_key(type_tag),
    ensures
        dispatch(c, create_block(name, type_tag)) == (
            c,
            Err::<Option<DataView>, Error>(Error::UnsupportedType),
        ),
{
}

/// Routing: a request whose destination starts with the name of a child is
/// handled by that child, with the rest of the destination, and only that
/// child changes.
pub proof fn lemma_routed_to_child(c: ContainerModel, request: RequestView, i: int)
    requires
        request.destination.len() > 0,
        find(c.children, request.destination[0]) == Some(i),
    ensures
        ({
            let onward = RequestView { destination: request.destination.drop_first(), ..request };
            let (child, reply) = respond(c.children[i].1, onward);
            dispatch(c, request) == (
                ContainerModel { children: c.children.update(i, (c.children[i].0, child)), ..c },
                reply,
            )
        }),
{
}

/// Routing: a request addressed beyond a leaf has no destination, and a
/// request whose destination starts with no child's name has none either.
/// Neither changes anything.
pub proof fn lemma_no_route(c: ContainerModel, request: RequestView)
    requires
        request.destination.len() > 0,
        match find(c.children, request.destination[0]) {
            Some(i) => c.children[i].1.body is Leaf && request.destination.len() > 1,
            None => true,
        },
    ensures
        dispatch(c, request) == (c, Err::<Option<DataView>, Error>(Error::InvalidDestination)),
{
    lemma_find(c.children, request.destination[0]);
    match find(c.children, request.destination[0]) {
        Some(i) => {
            assert(c.children.update(i, (c.children[i].0, c.children[i].1)) =~= c.children);
        },
        None => {},
    }
}

/// Routing: a request addressed to a leaf itself is not an operation the leaf
/// has, and changes nothing.
pub proof fn lemma_leaf_has_no_operation(c: ContainerModel, request: RequestView)
    requires
        request.destination.len() == 1,
        find(c.children, request.destination[0]) matches Some(i) && c.children[i].1.body is Leaf,
    ensures
        dispatch(c, request) == (c, Err::<Option<DataView>, Error>(Error::InvalidOperation)),
{
    lemma_find(c.children, request.destination[0]);
    let i = find(c.children, request.destination[0])->0;
    assert(c.children.update(i, (c.children[i].0, c.children[i].1)) =~= c.children);
}

/// A leaf answers every request with a refusal and stays as it is.
pub proof fn lemma_leaf_refuses(block: BlockModel, request: RequestView)
    requires
        block.body is Leaf,
    ensures
        respond(block, request).0 == block,
        respond(block, request).1 is Err,
        request.destination.len() > 0 ==> respond(block, request).1 == Err::<
            Option<DataView>,
            Error,
        >(Error::InvalidDestination),
        request.destination.len() == 0 ==> respond(block, request).1 == Err::<
            Option<DataView>,
            Error,
        >(Error::InvalidOperation),
{
}

/// Connection atomicity: a connection that is not installed, for whatever
/// reason, leaves the container as it was; so does a removal that fails.
pub proof fn lemma_failed_connection_changes_nothing(
    c: ContainerModel,
    action: Action,
    source: Seq<char>,
    destination: Seq<char>,
)
    requires
        action == Action::Create || action == Action::Delete,
    ensures
        local(c, action, Some(DataView::Connection { source, destination })).1 is Err ==> local(
            c,
            action,
            Some(DataView::Connection { source, destination }),
        ).0 == c,
{
}

/// Connection atomicity, in the container's own terms: where an end cannot be
/// resolved the container stays as it was and the first missing end is
/// reported.
pub proof fn lemma_unresolved_connection(c: ContainerModel, source: PortView, destination: PortView)
    requires
        resolve(c, source, destination) is Some,
    ensures
        connect(c, source, destination) == (
            c,
            Err::<(), ConnectError>(resolve(c, source, destination)->0),
        ),
{
}

/// Whatever a request does to a container, it leaves the catalog alone.
pub proof fn lemma_catalog_is_fixed(c: ContainerModel, request: RequestView)
    ensures
        dispatch(c, request).0.catalog == c.catalog,
    decreases request.destination.len(),
{
}

/// The request that names a lifecycle verb to the block that receives it.
pub open spec fn lifecycle_request(action: Action, data: Option<DataView>) -> RequestView {
    RequestView { destination: Seq::empty(), action, data }
}

/// Lifecycle idempotence: a resource answers `START`, `STOP` and `KILL` with
/// success whatever its state and whatever the payload; after `START` it
/// runs, after the other two it is stopped, and the container inside is
/// untouched. Repeating the verb therefore changes nothing more.
pub proof fn lemma_lifecycle(block: BlockModel, action: Action, data: Option<DataView>)
    requires
        block.body is Resource,
        action == Action::Start || action == Action::Stop || action == Action::Kill,
    ensures
        ({
            let (after, reply) = respond(block, lifecycle_request(action, data));
            let target = if action == Action::Start {
                Lifecycle::Running
            } else {
                Lifecycle::Stopped
            };
            &&& reply == Ok::<Option<DataView>, Error>(None)
            &&& after == (BlockModel {
                body: Body::Resource { state: target, container: block.body->container },
                ..block
            })
            &&& respond(after, lifecycle_request(action, data)) == (after, reply)
        }),
{
}

/// Name uniqueness is an invariant: no request, whatever it does, makes two
/// children of one container share a name, at any depth.
pub proof fn lemma_names_stay_unique(c: ContainerModel, request: RequestView)
    requires
        unique_names(c),
    ensures
        unique_names(dispatch(c, request).0),
    decreases request.destination.len(), 0nat,
{
    if request.destination.len() > 0 {
        // the child that the request goes to keeps its name, and names stay
        // unique below it
        lemma_find(c.children, request.destination[0]);
        if let Some(i) = find(c.children, request.destination[0]) {
            let onward = RequestView { destination: request.destination.drop_first(), ..request };
            lemma_block_stays_unique(c.children[i].1, onward);
        }
    } else if let Some(DataView::FunctionBlock { name, type_tag }) = request.data {
        // a child is added only under a name that no child has, and removing
        // a child leaves the others as they were
        lemma_find(c.children, name);
    }
}

/// Name uniqueness below a block is kept by whatever the block does with a
/// request.
pub proof fn lemma_block_stays_unique(block: BlockModel, request: RequestView)
    requires
        unique_below(block),
    ensures
        unique_below(respond(block, request).0),
    decreases request.destination.len(), 1nat,
{
    match block.body {
        Body::Leaf => {},
        Body::Resource { state, container } => {
            lemma_names_stay_unique(container, request);
        },
    }
}

/// A container that holds nothing yet has unique names, provided that what it
/// may instantiate has.
pub proof fn lemma_empty_container_is_unique(catalog: Map<Seq<char>, BlockModel>)
    requires
        forall|tag: Seq<char>| #[trigger] catalog.contains_key(tag) ==> unique_below(catalog[tag]),
    ensures
        unique_names(empty_container(catalog)),
{
}

/// What a root factory instantiates has unique names, provided that what its
/// resources may instantiate has.
pub proof fn lemma_root_catalog_is_unique(inner: Map<Seq<char>, BlockModel>)
    requires
        forall|tag: Seq<char>| #[trigger] inner.contains_key(tag) ==> unique_below(inner[tag]),
    ensures
        forall|tag: Seq<char>| #[trigger]
            root_catalog(inner).contains_key(tag) ==> unique_below(root_catalog(inner)[tag]),
{
    lemma_empty_container_is_unique(inner);
}

/// A leaf has no names below it.
pub proof fn lemma_leaf_is_unique(
    type_tag: Seq<char>,
    data_inputs: Set<Seq<char>>,
    data_outputs: Set<Seq<char>>,
)
    ensures
        unique_below(leaf(type_tag, data_inputs, data_outputs)),
{
}

} // verus!
