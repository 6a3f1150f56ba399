//! The runtime core: the hierarchy of function blocks and the requests that
//! act on it.

pub mod container;
pub mod emb_res;
pub mod factory;
pub mod fb;
pub mod lemmas;
pub mod model;
pub mod root;

use crate::protocol::server::{payload_view, Action, Data, Error};
use crate::runtime::model::RequestView;
use crate::text::{split, split_text, texts};
use vstd::prelude::*;

verus! {

/// The path that `text` spells: its pieces between dots, and no piece at all
/// for the empty text.
pub open spec fn path_of(text: Seq<char>) -> Seq<Seq<char>> {
    if text.len() == 0 {
        Seq::empty()
    } else {
        split(text, '.')
    }
}

/// The path from a container to the block a request is meant for, one segment
/// per hop. The empty path means the container itself.
#[derive(Clone, Debug, PartialEq, Eq, Hash, PartialOrd, Ord)]
pub struct Destination(Vec<String>);

impl View for Destination {
    type V = Seq<Seq<char>>;

    closed spec fn view(&self) -> Seq<Seq<char>> {
        texts(self.0@)
    }
}

impl Default for Destination {
    fn default() -> (d: Destination)
        ensures
            d@ == Seq::<Seq<char>>::empty(),
    {
        let d = Destination(Vec::new());
        d
    }
}

impl Destination {
    /// Parses a dotted path. The empty text is the empty path, not a path of
    /// one empty segment.
    pub fn from_str(destination: &str) -> (d: Destination)
        ensures
            d@ == path_of(destination@),
    {
        if destination.is_empty() {
            Destination::default()
        } else {
            Destination(split_text(destination, '.'))
        }
    }

    /// Whether no segment is left.
    pub fn is_empty(&self) -> (empty: bool)
        ensures
            empty == (self@.len() == 0),
    {
        self.0.len() == 0
    }

    /// The number of segments.
    pub fn len(&self) -> (n: usize)
        ensures
            n == self@.len(),
    {
        self.0.len()
    }

    /// Removes the head of the path and returns it; `None` where the path is
    /// empty, which then stays so.
    pub fn pop(&mut self) -> (head: Option<String>)
        ensures
            old(self)@.len() == 0 ==> head is None && final(self)@ == old(self)@,
            old(self)@.len() > 0 ==> head is Some && head->0@ == old(self)@[0] && final(self)@
                == old(self)@.drop_first(),
    {
        if self.0.len() == 0 {
            None
        } else {
            let head = self.0.remove(0);
            Some(head)
        }
    }
}

/// A request on its way through the hierarchy.
#[derive(Clone, Debug)]
pub struct Request {
    pub destination: Destination,
    pub action: Action,
    pub data: Option<Data>,
}

impl View for Request {
    type V = RequestView;

    open spec fn view(&self) -> RequestView {
        RequestView {
            destination: self.destination@,
            action: self.action,
            data: payload_view(self.data),
        }
    }
}

impl Request {
    /// The request that `action` with `data` makes when sent to the dotted
    /// path `destination`.
    pub fn new(destination: &str, action: Action, data: Option<Data>) -> (request: Request)
        ensures
            request@ == (RequestView {
                destination: path_of(destination@),
                action,
                data: payload_view(data),
            }),
    {
        Request { destination: Destination::from_str(destination), action, data }
    }

    /// Takes the head off the destination and returns it with the request
    /// that is left. Where the destination was empty the head is `None` and
    /// the request is unchanged.
    pub fn pop(self) -> (popped: (Option<String>, Request))
        ensures
            self@.destination.len() == 0 ==> popped.0 is None && popped.1@ == self@,
            self@.destination.len() > 0 ==> popped.0 is Some && popped.0->0@ == self@.destination[0]
                && popped.1@ == (RequestView {
                destination: self@.destination.drop_first(),
                ..self@
            }),
    {
        let mut request = self;
        let head = request.destination.pop();
        (head, request)
    }
}

/// What the sender of a request is told: the runtime's reply where there is
/// one, and `NotReady` where the runtime could not be reached or went away
/// without replying.
pub fn reply_or_not_ready(reply: Option<Result<Option<Data>, Error>>) -> (outcome: Result<
    Option<Data>,
    Error,
>)
    ensures
        outcome == (match reply {
            Some(r) => r,
            None => Err(Error::NotReady),
        }),
{
    match reply {
        Some(r) => r,
        None => Err(Error::NotReady),
    }
}

} // verus!
