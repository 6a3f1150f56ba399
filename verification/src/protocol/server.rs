//! The values exchanged with an engineering tool: requests, responses, and the
//! closed sets of actions, payloads and errors they are built from.

use crate::text::same_text;
use vstd::prelude::*;

verus! {

/// The verb of a request.
#[derive(Clone, Copy, Debug, PartialEq, Eq, Structural)]
pub enum Action {
    Create,
    Delete,
    Start,
    Stop,
    Kill,
    Query,
    Read,
    Write,
    Reset,
}

impl Action {
    /// The name of the action on the wire.
    pub open spec fn name(self) -> Seq<char> {
        match self {
            Action::Create => "CREATE"@,
            Action::Delete => "DELETE"@,
            Action::Start => "START"@,
            Action::Stop => "STOP"@,
            Action::Kill => "KILL"@,
            Action::Query => "QUERY"@,
            Action::Read => "READ"@,
            Action::Write => "WRITE"@,
            Action::Reset => "RESET"@,
        }
    }

    /// The action that `tag` names on the wire, if it names one.
    pub open spec fn named(tag: Seq<char>) -> Option<Action> {
        if tag == "CREATE"@ {
            Some(Action::Create)
        } else if tag == "DELETE"@ {
            Some(Action::Delete)
        } else if tag == "START"@ {
            Some(Action::Start)
        } else if tag == "STOP"@ {
            Some(Action::Stop)
        } else if tag == "KILL"@ {
            Some(Action::Kill)
        } else if tag == "QUERY"@ {
            Some(Action::Query)
        } else if tag == "READ"@ {
            Some(Action::Read)
        } else if tag == "WRITE"@ {
            Some(Action::Write)
        } else if tag == "RESET"@ {
            Some(Action::Reset)
        } else {
            None
        }
    }

    /// The name of the action on the wire.
    pub fn tag(self) -> (tag: &'static str)
        ensures
            tag@ == self.name(),
    {
        match self {
            Action::Create => "CREATE",
            Action::Delete => "DELETE",
            Action::Start => "START",
            Action::Stop => "STOP",
            Action::Kill => "KILL",
            Action::Query => "QUERY",
            Action::Read => "READ",
            Action::Write => "WRITE",
            Action::Reset => "RESET",
        }
    }

    /// The action that `tag` names; `None` for any other text. Names are
    /// matched exactly.
    pub fn from_tag(tag: &str) -> (action: Option<Action>)
        ensures
            action == Action::named(tag@),
    {
        if same_text(tag, "CREATE") {
            Some(Action::Create)
        } else if same_text(tag, "DELETE") {
            Some(Action::Delete)
        } else if same_text(tag, "START") {
            Some(Action::Start)
        } else if same_text(tag, "STOP") {
            Some(Action::Stop)
        } else if same_text(tag, "KILL") {
            Some(Action::Kill)
        } else if same_text(tag, "QUERY") {
            Some(Action::Query)
        } else if same_text(tag, "READ") {
            Some(Action::Read)
        } else if same_text(tag, "WRITE") {
            Some(Action::Write)
        } else if same_text(tag, "RESET") {
            Some(Action::Reset)
        } else {
            None
        }
    }
}

/// Every action is the one that its name names.
pub proof fn lemma_action_name_round_trip(action: Action)
    ensures
        Action::named(action.name()) == Some(action),
{
    reveal_strlit("CREATE");
    reveal_strlit("DELETE");
    reveal_strlit("START");
    reveal_strlit("STOP");
    reveal_strlit("KILL");
    reveal_strlit("QUERY");
    reveal_strlit("READ");
    reveal_strlit("WRITE");
    reveal_strlit("RESET");
    // the names differ in their first letter or, failing that, in length
    assert("CREATE"@[0] == 'C' && "DELETE"@[0] == 'D' && "KILL"@[0] == 'K');
    assert("QUERY"@[0] == 'Q' && "WRITE"@[0] == 'W');
    assert("START"@[0] == 'S' && "STOP"@[0] == 'S' && "READ"@[0] == 'R' && "RESET"@[0] == 'R');
    assert("START"@.len() == 5 && "STOP"@.len() == 4 && "READ"@.len() == 4 && "RESET"@.len() == 5);
}

/// The reason a request failed, as reported in a response.
#[derive(Clone, Copy, Debug, PartialEq, Eq, Structural)]
pub enum Error {
    NotReady,
    UnsupportedCommand,
    UnsupportedType,
    NoSuchObject,
    InvalidObject,
    InvalidOperation,
    InvalidState,
    Overflow,
    DuplicateObject,
    InvalidDestination,
    NullPointer,
    Interrupted,
    Unknown,
}

impl Error {
    /// The name of the error on the wire.
    pub open spec fn name(self) -> Seq<char> {
        match self {
            Error::NotReady => "NOT_READY"@,
            Error::UnsupportedCommand => "UNSUPPORTED_CMD"@,
            Error::UnsupportedType => "UNSUPPORTED_TYPE"@,
            Error::NoSuchObject => "NO_SUCH_OBJECT"@,
            Error::InvalidObject => "INVALID_OBJECT"@,
            Error::InvalidOperation => "INVALID_OPERATION"@,
            Error::InvalidState => "INVALID_STATE"@,
            Error::Overflow => "OVERFLOW"@,
            Error::DuplicateObject => "DUPLICATE_OBJECT"@,
            Error::InvalidDestination => "INVALID_DST"@,
            Error::NullPointer => "NULL_POINTER"@,
            Error::Interrupted => "INTERRUPTED"@,
            Error::Unknown => "UNKNOWN"@,
        }
    }

    /// The error that `tag` names on the wire, if it names one.
    pub open spec fn named(tag: Seq<char>) -> Option<Error> {
        if tag == "NOT_READY"@ {
            Some(Error::NotReady)
        } else if tag == "UNSUPPORTED_CMD"@ {
            Some(Error::UnsupportedCommand)
        } else if tag == "UNSUPPORTED_TYPE"@ {
            Some(Error::UnsupportedType)
        } else if tag == "NO_SUCH_OBJECT"@ {
            Some(Error::NoSuchObject)
        } else if tag == "INVALID_OBJECT"@ {
            Some(Error::InvalidObject)
        } else if tag == "INVALID_OPERATION"@ {
            Some(Error::InvalidOperation)
        } else if tag == "INVALID_STATE"@ {
            Some(Error::InvalidState)
        } else if tag == "OVERFLOW"@ {
            Some(Error::Overflow)
        } else if tag == "DUPLICATE_OBJECT"@ {
            Some(Error::DuplicateObject)
        } else if tag == "INVALID_DST"@ {
            Some(Error::InvalidDestination)
        } else if tag == "NULL_POINTER"@ {
            Some(Error::NullPointer)
        } else if tag == "INTERRUPTED"@ {
            Some(Error::Interrupted)
        } else if tag == "UNKNOWN"@ {
            Some(Error::Unknown)
        } else {
            None
        }
    }

    /// The name of the error on the wire.
    pub fn tag(self) -> (tag: &'static str)
        ensures
            tag@ == self.name(),
    {
        match self {
            Error::NotReady => "NOT_READY",
            Error::UnsupportedCommand => "UNSUPPORTED_CMD",
            Error::UnsupportedType => "UNSUPPORTED_TYPE",
            Error::NoSuchObject => "NO_SUCH_OBJECT",
            Error::InvalidObject => "INVALID_OBJECT",
            Error::InvalidOperation => "INVALID_OPERATION",
            Error::InvalidState => "INVALID_STATE",
            Error::Overflow => "OVERFLOW",
            Error::DuplicateObject => "DUPLICATE_OBJECT",
            Error::InvalidDestination => "INVALID_DST",
            Error::NullPointer => "NULL_POINTER",
            Error::Interrupted => "INTERRUPTED",
            Error::Unknown => "UNKNOWN",
        }
    }

    /// The error that `tag` names; `None` for any other text. Names are
    /// matched exactly.
    pub fn from_tag(tag: &str) -> (error: Option<Error>)
        ensures
            error == Error::named(tag@),
    {
        if same_text(tag, "NOT_READY") {
            Some(Error::NotReady)
        } else if same_text(tag, "UNSUPPORTED_CMD") {
            Some(Error::UnsupportedCommand)
        } else if same_text(tag, "UNSUPPORTED_TYPE") {
            Some(Error::UnsupportedType)
        } else if same_text(tag, "NO_SUCH_OBJECT") {
            Some(Error::NoSuchObject)
        } else if same_text(tag, "INVALID_OBJECT") {
            Some(Error::InvalidObject)
        } else if same_text(tag, "INVALID_OPERATION") {
            Some(Error::InvalidOperation)
        } else if same_text(tag, "INVALID_STATE") {
            Some(Error::InvalidState)
        } else if same_text(tag, "OVERFLOW") {
            Some(Error::Overflow)
        } else if same_text(tag, "DUPLICATE_OBJECT") {
            Some(Error::DuplicateObject)
        } else if same_text(tag, "INVALID_DST") {
            Some(Error::InvalidDestination)
        } else if same_text(tag, "NULL_POINTER") {
            Some(Error::NullPointer)
        } else if same_text(tag, "INTERRUPTED") {
            Some(Error::Interrupted)
        } else if same_text(tag, "UNKNOWN") {
            Some(Error::Unknown)
        } else {
            None
        }
    }
}

/// Every error is the one that its name names.
pub proof fn lemma_error_name_round_trip(error: Error)
    ensures
        Error::named(error.name()) == Some(error),
{
    reveal_strlit("NOT_READY");
    reveal_strlit("UNSUPPORTED_CMD");
    reveal_strlit("UNSUPPORTED_TYPE");
    reveal_strlit("NO_SUCH_OBJECT");
    reveal_strlit("INVALID_OBJECT");
    reveal_strlit("INVALID_OPERATION");
    reveal_strlit("INVALID_STATE");
    reveal_strlit("OVERFLOW");
    reveal_strlit("DUPLICATE_OBJECT");
    reveal_strlit("INVALID_DST");
    reveal_strlit("NULL_POINTER");
    reveal_strlit("INTERRUPTED");
    reveal_strlit("UNKNOWN");
    // the names differ in length, but for three pairs, which differ in a letter
    assert("NOT_READY"@.len() == 9 && "UNSUPPORTED_CMD"@.len() == 15);
    assert("INVALID_OPERATION"@.len() == 17 && "INVALID_STATE"@.len() == 13);
    assert("OVERFLOW"@.len() == 8 && "NULL_POINTER"@.len() == 12 && "UNKNOWN"@.len() == 7);
    assert("UNSUPPORTED_TYPE"@.len() == 16 && "DUPLICATE_OBJECT"@.len() == 16);
    assert("UNSUPPORTED_TYPE"@[0] == 'U' && "DUPLICATE_OBJECT"@[0] == 'D');
    assert("NO_SUCH_OBJECT"@.len() == 14 && "INVALID_OBJECT"@.len() == 14);
    assert("NO_SUCH_OBJECT"@[0] == 'N' && "INVALID_OBJECT"@[0] == 'I');
    assert("INVALID_DST"@.len() == 11 && "INTERRUPTED"@.len() == 11);
    assert("INVALID_DST"@[2] == 'V' && "INTERRUPTED"@[2] == 'T');
}

/// A function block as named in a payload: an instance name and a type tag.
#[derive(Clone, Debug, PartialEq, Eq)]
pub struct FunctionBlock {
    pub name: String,
    pub type_tag: String,
}

/// The mathematical value of a [`FunctionBlock`] entry.
pub struct FunctionBlockView {
    pub name: Seq<char>,
    pub type_tag: Seq<char>,
}

impl View for FunctionBlock {
    type V = FunctionBlockView;

    open spec fn view(&self) -> FunctionBlockView {
        FunctionBlockView { name: self.name@, type_tag: self.type_tag@ }
    }
}

/// The payload of a request or of a successful response.
#[derive(Clone, Debug, PartialEq, Eq)]
pub enum Data {
    FunctionBlock { name: String, type_tag: String },
    FunctionBlockList(Vec<FunctionBlock>),
    Connection { source: String, destination: String },
    Watches,
}

/// The mathematical value of a [`Data`] payload.
pub enum DataView {
    FunctionBlock { name: Seq<char>, type_tag: Seq<char> },
    FunctionBlockList(Seq<FunctionBlockView>),
    Connection { source: Seq<char>, destination: Seq<char> },
    Watches,
}

/// The views of a list of entries, in order.
pub open spec fn entry_views(entries: Seq<FunctionBlock>) -> Seq<FunctionBlockView> {
    Seq::new(entries.len(), |i: int| entries[i]@)
}

impl View for Data {
    type V = DataView;

    open spec fn view(&self) -> DataView {
        match *self {
            Data::FunctionBlock { name, type_tag } => DataView::FunctionBlock {
                name: name@,
                type_tag: type_tag@,
            },
            Data::FunctionBlockList(entries) => DataView::FunctionBlockList(entry_views(entries@)),
            Data::Connection { source, destination } => DataView::Connection {
                source: source@,
                destination: destination@,
            },
            Data::Watches => DataView::Watches,
        }
    }
}

/// The mathematical value of an optional payload.
pub open spec fn payload_view(data: Option<Data>) -> Option<DataView> {
    match data {
        Some(d) => Some(d@),
        None => None,
    }
}

/// The mathematical value of what handling a request gives: an optional
/// payload, or the reason for failure.
pub open spec fn outcome_view(outcome: Result<Option<Data>, Error>) -> Result<
    Option<DataView>,
    Error,
> {
    match outcome {
        Ok(data) => Ok(payload_view(data)),
        Err(e) => Err(e),
    }
}

/// A request as it arrives in a frame body.
#[derive(Clone, Debug, PartialEq, Eq)]
pub struct Request {
    pub id: String,
    pub action: Action,
    pub data: Data,
}

/// The mathematical value of a [`Request`].
pub struct RequestView {
    pub id: Seq<char>,
    pub action: Action,
    pub data: DataView,
}

impl View for Request {
    type V = RequestView;

    open spec fn view(&self) -> RequestView {
        RequestView { id: self.id@, action: self.action, data: self.data@ }
    }
}

/// A decoded frame: the destination path and the request sent to it.
#[derive(Clone, Debug, PartialEq, Eq)]
pub struct Frame {
    pub dest: String,
    pub request: Request,
}

/// The mathematical value of a [`Frame`].
pub struct FrameView {
    pub dest: Seq<char>,
    pub request: RequestView,
}

impl View for Frame {
    type V = FrameView;

    open spec fn view(&self) -> FrameView {
        FrameView { dest: self.dest@, request: self.request@ }
    }
}

/// The answer to one request.
#[derive(Clone, Debug, PartialEq, Eq)]
pub struct Response {
    pub id: String,
    pub reason: Option<Error>,
    pub data: Option<Data>,
}

/// The mathematical value of a [`Response`].
pub struct ResponseView {
    pub id: Seq<char>,
    pub reason: Option<Error>,
    pub data: Option<DataView>,
}

impl View for Response {
    type V = ResponseView;

    open spec fn view(&self) -> ResponseView {
        ResponseView { id: self.id@, reason: self.reason, data: payload_view(self.data) }
    }
}

/// The response that answers the request `id` with `outcome`.
pub open spec fn response_to(id: Seq<char>, outcome: Result<Option<DataView>, Error>) -> ResponseView {
    match outcome {
        Ok(data) => ResponseView { id, reason: None, data },
        Err(e) => ResponseView { id, reason: Some(e), data: None },
    }
}

impl Response {
    /// Answers the request `id`: a success carries the payload and no reason,
    /// a failure carries the reason and no payload. The id is echoed as given.
    pub fn new(id: String, outcome: Result<Option<Data>, Error>) -> (response: Response)
        ensures
            response@ == response_to(id@, outcome_view(outcome)),
            response.id == id,
    {
        match outcome {
            Ok(data) => Response { id, reason: None, data },
            Err(e) => Response { id, reason: Some(e), data: None },
        }
    }
}

/// Every response carries the id it was built for, a reason exactly when the
/// request failed, and no payload on failure.
pub proof fn lemma_response_echoes_id(id: Seq<char>, outcome: Result<Option<DataView>, Error>)
    ensures
        response_to(id, outcome).id == id,
        response_to(id, outcome).reason is Some <==> outcome is Err,
        outcome is Err ==> response_to(id, outcome).data is None,
        outcome is Ok ==> response_to(id, outcome).data == outcome->Ok_0,
{
}

} // verus!
