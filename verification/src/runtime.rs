//! The vocabulary between the engine and its collaborators.
//!
//! The engine never performs I/O. It hands out a [`RuntimeCall`], the caller
//! performs it against the container runtime or against a device, and hands
//! the [`Reply`] back. Each type here has a view that holds the same data as
//! mathematical values; the contracts are stated over the views.

use vstd::prelude::*;
use crate::identity::{ContainerId, DeviceUuid};

verus! {

/// The view of an optional text.
pub open spec fn text_of(text: Option<String>) -> Option<Seq<char>> {
    match text {
        Some(text) => Some(text@),
        None => None,
    }
}

/// The identities that a vector of container handles holds.
pub open spec fn identities(ids: Seq<ContainerId>) -> Seq<Seq<char>> {
    Seq::new(ids.len(), |i: int| ids[i]@)
}

/// The bits of an optional device UUID.
pub open spec fn bits_of(uuid: Option<DeviceUuid>) -> Option<u128> {
    match uuid {
        Some(uuid) => Some(uuid.value),
        None => None,
    }
}

/// The method of a request to a device.
#[derive(Clone, Copy, Debug, PartialEq, Eq, Structural)]
pub enum HttpMethod {
    Get,
    Head,
    Post,
    Put,
    Delete,
    Connect,
    Options,
    Trace,
    Patch,
    /// Any method outside the standard ones.
    Extension,
}

/// A failure that the container runtime reported. `code` is the status code
/// of the runtime's answer where it gave one; a failure below that level
/// (the connection, the decoding of the answer) has none.
#[derive(Debug, PartialEq, Eq)]
pub struct RuntimeFault {
    pub code: Option<u16>,
    pub message: String,
}

/// A failure of the runtime as mathematical values.
pub struct RuntimeFaultView {
    pub code: Option<u16>,
    pub message: Seq<char>,
}

impl View for RuntimeFault {
    type V = RuntimeFaultView;

    open spec fn view(&self) -> RuntimeFaultView {
        RuntimeFaultView { code: self.code, message: self.message@ }
    }
}

/// What the runtime tells about one container. `name` is the name under
/// which the container is reachable on its network; `status` is its run
/// state (`running`, `exited`, ...).
#[derive(Debug, PartialEq, Eq)]
pub struct ContainerInfo {
    pub name: Option<String>,
    pub status: Option<String>,
}

/// What the runtime tells about a container, as mathematical values.
pub struct ContainerInfoView {
    pub name: Option<Seq<char>>,
    pub status: Option<Seq<char>>,
}

impl View for ContainerInfo {
    type V = ContainerInfoView;

    open spec fn view(&self) -> ContainerInfoView {
        ContainerInfoView { name: text_of(self.name), status: text_of(self.status) }
    }
}

/// What a new container is created from.
#[derive(Debug, PartialEq, Eq)]
pub struct ContainerSpec {
    pub image: String,
    /// `NAME=value` texts.
    pub env: Vec<String>,
    pub command: Vec<String>,
}

/// What a container is created from, as mathematical values.
pub struct ContainerSpecView {
    pub image: Seq<char>,
    pub env: Seq<Seq<char>>,
    pub command: Seq<Seq<char>>,
}

impl View for ContainerSpec {
    type V = ContainerSpecView;

    open spec fn view(&self) -> ContainerSpecView {
        ContainerSpecView {
            image: self.image@,
            env: crate::environment::texts(self.env@),
            command: crate::environment::texts(self.command@),
        }
    }
}

/// Which container joins which network.
#[derive(Debug, PartialEq, Eq)]
pub struct ConnectionSpec {
    pub container: ContainerId,
    pub network: String,
}

/// A connection of a container to a network, as mathematical values.
pub struct ConnectionSpecView {
    pub container: Seq<char>,
    pub network: Seq<char>,
}

impl View for ConnectionSpec {
    type V = ConnectionSpecView;

    open spec fn view(&self) -> ConnectionSpecView {
        ConnectionSpecView { container: self.container@, network: self.network@ }
    }
}

/// A reconfiguration as it is sent to a device: the payload is JSON text and
/// is passed on as it came.
#[derive(Debug, PartialEq, Eq)]
pub struct PushRequest {
    pub method: HttpMethod,
    pub url: String,
    pub payload: String,
}

/// A request to a device as mathematical values.
pub struct PushRequestView {
    pub method: HttpMethod,
    pub url: Seq<char>,
    pub payload: Seq<char>,
}

impl View for PushRequest {
    type V = PushRequestView;

    open spec fn view(&self) -> PushRequestView {
        PushRequestView { method: self.method, url: self.url@, payload: self.payload@ }
    }
}

/// One operation that the caller performs for the engine.
#[derive(Debug, PartialEq, Eq)]
pub enum RuntimeCall {
    /// Create a container; it is neither connected nor started.
    Create(ContainerSpec),
    /// Connect a container to a network.
    Connect(ConnectionSpec),
    /// Start a stopped container.
    Start(ContainerId),
    /// Restart a running container.
    Restart(ContainerId),
    /// Ask the runtime about one container.
    Inspect(ContainerId),
    /// List the containers that the runtime knows: all of them, or only
    /// those that run.
    List { all: bool },
    /// Ask the device at this address for its UUID.
    Probe { url: String },
    /// Send a reconfiguration to a device.
    Push(PushRequest),
}

/// A call as mathematical values.
pub enum RuntimeCallView {
    Create(ContainerSpecView),
    Connect(ConnectionSpecView),
    Start(Seq<char>),
    Restart(Seq<char>),
    Inspect(Seq<char>),
    List { all: bool },
    Probe { url: Seq<char> },
    Push(PushRequestView),
}

impl View for RuntimeCall {
    type V = RuntimeCallView;

    open spec fn view(&self) -> RuntimeCallView {
        match *self {
            RuntimeCall::Create(spec) => RuntimeCallView::Create(spec@),
            RuntimeCall::Connect(spec) => RuntimeCallView::Connect(spec@),
            RuntimeCall::Start(id) => RuntimeCallView::Start(id@),
            RuntimeCall::Restart(id) => RuntimeCallView::Restart(id@),
            RuntimeCall::Inspect(id) => RuntimeCallView::Inspect(id@),
            RuntimeCall::List { all } => RuntimeCallView::List { all },
            RuntimeCall::Probe { url } => RuntimeCallView::Probe { url: url@ },
            RuntimeCall::Push(request) => RuntimeCallView::Push(request@),
        }
    }
}

/// What came of a [`RuntimeCall`].
#[derive(Debug, PartialEq, Eq)]
pub enum Reply {
    Created(Result<ContainerId, RuntimeFault>),
    Connected(Result<(), RuntimeFault>),
    Started(Result<(), RuntimeFault>),
    Restarted(Result<(), RuntimeFault>),
    Inspected(Result<ContainerInfo, RuntimeFault>),
    /// The containers in the runtime's order.
    Listed(Vec<ContainerId>),
    /// The UUID that the device reported; `None` where it did not answer in
    /// time, or answered with something else than a UUID.
    Probed(Option<DeviceUuid>),
    /// The status code of the device's answer; `None` where the request
    /// failed or timed out.
    Pushed(Option<u16>),
}

/// A reply as mathematical values.
pub enum ReplyView {
    Created(Result<Seq<char>, RuntimeFaultView>),
    Connected(Result<(), RuntimeFaultView>),
    Started(Result<(), RuntimeFaultView>),
    Restarted(Result<(), RuntimeFaultView>),
    Inspected(Result<ContainerInfoView, RuntimeFaultView>),
    Listed(Seq<Seq<char>>),
    Probed(Option<u128>),
    Pushed(Option<u16>),
}

/// The view of the result of an operation that returns nothing.
pub open spec fn done_of(result: Result<(), RuntimeFault>) -> Result<(), RuntimeFaultView> {
    match result {
        Ok(_) => Ok(()),
        Err(fault) => Err(fault@),
    }
}

impl View for Reply {
    type V = ReplyView;

    open spec fn view(&self) -> ReplyView {
        match *self {
            Reply::Created(result) => ReplyView::Created(
                match result {
                    Ok(id) => Ok(id@),
                    Err(fault) => Err(fault@),
                },
            ),
            Reply::Connected(result) => ReplyView::Connected(done_of(result)),
            Reply::Started(result) => ReplyView::Started(done_of(result)),
            Reply::Restarted(result) => ReplyView::Restarted(done_of(result)),
            Reply::Inspected(result) => ReplyView::Inspected(
                match result {
                    Ok(info) => Ok(info@),
                    Err(fault) => Err(fault@),
                },
            ),
            Reply::Listed(ids) => ReplyView::Listed(identities(ids@)),
            Reply::Probed(uuid) => ReplyView::Probed(bits_of(uuid)),
            Reply::Pushed(status) => ReplyView::Pushed(status),
        }
    }
}

/// The view of a reply that may not have come yet.
pub open spec fn reply_of(reply: Option<Reply>) -> Option<ReplyView> {
    match reply {
        Some(reply) => Some(reply@),
        None => None,
    }
}

/// Whether a reply is of the kind that answers a call.
pub open spec fn answers(call: RuntimeCallView, reply: ReplyView) -> bool {
    match call {
        RuntimeCallView::Create(_) => reply is Created,
        RuntimeCallView::Connect(_) => reply is Connected,
        RuntimeCallView::Start(_) => reply is Started,
        RuntimeCallView::Restart(_) => reply is Restarted,
        RuntimeCallView::Inspect(_) => reply is Inspected,
        RuntimeCallView::List { .. } => reply is Listed,
        RuntimeCallView::Probe { .. } => reply is Probed,
        RuntimeCallView::Push(_) => reply is Pushed,
    }
}

/// A call that belongs to discovery: the list of containers, or a probe.
pub open spec fn is_discovery(call: RuntimeCallView) -> bool {
    call is List || call is Probe
}

/// Whether a call changes what containers there are or whether they run.
pub open spec fn changes_containers(call: RuntimeCallView) -> bool {
    call is Create || call is Connect || call is Start || call is Restart
}

} // verus!
