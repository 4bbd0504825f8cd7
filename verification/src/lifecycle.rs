//! The lifecycle orchestrator: what each directive does, step by step.
//!
//! A directive is executed by one function that is called again and again.
//! The first call, in [`Phase::Init`], validates the directive and looks at
//! no reply; every call returns the phase to come back with and a [`Step`]:
//! a call for the caller to make, or the outcome. Every later call needs the
//! reply to the call that was handed out before it; any other reply, and
//! none, ends the directive as a protocol error. Within one directive the
//! calls are strictly sequential, nothing is retried, and nothing that was
//! done is undone when a later call fails. How long a call may take is for
//! the caller to decide: a call that it gives up on is a failed call.

use vstd::prelude::*;
use crate::directive::{
    container_of, push_request, validate_addition, validate_reconfigure, validate_restart,
    AdditionOrder, AdditionOrderView, BuildRequest, ConnectionBuilder, ContainerBuilder, Directive,
    DirectiveView, QueryType, QueryTypeView, ReconfigureOrder, ReconfigureOrderView, RestartOrder,
    RestartOrderView, query_of,
};
use crate::discovery::{resolve, search_step, Search, SearchStep, SearchStepView, SearchView};
use crate::identity::{ContainerId, DeviceUuid};
use crate::outcome::{fault_outcome, Outcome, OutcomeView};
use crate::registry::Registry;
use crate::runtime::{
    reply_of, ConnectionSpecView, Reply, ReplyView, RuntimeCall, RuntimeCallView,
};

verus! {

/// Where the execution of a directive stands between two calls.
#[derive(Debug, PartialEq, Eq)]
pub enum Phase {
    /// Nothing was done yet.
    Init,
    /// The container of the device `uuid` is being searched.
    Locating { uuid: DeviceUuid, search: Search },
    /// The container was found and is being inspected.
    Inspecting { id: ContainerId },
    /// The container for the device `uuid` is being created.
    Creating { uuid: DeviceUuid },
    /// The new container is being connected to its network.
    Connecting { id: ContainerId },
    /// The container is being started.
    Starting { id: ContainerId },
    /// The container is being restarted.
    Restarting { id: ContainerId },
    /// The reconfiguration is on its way to the device.
    Pushing,
    /// The directive has its outcome.
    Finished,
}

/// A phase as mathematical values.
pub enum PhaseView {
    Init,
    Locating { uuid: u128, search: SearchView },
    Inspecting { id: Seq<char> },
    Creating { uuid: u128 },
    Connecting { id: Seq<char> },
    Starting { id: Seq<char> },
    Restarting { id: Seq<char> },
    Pushing,
    Finished,
}

impl View for Phase {
    type V = PhaseView;

    open spec fn view(&self) -> PhaseView {
        match *self {
            Phase::Init => PhaseView::Init,
            Phase::Locating { uuid, search } => PhaseView::Locating {
                uuid: uuid.value,
                search: search@,
            },
            Phase::Inspecting { id } => PhaseView::Inspecting { id: id@ },
            Phase::Creating { uuid } => PhaseView::Creating { uuid: uuid.value },
            Phase::Connecting { id } => PhaseView::Connecting { id: id@ },
            Phase::Starting { id } => PhaseView::Starting { id: id@ },
            Phase::Restarting { id } => PhaseView::Restarting { id: id@ },
            Phase::Pushing => PhaseView::Pushing,
            Phase::Finished => PhaseView::Finished,
        }
    }
}

/// What the caller does next.
#[derive(Debug, PartialEq, Eq)]
pub enum Step {
    /// Make this call and come back with its reply.
    Call(RuntimeCall),
    /// Report this outcome; the directive is over.
    Done(Outcome),
}

/// A step as mathematical values.
pub enum StepView {
    Call(RuntimeCallView),
    Done(OutcomeView),
}

impl View for Step {
    type V = StepView;

    open spec fn view(&self) -> StepView {
        match *self {
            Step::Call(call) => StepView::Call(call@),
            Step::Done(outcome) => StepView::Done(outcome@),
        }
    }
}

/// The result of one step: the phase and the step as the function returns
/// them, and the registry as it leaves it.
pub struct Transition {
    pub phase: PhaseView,
    pub step: StepView,
    pub registry: Map<u128, Seq<char>>,
}

/// The directive ends with `outcome`.
pub open spec fn finish(outcome: OutcomeView, registry: Map<u128, Seq<char>>) -> Transition {
    Transition { phase: PhaseView::Finished, step: StepView::Done(outcome), registry }
}

/// The directive goes on with `call`.
pub open spec fn proceed(
    phase: PhaseView,
    call: RuntimeCallView,
    registry: Map<u128, Seq<char>>,
) -> Transition {
    Transition { phase, step: StepView::Call(call), registry }
}

/// The container `id` is known to run the device: it is inspected next.
pub open spec fn inspect(id: Seq<char>, registry: Map<u128, Seq<char>>) -> Transition {
    proceed(PhaseView::Inspecting { id }, RuntimeCallView::Inspect(id), registry)
}

/// The run state in which a container is restarted rather than started:
/// `running`.
pub open spec fn running() -> Seq<char> {
    seq!['r', 'u', 'n', 'n', 'i', 'n', 'g']
}

/// What follows a step of the search for the device `uuid`. A container
/// that was found is recorded in the registry at once; a search without
/// result leaves the registry as it is.
pub open spec fn follow_search(
    uuid: u128,
    searched: (SearchView, SearchStepView),
    registry: Map<u128, Seq<char>>,
) -> Transition {
    match searched.1 {
        SearchStepView::Ask(call) => proceed(
            PhaseView::Locating { uuid, search: searched.0 },
            call,
            registry,
        ),
        SearchStepView::Found(id) => inspect(id, registry.insert(uuid, id)),
        SearchStepView::Missing => finish(OutcomeView::NotFound, registry),
        SearchStepView::Stray => finish(OutcomeView::ProtocolError, registry),
    }
}

/// The start of the resolution of the device `uuid`: the registry is asked
/// first, and only where it does not know the device a search begins.
pub open spec fn locate(
    uuid: u128,
    query: Option<QueryTypeView>,
    registry: Map<u128, Seq<char>>,
) -> Transition {
    if registry.contains_key(uuid) {
        inspect(registry[uuid], registry)
    } else {
        follow_search(uuid, search_step(uuid, query, SearchView::Idle, None), registry)
    }
}

/// What follows the end of an operation on a container that is the last
/// one of its directive.
pub open spec fn conclude(result: Result<(), crate::runtime::RuntimeFaultView>) -> OutcomeView {
    match result {
        Ok(_) => OutcomeView::Success,
        Err(fault) => fault_outcome(fault),
    }
}

/// One step of an addition: validate, create, record, connect, start.
pub open spec fn addition_step(
    order: AdditionOrderView,
    phase: PhaseView,
    reply: Option<ReplyView>,
    registry: Map<u128, Seq<char>>,
) -> Transition {
    match phase {
        PhaseView::Init => match validate_addition(order) {
            Ok(uuid) => proceed(
                PhaseView::Creating { uuid },
                RuntimeCallView::Create(container_of(order)),
                registry,
            ),
            Err(reason) => finish(OutcomeView::ClientError { reason }, registry),
        },
        PhaseView::Creating { uuid } => match reply {
            Some(ReplyView::Created(Ok(id))) => proceed(
                PhaseView::Connecting { id },
                RuntimeCallView::Connect(
                    ConnectionSpecView { container: id, network: order.network_name },
                ),
                registry.insert(uuid, id),
            ),
            Some(ReplyView::Created(Err(fault))) => finish(fault_outcome(fault), registry),
            _ => finish(OutcomeView::ProtocolError, registry),
        },
        PhaseView::Connecting { id } => match reply {
            Some(ReplyView::Connected(Ok(_))) => proceed(
                PhaseView::Starting { id },
                RuntimeCallView::Start(id),
                registry,
            ),
            Some(ReplyView::Connected(Err(fault))) => finish(fault_outcome(fault), registry),
            _ => finish(OutcomeView::ProtocolError, registry),
        },
        PhaseView::Starting { id } => match reply {
            Some(ReplyView::Started(result)) => finish(conclude(result), registry),
            _ => finish(OutcomeView::ProtocolError, registry),
        },
        _ => finish(OutcomeView::ProtocolError, registry),
    }
}

/// One step of a restart: resolve the device, inspect its container, then
/// restart it where it runs, start it where it is in another state, and
/// touch it not at all where it has no state.
pub open spec fn restart_step(
    order: RestartOrderView,
    phase: PhaseView,
    reply: Option<ReplyView>,
    registry: Map<u128, Seq<char>>,
) -> Transition {
    match phase {
        PhaseView::Init => match validate_restart(order) {
            Ok(uuid) => locate(uuid, order.query_type, registry),
            Err(reason) => finish(OutcomeView::ClientError { reason }, registry),
        },
        PhaseView::Locating { uuid, search } => follow_search(
            uuid,
            search_step(uuid, order.query_type, search, reply),
            registry,
        ),
        PhaseView::Inspecting { id } => match reply {
            Some(ReplyView::Inspected(Ok(info))) => match info.status {
                Some(status) => if status == running() {
                    proceed(PhaseView::Restarting { id }, RuntimeCallView::Restart(id), registry)
                } else {
                    proceed(PhaseView::Starting { id }, RuntimeCallView::Start(id), registry)
                },
                None => finish(OutcomeView::NoStatus, registry),
            },
            Some(ReplyView::Inspected(Err(fault))) => finish(fault_outcome(fault), registry),
            _ => finish(OutcomeView::ProtocolError, registry),
        },
        PhaseView::Starting { id } => match reply {
            Some(ReplyView::Started(result)) => finish(conclude(result), registry),
            _ => finish(OutcomeView::ProtocolError, registry),
        },
        PhaseView::Restarting { id } => match reply {
            Some(ReplyView::Restarted(result)) => finish(conclude(result), registry),
            _ => finish(OutcomeView::ProtocolError, registry),
        },
        _ => finish(OutcomeView::ProtocolError, registry),
    }
}

/// One step of a reconfiguration: resolve the device as a restart does,
/// inspect its container for its name, push the payload to the device and
/// report the status of its answer as it came.
pub open spec fn reconfigure_step(
    order: ReconfigureOrderView,
    phase: PhaseView,
    reply: Option<ReplyView>,
    registry: Map<u128, Seq<char>>,
) -> Transition {
    match phase {
        PhaseView::Init => match validate_reconfigure(order) {
            Ok(uuid) => locate(uuid, order.query_type, registry),
            Err(reason) => finish(OutcomeView::ClientError { reason }, registry),
        },
        PhaseView::Locating { uuid, search } => follow_search(
            uuid,
            search_step(uuid, order.query_type, search, reply),
            registry,
        ),
        PhaseView::Inspecting { id } => match reply {
            Some(ReplyView::Inspected(Ok(info))) => match info.name {
                Some(name) => match push_request(order.reconfig, name) {
                    Ok(request) => proceed(
                        PhaseView::Pushing,
                        RuntimeCallView::Push(request),
                        registry,
                    ),
                    Err(reason) => finish(OutcomeView::ClientError { reason }, registry),
                },
                None => finish(OutcomeView::NoAddress, registry),
            },
            Some(ReplyView::Inspected(Err(fault))) => finish(fault_outcome(fault), registry),
            _ => finish(OutcomeView::ProtocolError, registry),
        },
        PhaseView::Pushing => match reply {
            Some(ReplyView::Pushed(Some(status))) => finish(
                OutcomeView::Forwarded { status },
                registry,
            ),
            Some(ReplyView::Pushed(None)) => finish(OutcomeView::ForwardFault, registry),
            _ => finish(OutcomeView::ProtocolError, registry),
        },
        _ => finish(OutcomeView::ProtocolError, registry),
    }
}

/// One step of any directive.
pub open spec fn directive_step(
    directive: DirectiveView,
    phase: PhaseView,
    reply: Option<ReplyView>,
    registry: Map<u128, Seq<char>>,
) -> Transition {
    match directive {
        DirectiveView::Addition(order) => addition_step(order, phase, reply, registry),
        DirectiveView::Restart(order) => restart_step(order, phase, reply, registry),
        DirectiveView::Reconfigure(order) => reconfigure_step(order, phase, reply, registry),
    }
}

/// The transition that an executable step amounts to.
pub open spec fn taken(next: (Phase, Step), registry: Map<u128, Seq<char>>) -> Transition {
    Transition { phase: next.0@, step: next.1@, registry }
}

fn end(outcome: Outcome) -> (next: (Phase, Step))
    ensures
        next.0@ == PhaseView::Finished,
        next.1@ == StepView::Done(outcome@),
{
    (Phase::Finished, Step::Done(outcome))
}

fn inspect_next(id: ContainerId) -> (next: (Phase, Step))
    ensures
        next.0@ == (PhaseView::Inspecting { id: id@ }),
        next.1@ == StepView::Call(RuntimeCallView::Inspect(id@)),
{
    let call = RuntimeCall::Inspect(id.clone());
    (Phase::Inspecting { id }, Step::Call(call))
}

fn conclude_with(result: Result<(), crate::runtime::RuntimeFault>) -> (next: (Phase, Step))
    ensures
        next.0@ == PhaseView::Finished,
        next.1@ == StepView::Done(conclude(crate::runtime::done_of(result))),
{
    match result {
        Ok(_) => end(Outcome::Success),
        Err(fault) => end(Outcome::from_fault(fault)),
    }
}

fn follow(uuid: DeviceUuid, searched: (Search, SearchStep), registry: &mut Registry) -> (next: (
    Phase,
    Step,
))
    ensures
        taken(next, final(registry)@) == follow_search(
            uuid.value,
            (searched.0@, searched.1@),
            old(registry)@,
        ),
{
    let (search, step) = searched;
    match step {
        SearchStep::Ask(call) => (Phase::Locating { uuid, search }, Step::Call(call)),
        SearchStep::Found(id) => {
            registry.record(uuid, id.clone());
            inspect_next(id)
        },
        SearchStep::Missing => end(Outcome::NotFound),
        SearchStep::Stray => end(Outcome::ProtocolError),
    }
}

fn begin_locating(uuid: DeviceUuid, query: &Option<QueryType>, registry: &mut Registry) -> (next: (
    Phase,
    Step,
))
    ensures
        taken(next, final(registry)@) == locate(uuid.value, query_of(*query), old(registry)@),
{
    match registry.lookup(uuid) {
        Some(id) => inspect_next(id),
        None => {
            let searched = resolve(uuid, query, Search::Idle, None);
            follow(uuid, searched, registry)
        },
    }
}

/// Takes an addition one step further.
pub fn recieve_addition_order(
    order: &AdditionOrder,
    phase: Phase,
    reply: Option<Reply>,
    registry: &mut Registry,
) -> (next: (Phase, Step))
    ensures
        taken(next, final(registry)@) == addition_step(
            order@,
            phase@,
            reply_of(reply),
            old(registry)@,
        ),
{
    match phase {
        Phase::Init => match order.validate() {
            Ok(uuid) => (
                Phase::Creating { uuid },
                Step::Call(RuntimeCall::Create(order.build_container())),
            ),
            Err(reason) => end(Outcome::ClientError { reason }),
        },
        Phase::Creating { uuid } => match reply {
            Some(Reply::Created(Ok(id))) => {
                registry.record(uuid, id.clone());
                let call = RuntimeCall::Connect(order.build_connection(&id));
                (Phase::Connecting { id }, Step::Call(call))
            },
            Some(Reply::Created(Err(fault))) => end(Outcome::from_fault(fault)),
            _ => end(Outcome::ProtocolError),
        },
        Phase::Connecting { id } => match reply {
            Some(Reply::Connected(Ok(_))) => {
                let call = RuntimeCall::Start(id.clone());
                (Phase::Starting { id }, Step::Call(call))
            },
            Some(Reply::Connected(Err(fault))) => end(Outcome::from_fault(fault)),
            _ => end(Outcome::ProtocolError),
        },
        Phase::Starting { id } => match reply {
            Some(Reply::Started(result)) => conclude_with(result),
            _ => end(Outcome::ProtocolError),
        },
        _ => end(Outcome::ProtocolError),
    }
}

/// Takes a restart one step further.
pub fn recieve_restart_order(
    order: &RestartOrder,
    phase: Phase,
    reply: Option<Reply>,
    registry: &mut Registry,
) -> (next: (Phase, Step))
    ensures
        taken(next, final(registry)@) == restart_step(
            order@,
            phase@,
            reply_of(reply),
            old(registry)@,
        ),
{
    match phase {
        Phase::Init => match order.validate() {
            Ok(uuid) => begin_locating(uuid, &order.query_type, registry),
            Err(reason) => end(Outcome::ClientError { reason }),
        },
        Phase::Locating { uuid, search } => {
            let searched = resolve(uuid, &order.query_type, search, reply);
            follow(uuid, searched, registry)
        },
        Phase::Inspecting { id } => match reply {
            Some(Reply::Inspected(Ok(info))) => match info.status {
                Some(status) => {
                    proof {
                        reveal_strlit("running");
                        assert("running"@ =~= running());
                    }
                    if status == String::from_str("running") {
                        let call = RuntimeCall::Restart(id.clone());
                        (Phase::Restarting { id }, Step::Call(call))
                    } else {
                        let call = RuntimeCall::Start(id.clone());
                        (Phase::Starting { id }, Step::Call(call))
                    }
                },
                None => end(Outcome::NoStatus),
            },
            Some(Reply::Inspected(Err(fault))) => end(Outcome::from_fault(fault)),
            _ => end(Outcome::ProtocolError),
        },
        Phase::Starting { id } => match reply {
            Some(Reply::Started(result)) => conclude_with(result),
            _ => end(Outcome::ProtocolError),
        },
        Phase::Restarting { id } => match reply {
            Some(Reply::Restarted(result)) => conclude_with(result),
            _ => end(Outcome::ProtocolError),
        },
        _ => end(Outcome::ProtocolError),
    }
}

/// Takes a reconfiguration one step further.
pub fn recieve_update_order(
    order: &ReconfigureOrder,
    phase: Phase,
    reply: Option<Reply>,
    registry: &mut Registry,
) -> (next: (Phase, Step))
    ensures
        taken(next, final(registry)@) == reconfigure_step(
            order@,
            phase@,
            reply_of(reply),
            old(registry)@,
        ),
{
    match phase {
        Phase::Init => match order.validate() {
            Ok(uuid) => begin_locating(uuid, &order.query_type, registry),
            Err(reason) => end(Outcome::ClientError { reason }),
        },
        Phase::Locating { uuid, search } => {
            let searched = resolve(uuid, &order.query_type, search, reply);
            follow(uuid, searched, registry)
        },
        Phase::Inspecting { id } => match reply {
            Some(Reply::Inspected(Ok(info))) => match info.name {
                Some(name) => match order.build_request(name.as_str()) {
                    Ok(request) => (Phase::Pushing, Step::Call(RuntimeCall::Push(request))),
                    Err(reason) => end(Outcome::ClientError { reason }),
                },
                None => end(Outcome::NoAddress),
            },
            Some(Reply::Inspected(Err(fault))) => end(Outcome::from_fault(fault)),
            _ => end(Outcome::ProtocolError),
        },
        Phase::Pushing => match reply {
            Some(Reply::Pushed(Some(status))) => end(Outcome::Forwarded { status }),
            Some(Reply::Pushed(None)) => end(Outcome::ForwardFault),
            _ => end(Outcome::ProtocolError),
        },
        _ => end(Outcome::ProtocolError),
    }
}

/// Takes a directive one step further: the one place where the kind of the
/// directive decides what is done.
pub fn execute_directive(
    directive: &Directive,
    phase: Phase,
    reply: Option<Reply>,
    registry: &mut Registry,
) -> (next: (Phase, Step))
    ensures
        taken(next, final(registry)@) == directive_step(
            directive@,
            phase@,
            reply_of(reply),
            old(registry)@,
        ),
{
    match directive {
        Directive::Addition(order) => recieve_addition_order(order, phase, reply, registry),
        Directive::Restart(order) => recieve_restart_order(order, phase, reply, registry),
        Directive::Reconfigure(order) => recieve_update_order(order, phase, reply, registry),
    }
}

} // verus!
