//! What holds of every execution of a directive.
//!
//! Each law is stated of [`execute`]: of the calls, the outcome and the
//! registry that the step functions of the orchestrator produce when they
//! are driven against a world, whatever that world answers.

use vstd::prelude::*;
use crate::conduct::{
    after, descriptor_of, drive, enough, execute, handle, honest, lemma_calls_within_patience,
    lemma_handle_ends, lemma_handle_never_not_found, lemma_handle_touches_only_its_container,
    lemma_patience, lemma_pushing_leaves_containers_alone, lemma_search, lemma_search_end_in_range,
    lemma_search_finds_first, lemma_search_finds_none, lemma_search_only_asks, lemma_search_stops,
    listing, reports, search_calls, search_end, search_run, validate, Run, SearchEnd, World,
};
use crate::directive::{
    container_of, push_method, push_request, validate_addition, validate_reconfigure,
    validate_restart, AdditionOrderView, DirectiveView, ReconfigureOrderView, RestartOrderView,
};
use crate::discovery::turn_to;
use crate::lifecycle::{
    conclude, directive_step, follow_search, inspect, running, PhaseView, StepView,
};
use crate::outcome::{fault_outcome, OutcomeView};
use crate::runtime::{
    answers, changes_containers, is_discovery, ConnectionSpecView, HttpMethod, ReplyView,
    RuntimeCallView, RuntimeFaultView,
};

verus! {

/// Whether a call of a restart keeps to the container `resolved`: it may
/// list, inspect and probe, and it may start or restart that container.
pub open spec fn keeps_to(call: RuntimeCallView, resolved: Option<Seq<char>>) -> bool {
    match call {
        RuntimeCallView::Start(id) => resolved == Some(id),
        RuntimeCallView::Restart(id) => resolved == Some(id),
        RuntimeCallView::Create(_) => false,
        RuntimeCallView::Connect(_) => false,
        RuntimeCallView::Push(_) => false,
        _ => true,
    }
}

/// The container that the registry names for the device of a restart.
pub open spec fn resolved_by(order: RestartOrderView, registry: Map<u128, Seq<char>>) -> Option<
    Seq<char>,
> {
    match validate_restart(order) {
        Ok(uuid) => if registry.contains_key(uuid) {
            Some(registry[uuid])
        } else {
            None
        },
        Err(_) => None,
    }
}

/// The connection of a new container to the network of its order.
pub open spec fn connection_of(order: AdditionOrderView, id: Seq<char>) -> RuntimeCallView {
    RuntimeCallView::Connect(ConnectionSpecView { container: id, network: order.network_name })
}

/// Every directive comes to an outcome, whatever the world answers.
pub proof fn law_every_directive_ends(
    directive: DirectiveView,
    registry: Map<u128, Seq<char>>,
    world: World,
)
    ensures
        execute(directive, registry, world).outcome is Some,
{
    match validate(directive) {
        Err(_) => {},
        Ok(uuid) => {
            if directive is Addition {
                reveal_with_fuel(drive, 4);
            } else if registry.contains_key(uuid) {
                law_known_container_is_handled(directive, registry, world);
                law_handling_is_not_discovery(directive, registry[uuid], registry, world);
            } else if descriptor_of(directive) is None {
            } else if world(RuntimeCallView::List { all: true }) is Listed {
                let query = descriptor_of(directive)->Some_0;
                law_registry_miss_starts_discovery(directive, registry, world);
                match search_end(world, query, listing(world), uuid, 0) {
                    SearchEnd::Found(place) => {
                        let found = listing(world)[place];
                        lemma_handle_ends(directive, found, registry.insert(uuid, found), world);
                    },
                    _ => {},
                }
            } else {
                reveal_with_fuel(drive, 2);
            }
        },
    }
}

/// The cost of a directive is linear in the size of the fleet: it makes
/// at most two calls for each container that the runtime lists, and three
/// more.
pub proof fn law_calls_are_linear_in_the_fleet(
    directive: DirectiveView,
    registry: Map<u128, Seq<char>>,
    world: World,
)
    ensures
        execute(directive, registry, world).calls.len() <= 2 * listing(world).len() + 3,
{
    lemma_calls_within_patience(
        directive,
        directive_step(directive, PhaseView::Init, None, registry),
        world,
        enough(world),
    );
}

/// A directive that fails validation makes no call, leaves the registry as
/// it is, and ends as a client error with the reason of the failure.
pub proof fn law_refused_directive_does_nothing(
    directive: DirectiveView,
    registry: Map<u128, Seq<char>>,
    world: World,
)
    requires
        validate(directive) is Err,
    ensures
        execute(directive, registry, world) == (Run {
            calls: Seq::empty(),
            outcome: Some(OutcomeView::ClientError { reason: validate(directive)->Err_0 }),
            registry,
        }),
{
}

/// A directive touches the registry for its own device only, and only to
/// record a container for it: every other device keeps the entry it had,
/// or stays unknown.
pub proof fn law_other_devices_keep_their_entries(
    directive: DirectiveView,
    registry: Map<u128, Seq<char>>,
    world: World,
)
    ensures
        match validate(directive) {
            Ok(uuid) => {
                let after = execute(directive, registry, world).registry;
                after == registry || (after.contains_key(uuid) && after == registry.insert(
                    uuid,
                    after[uuid],
                ))
            },
            Err(_) => execute(directive, registry, world).registry == registry,
        },
{
    match validate(directive) {
        Err(_) => {},
        Ok(uuid) => {
            if directive is Addition {
                reveal_with_fuel(drive, 4);
            } else if registry.contains_key(uuid) {
                law_registry_hit_skips_discovery(directive, registry, world);
            } else if descriptor_of(directive) is None {
            } else if world(RuntimeCallView::List { all: true }) is Listed {
                let query = descriptor_of(directive)->Some_0;
                law_registry_miss_starts_discovery(directive, registry, world);
                match search_end(world, query, listing(world), uuid, 0) {
                    SearchEnd::Found(place) => {
                        let found = listing(world)[place];
                        law_handling_is_not_discovery(
                            directive,
                            found,
                            registry.insert(uuid, found),
                            world,
                        );
                    },
                    _ => {},
                }
            } else {
                reveal_with_fuel(drive, 2);
            }
        },
    }
}

/// Where the registry knows the device of a restart or a reconfiguration,
/// the directive goes straight to the recorded container.
pub proof fn law_known_container_is_handled(
    directive: DirectiveView,
    registry: Map<u128, Seq<char>>,
    world: World,
)
    requires
        !(directive is Addition),
        validate(directive) matches Ok(uuid) && registry.contains_key(uuid),
    ensures
        execute(directive, registry, world) == handle(
            directive,
            registry[validate(directive)->Ok_0],
            registry,
            world,
        ),
{
    let uuid = validate(directive)->Ok_0;
    lemma_handle_ends(directive, registry[uuid], registry, world);
    lemma_patience(directive, inspect(registry[uuid], registry), world, 2, enough(world));
}

/// What is done with a known container involves no discovery and leaves
/// the registry as it is: the container is inspected, and at most one more
/// call is made.
pub proof fn law_handling_is_not_discovery(
    directive: DirectiveView,
    id: Seq<char>,
    registry: Map<u128, Seq<char>>,
    world: World,
)
    requires
        !(directive is Addition),
    ensures
        handle(directive, id, registry, world).registry == registry,
        handle(directive, id, registry, world).outcome is Some,
        1 <= handle(directive, id, registry, world).calls.len() <= 2,
        handle(directive, id, registry, world).calls[0] == RuntimeCallView::Inspect(id),
        forall|i: int|
            0 <= i < handle(directive, id, registry, world).calls.len() ==> !is_discovery(
                #[trigger] handle(directive, id, registry, world).calls[i],
            ),
{
    reveal_with_fuel(drive, 3);
}

/// Where the registry knows the device, a restart or a reconfiguration
/// never invokes discovery: no container is listed and none is probed.
pub proof fn law_registry_hit_skips_discovery(
    directive: DirectiveView,
    registry: Map<u128, Seq<char>>,
    world: World,
)
    requires
        !(directive is Addition),
        validate(directive) matches Ok(uuid) && registry.contains_key(uuid),
    ensures
        execute(directive, registry, world).registry == registry,
        forall|i: int|
            0 <= i < execute(directive, registry, world).calls.len() ==> !is_discovery(
                #[trigger] execute(directive, registry, world).calls[i],
            ),
{
    let uuid = validate(directive)->Ok_0;
    law_known_container_is_handled(directive, registry, world);
    law_handling_is_not_discovery(directive, registry[uuid], registry, world);
}

/// Without a query descriptor no container can be asked: where the registry
/// does not know the device, the device is not found, no call is made and
/// the registry stays as it is.
pub proof fn law_no_descriptor_finds_nothing(
    directive: DirectiveView,
    registry: Map<u128, Seq<char>>,
    world: World,
)
    requires
        !(directive is Addition),
        validate(directive) matches Ok(uuid) && !registry.contains_key(uuid),
        descriptor_of(directive) is None,
    ensures
        execute(directive, registry, world) == (Run {
            calls: Seq::empty(),
            outcome: Some(OutcomeView::NotFound),
            registry,
        }),
{
}

/// Where the registry does not know the device, the containers are listed
/// and searched in the order of the list; the search makes the calls of
/// [`search_calls`] and ends as [`search_end`] says. The container that was
/// found is recorded and then handled as a known one; a search without
/// result leaves the registry as it is.
pub proof fn law_registry_miss_starts_discovery(
    directive: DirectiveView,
    registry: Map<u128, Seq<char>>,
    world: World,
)
    requires
        !(directive is Addition),
        validate(directive) matches Ok(uuid) && !registry.contains_key(uuid),
        descriptor_of(directive) is Some,
        world(RuntimeCallView::List { all: true }) is Listed,
    ensures
        execute(directive, registry, world) == after(
            seq![RuntimeCallView::List { all: true }],
            search_run(
                directive,
                validate(directive)->Ok_0,
                descriptor_of(directive)->Some_0,
                listing(world),
                0,
                registry,
                world,
            ),
        ),
{
    let uuid = validate(directive)->Ok_0;
    let query = descriptor_of(directive)->Some_0;
    let list = RuntimeCallView::List { all: true };
    let first = directive_step(directive, PhaseView::Init, None, registry);
    assert(first.step == StepView::Call(list));
    let second = directive_step(directive, first.phase, Some(world(list)), first.registry);
    assert(second == follow_search(uuid, turn_to(listing(world), 0), registry));
    lemma_search(
        directive,
        uuid,
        query,
        listing(world),
        0,
        registry,
        world,
        (enough(world) - 1) as nat,
    );
}

/// If several candidates report the device, the first of them in the order
/// of the list is the container: it is recorded and handled, and no
/// candidate after it is inspected or probed.
pub proof fn law_first_reporter_wins(
    directive: DirectiveView,
    registry: Map<u128, Seq<char>>,
    world: World,
    place: int,
)
    requires
        !(directive is Addition),
        validate(directive) matches Ok(uuid) && !registry.contains_key(uuid),
        descriptor_of(directive) is Some,
        honest(world),
        0 <= place < listing(world).len(),
        reports(
            world,
            descriptor_of(directive)->Some_0,
            listing(world)[place],
            validate(directive)->Ok_0,
        ),
        forall|j: int|
            0 <= j < place ==> !reports(
                world,
                descriptor_of(directive)->Some_0,
                #[trigger] listing(world)[j],
                validate(directive)->Ok_0,
            ),
    ensures
        ({
            let uuid = validate(directive)->Ok_0;
            let query = descriptor_of(directive)->Some_0;
            let found = listing(world)[place];
            let searching = search_calls(world, query, listing(world), uuid, 0);
            let run = execute(directive, registry, world);
            &&& run == after(
                seq![RuntimeCallView::List { all: true }] + searching,
                handle(directive, found, registry.insert(uuid, found), world),
            )
            &&& run.registry == registry.insert(uuid, found)
            &&& run.outcome is Some
            &&& searching == search_calls(world, query, listing(world).take(place + 1), uuid, 0)
            &&& searching.len() <= 2 * (place + 1)
        }),
{
    let uuid = validate(directive)->Ok_0;
    let query = descriptor_of(directive)->Some_0;
    let found = listing(world)[place];
    let list = RuntimeCallView::List { all: true };
    assert(answers(list, world(list)));
    law_registry_miss_starts_discovery(directive, registry, world);
    lemma_search_finds_first(world, query, listing(world), uuid, 0, place);
    lemma_search_stops(world, query, listing(world), uuid, 0, place);
    law_handling_is_not_discovery(directive, found, registry.insert(uuid, found), world);
    let searching = search_calls(world, query, listing(world), uuid, 0);
    let handled = handle(directive, found, registry.insert(uuid, found), world);
    assert(seq![list] + (searching + handled.calls) =~= (seq![list] + searching) + handled.calls);
}

/// If exactly one candidate reports the device, it is the container: the
/// directive goes on with it, and from then on the registry knows the
/// device as running in that container.
pub proof fn law_sole_reporter_is_found(
    directive: DirectiveView,
    registry: Map<u128, Seq<char>>,
    world: World,
    place: int,
)
    requires
        !(directive is Addition),
        validate(directive) matches Ok(uuid) && !registry.contains_key(uuid),
        descriptor_of(directive) is Some,
        honest(world),
        0 <= place < listing(world).len(),
        forall|j: int|
            0 <= j < listing(world).len() ==> (reports(
                world,
                descriptor_of(directive)->Some_0,
                #[trigger] listing(world)[j],
                validate(directive)->Ok_0,
            ) <==> j == place),
    ensures
        ({
            let uuid = validate(directive)->Ok_0;
            let query = descriptor_of(directive)->Some_0;
            let found = listing(world)[place];
            let run = execute(directive, registry, world);
            &&& run == after(
                seq![RuntimeCallView::List { all: true }] + search_calls(
                    world,
                    query,
                    listing(world),
                    uuid,
                    0,
                ),
                handle(directive, found, registry.insert(uuid, found), world),
            )
            &&& run.registry == registry.insert(uuid, found)
            &&& run.registry.contains_key(uuid)
            &&& run.registry[uuid] == found
            &&& execute(directive, run.registry, world) == handle(
                directive,
                found,
                run.registry,
                world,
            )
        }),
{
    let uuid = validate(directive)->Ok_0;
    let found = listing(world)[place];
    assert(reports(world, descriptor_of(directive)->Some_0, listing(world)[place], uuid));
    law_first_reporter_wins(directive, registry, world, place);
    law_known_container_is_handled(directive, registry.insert(uuid, found), world);
}

/// If no candidate reports the device, the device is not found, and the
/// registry stays as it is.
pub proof fn law_no_reporter_is_not_found(
    directive: DirectiveView,
    registry: Map<u128, Seq<char>>,
    world: World,
)
    requires
        !(directive is Addition),
        validate(directive) matches Ok(uuid) && !registry.contains_key(uuid),
        descriptor_of(directive) is Some,
        honest(world),
        forall|j: int|
            0 <= j < listing(world).len() ==> !reports(
                world,
                descriptor_of(directive)->Some_0,
                #[trigger] listing(world)[j],
                validate(directive)->Ok_0,
            ),
    ensures
        execute(directive, registry, world).outcome == Some(OutcomeView::NotFound),
        execute(directive, registry, world).registry == registry,
{
    let uuid = validate(directive)->Ok_0;
    let query = descriptor_of(directive)->Some_0;
    let list = RuntimeCallView::List { all: true };
    assert(answers(list, world(list)));
    law_registry_miss_starts_discovery(directive, registry, world);
    lemma_search_finds_none(world, query, listing(world), uuid, 0);
}

/// A failure of discovery never changes the registry: whenever a restart
/// or a reconfiguration ends as not found, the registry is as it was.
pub proof fn law_not_found_keeps_registry(
    directive: DirectiveView,
    registry: Map<u128, Seq<char>>,
    world: World,
)
    requires
        !(directive is Addition),
        execute(directive, registry, world).outcome == Some(OutcomeView::NotFound),
    ensures
        execute(directive, registry, world).registry == registry,
{
    match validate(directive) {
        Err(_) => {},
        Ok(uuid) => {
            if registry.contains_key(uuid) {
                law_registry_hit_skips_discovery(directive, registry, world);
            } else if descriptor_of(directive) is None {
            } else if world(RuntimeCallView::List { all: true }) is Listed {
                let query = descriptor_of(directive)->Some_0;
                law_registry_miss_starts_discovery(directive, registry, world);
                match search_end(world, query, listing(world), uuid, 0) {
                    SearchEnd::Found(place) => {
                        lemma_search_end_in_range(world, query, listing(world), uuid, 0);
                        let found = listing(world)[place];
                        lemma_handle_never_not_found(
                            directive,
                            found,
                            registry.insert(uuid, found),
                            world,
                        );
                    },
                    _ => {},
                }
            } else {
                reveal_with_fuel(drive, 2);
            }
        },
    }
}

/// Once discovery has found the container of a device, the next directive
/// for that device finds it in the registry: the execution that follows a
/// successful discovery is the execution of a registry hit.
pub proof fn law_discovery_heals_registry(
    directive: DirectiveView,
    registry: Map<u128, Seq<char>>,
    world: World,
)
    requires
        !(directive is Addition),
        validate(directive) matches Ok(uuid) && !registry.contains_key(uuid),
        descriptor_of(directive) is Some,
        world(RuntimeCallView::List { all: true }) is Listed,
        search_end(
            world,
            descriptor_of(directive)->Some_0,
            listing(world),
            validate(directive)->Ok_0,
            0,
        ) is Found,
    ensures
        ({
            let uuid = validate(directive)->Ok_0;
            let query = descriptor_of(directive)->Some_0;
            let place = search_end(world, query, listing(world), uuid, 0)->Found_0;
            let run = execute(directive, registry, world);
            &&& 0 <= place < listing(world).len()
            &&& run.registry == registry.insert(uuid, listing(world)[place])
            &&& run == after(
                seq![RuntimeCallView::List { all: true }] + search_calls(
                    world,
                    query,
                    listing(world),
                    uuid,
                    0,
                ),
                execute(directive, run.registry, world),
            )
        }),
{
    let uuid = validate(directive)->Ok_0;
    let query = descriptor_of(directive)->Some_0;
    let place = search_end(world, query, listing(world), uuid, 0)->Found_0;
    let found = listing(world)[place];
    let list = RuntimeCallView::List { all: true };
    lemma_search_end_in_range(world, query, listing(world), uuid, 0);
    law_registry_miss_starts_discovery(directive, registry, world);
    law_handling_is_not_discovery(directive, found, registry.insert(uuid, found), world);
    law_known_container_is_handled(directive, registry.insert(uuid, found), world);
    let searching = search_calls(world, query, listing(world), uuid, 0);
    let handled = handle(directive, found, registry.insert(uuid, found), world);
    assert(seq![list] + (searching + handled.calls) =~= (seq![list] + searching) + handled.calls);
}

/// An addition whose three operations succeed creates the container from
/// the image, the environment and the arguments of the order, records it
/// for the device, connects it to the network of the order and starts it,
/// in this order, and ends in success.
pub proof fn law_addition_creates_connects_starts(
    order: AdditionOrderView,
    registry: Map<u128, Seq<char>>,
    world: World,
    id: Seq<char>,
)
    requires
        validate_addition(order) is Ok,
        world(RuntimeCallView::Create(container_of(order))) == ReplyView::Created(Ok(id)),
        world(connection_of(order, id)) == ReplyView::Connected(Ok(())),
        world(RuntimeCallView::Start(id)) == ReplyView::Started(Ok(())),
    ensures
        execute(DirectiveView::Addition(order), registry, world) == (Run {
            calls: seq![
                RuntimeCallView::Create(container_of(order)),
                connection_of(order, id),
                RuntimeCallView::Start(id),
            ],
            outcome: Some(OutcomeView::Success),
            registry: registry.insert(validate_addition(order)->Ok_0, id),
        }),
{
    reveal_with_fuel(drive, 4);
    let run = execute(DirectiveView::Addition(order), registry, world);
    assert(run.calls =~= seq![
        RuntimeCallView::Create(container_of(order)),
        connection_of(order, id),
        RuntimeCallView::Start(id),
    ]);
}

/// An addition whose container cannot be created ends with the fault of
/// the runtime; nothing is recorded and no further call is made.
pub proof fn law_failed_create_records_nothing(
    order: AdditionOrderView,
    registry: Map<u128, Seq<char>>,
    world: World,
    fault: RuntimeFaultView,
)
    requires
        validate_addition(order) is Ok,
        world(RuntimeCallView::Create(container_of(order))) == ReplyView::Created(Err(fault)),
    ensures
        execute(DirectiveView::Addition(order), registry, world) == (Run {
            calls: seq![RuntimeCallView::Create(container_of(order))],
            outcome: Some(fault_outcome(fault)),
            registry,
        }),
{
    reveal_with_fuel(drive, 2);
    let run = execute(DirectiveView::Addition(order), registry, world);
    assert(run.calls =~= seq![RuntimeCallView::Create(container_of(order))]);
}

/// An addition whose container is created but cannot be connected ends
/// with the fault of the runtime. The container is left as it is: it stays
/// recorded for the device, it is not started, and no call is made to
/// remove it.
pub proof fn law_failed_connect_is_not_undone(
    order: AdditionOrderView,
    registry: Map<u128, Seq<char>>,
    world: World,
    id: Seq<char>,
    fault: RuntimeFaultView,
)
    requires
        validate_addition(order) is Ok,
        world(RuntimeCallView::Create(container_of(order))) == ReplyView::Created(Ok(id)),
        world(connection_of(order, id)) == ReplyView::Connected(Err(fault)),
    ensures
        execute(DirectiveView::Addition(order), registry, world) == (Run {
            calls: seq![RuntimeCallView::Create(container_of(order)), connection_of(order, id)],
            outcome: Some(fault_outcome(fault)),
            registry: registry.insert(validate_addition(order)->Ok_0, id),
        }),
{
    reveal_with_fuel(drive, 3);
    let run = execute(DirectiveView::Addition(order), registry, world);
    assert(run.calls =~= seq![
        RuntimeCallView::Create(container_of(order)),
        connection_of(order, id),
    ]);
}

/// An addition whose container is created and connected but cannot be
/// started ends with the fault of the runtime, and the container stays
/// recorded and connected.
pub proof fn law_failed_start_is_not_undone(
    order: AdditionOrderView,
    registry: Map<u128, Seq<char>>,
    world: World,
    id: Seq<char>,
    fault: RuntimeFaultView,
)
    requires
        validate_addition(order) is Ok,
        world(RuntimeCallView::Create(container_of(order))) == ReplyView::Created(Ok(id)),
        world(connection_of(order, id)) == ReplyView::Connected(Ok(())),
        world(RuntimeCallView::Start(id)) == ReplyView::Started(Err(fault)),
    ensures
        execute(DirectiveView::Addition(order), registry, world) == (Run {
            calls: seq![
                RuntimeCallView::Create(container_of(order)),
                connection_of(order, id),
                RuntimeCallView::Start(id),
            ],
            outcome: Some(fault_outcome(fault)),
            registry: registry.insert(validate_addition(order)->Ok_0, id),
        }),
{
    reveal_with_fuel(drive, 4);
    let run = execute(DirectiveView::Addition(order), registry, world);
    assert(run.calls =~= seq![
        RuntimeCallView::Create(container_of(order)),
        connection_of(order, id),
        RuntimeCallView::Start(id),
    ]);
}

/// A restart of a device that the registry knows inspects the recorded
/// container and acts on its run state; no other call is made.
pub proof fn law_restart_of_known_device(
    order: RestartOrderView,
    registry: Map<u128, Seq<char>>,
    world: World,
)
    requires
        validate_restart(order) matches Ok(uuid) && registry.contains_key(uuid),
    ensures
        execute(DirectiveView::Restart(order), registry, world) == handle(
            DirectiveView::Restart(order),
            registry[validate_restart(order)->Ok_0],
            registry,
            world,
        ),
{
    law_known_container_is_handled(DirectiveView::Restart(order), registry, world);
}

/// What a restart does with its container depends on the run state that
/// the inspection shows: a running container is restarted and not started,
/// a container in any other state is started and not restarted, and a
/// container without a state is left alone, with an outcome of its own.
pub proof fn law_restart_follows_run_state(
    order: RestartOrderView,
    id: Seq<char>,
    registry: Map<u128, Seq<char>>,
    world: World,
)
    requires
        world(RuntimeCallView::Inspect(id)) matches ReplyView::Inspected(Ok(_)),
    ensures
        ({
            let status = world(RuntimeCallView::Inspect(id))->Inspected_0->Ok_0.status;
            let run = handle(DirectiveView::Restart(order), id, registry, world);
            match status {
                Some(state) => if state == running() {
                    &&& run.calls == seq![
                        RuntimeCallView::Inspect(id),
                        RuntimeCallView::Restart(id),
                    ]
                    &&& world(RuntimeCallView::Restart(id)) matches ReplyView::Restarted(result)
                        ==> run.outcome == Some(conclude(result))
                } else {
                    &&& run.calls == seq![RuntimeCallView::Inspect(id), RuntimeCallView::Start(id)]
                    &&& world(RuntimeCallView::Start(id)) matches ReplyView::Started(result)
                        ==> run.outcome == Some(conclude(result))
                },
                None => {
                    &&& run.calls == seq![RuntimeCallView::Inspect(id)]
                    &&& run.outcome == Some(OutcomeView::NoStatus)
                },
            }
        }),
{
    reveal_with_fuel(drive, 3);
    let status = world(RuntimeCallView::Inspect(id))->Inspected_0->Ok_0.status;
    let run = handle(DirectiveView::Restart(order), id, registry, world);
    match status {
        Some(state) => if state == running() {
            assert(run.calls =~= seq![
                RuntimeCallView::Inspect(id),
                RuntimeCallView::Restart(id),
            ]);
        } else {
            assert(run.calls =~= seq![RuntimeCallView::Inspect(id), RuntimeCallView::Start(id)]);
        },
        None => {
            assert(run.calls =~= seq![RuntimeCallView::Inspect(id)]);
        },
    }
}

/// A restart starts or restarts no container but the one that it resolved
/// its device to: whatever the fleet holds and whatever the candidates
/// answer, every start and every restart in the run is for the container
/// that the registry names for the device afterwards, and nothing is
/// created, connected or pushed.
pub proof fn law_restart_touches_only_its_container(
    order: RestartOrderView,
    registry: Map<u128, Seq<char>>,
    world: World,
)
    ensures
        ({
            let run = execute(DirectiveView::Restart(order), registry, world);
            forall|i: int|
                0 <= i < run.calls.len() ==> keeps_to(
                    #[trigger] run.calls[i],
                    resolved_by(order, run.registry),
                )
        }),
{
    let directive = DirectiveView::Restart(order);
    let run = execute(directive, registry, world);
    let resolved = resolved_by(order, run.registry);
    match validate_restart(order) {
        Err(_) => {},
        Ok(uuid) => {
            if registry.contains_key(uuid) {
                law_known_container_is_handled(directive, registry, world);
                law_handling_is_not_discovery(directive, registry[uuid], registry, world);
                lemma_handle_touches_only_its_container(order, registry[uuid], registry, world);
            } else if order.query_type is None {
            } else if world(RuntimeCallView::List { all: true }) is Listed {
                let query = order.query_type->Some_0;
                let list = RuntimeCallView::List { all: true };
                let searching = search_calls(world, query, listing(world), uuid, 0);
                law_registry_miss_starts_discovery(directive, registry, world);
                lemma_search_only_asks(world, query, listing(world), uuid, 0);
                lemma_search_end_in_range(world, query, listing(world), uuid, 0);
                match search_end(world, query, listing(world), uuid, 0) {
                    SearchEnd::Found(place) => {
                        let found = listing(world)[place];
                        let known = registry.insert(uuid, found);
                        let handled = handle(directive, found, known, world);
                        lemma_handle_touches_only_its_container(order, found, known, world);
                        law_handling_is_not_discovery(directive, found, known, world);
                        assert(run.calls =~= (seq![list] + searching) + handled.calls);
                        assert(resolved == Some(found));
                        assert forall|i: int| 0 <= i < run.calls.len() implies keeps_to(
                            #[trigger] run.calls[i],
                            resolved,
                        ) by {
                            if i == 0 {
                            } else if i < 1 + searching.len() {
                                assert(run.calls[i] == searching[i - 1]);
                            } else {
                                assert(run.calls[i] == handled.calls[i - 1 - searching.len()]);
                            }
                        }
                    },
                    _ => {
                        assert(run.calls =~= seq![list] + searching);
                        assert forall|i: int| 0 <= i < run.calls.len() implies keeps_to(
                            #[trigger] run.calls[i],
                            resolved,
                        ) by {
                            if i > 0 {
                                assert(run.calls[i] == searching[i - 1]);
                            }
                        }
                    },
                }
            } else {
                reveal_with_fuel(drive, 2);
            }
        },
    }
}

/// A reconfiguration by another method than PUT is refused before any call
/// is made: no container is listed, inspected or probed, and nothing is
/// pushed.
pub proof fn law_only_put_is_pushed(
    directive: DirectiveView,
    registry: Map<u128, Seq<char>>,
    world: World,
)
    requires
        directive is Reconfigure,
        push_method(directive->Reconfigure_0.reconfig) != HttpMethod::Put,
    ensures
        execute(directive, registry, world).calls == Seq::<RuntimeCallView>::empty(),
        execute(directive, registry, world).outcome matches Some(
            OutcomeView::ClientError { .. },
        ),
        execute(directive, registry, world).registry == registry,
{
    law_refused_directive_does_nothing(directive, registry, world);
}

/// A reconfiguration inspects its container for its name, pushes the
/// payload of the order by PUT to the address built from that name, and
/// reports the status of the answer as it came. Where the push fails, that
/// is the outcome; nothing is tried again. The run state of the container
/// is not touched.
pub proof fn law_reconfigure_forwards(
    order: ReconfigureOrderView,
    id: Seq<char>,
    registry: Map<u128, Seq<char>>,
    world: World,
)
    requires
        validate_reconfigure(order) is Ok,
        world(RuntimeCallView::Inspect(id)) matches ReplyView::Inspected(Ok(info))
            && info.name is Some,
    ensures
        ({
            let name = world(RuntimeCallView::Inspect(id))->Inspected_0->Ok_0.name->Some_0;
            let run = handle(DirectiveView::Reconfigure(order), id, registry, world);
            &&& push_request(order.reconfig, name) is Ok
            &&& run.calls == seq![
                RuntimeCallView::Inspect(id),
                RuntimeCallView::Push(push_request(order.reconfig, name)->Ok_0),
            ]
            &&& run.registry == registry
            &&& match world(RuntimeCallView::Push(push_request(order.reconfig, name)->Ok_0)) {
                ReplyView::Pushed(Some(status)) => run.outcome == Some(
                    OutcomeView::Forwarded { status },
                ),
                ReplyView::Pushed(None) => run.outcome == Some(OutcomeView::ForwardFault),
                _ => run.outcome == Some(OutcomeView::ProtocolError),
            }
        }),
{
    reveal_with_fuel(drive, 3);
    let name = world(RuntimeCallView::Inspect(id))->Inspected_0->Ok_0.name->Some_0;
    let run = handle(DirectiveView::Reconfigure(order), id, registry, world);
    assert(run.calls =~= seq![
        RuntimeCallView::Inspect(id),
        RuntimeCallView::Push(push_request(order.reconfig, name)->Ok_0),
    ]);
}

/// The same reconfiguration, issued again for a device that the registry
/// knows, does the same again: both executions resolve the device through
/// the registry, neither invokes discovery, the registry stays as it is,
/// and the push is made each time.
pub proof fn law_reconfigure_again_hits_registry(
    order: ReconfigureOrderView,
    registry: Map<u128, Seq<char>>,
    world: World,
)
    requires
        validate_reconfigure(order) matches Ok(uuid) && registry.contains_key(uuid),
    ensures
        ({
            let directive = DirectiveView::Reconfigure(order);
            let id = registry[validate_reconfigure(order)->Ok_0];
            let first = execute(directive, registry, world);
            let second = execute(directive, first.registry, world);
            &&& first == handle(directive, id, registry, world)
            &&& first.registry == registry
            &&& second == first
            &&& forall|i: int| 0 <= i < first.calls.len() ==> !is_discovery(#[trigger] first.calls[i])
        }),
{
    let directive = DirectiveView::Reconfigure(order);
    law_known_container_is_handled(directive, registry, world);
    law_registry_hit_skips_discovery(directive, registry, world);
}

/// A reconfiguration leaves the containers as they are: it creates,
/// connects, starts and restarts nothing, whatever the world answers.
pub proof fn law_reconfigure_leaves_containers_alone(
    order: ReconfigureOrderView,
    registry: Map<u128, Seq<char>>,
    world: World,
)
    ensures
        ({
            let run = execute(DirectiveView::Reconfigure(order), registry, world);
            forall|i: int| 0 <= i < run.calls.len() ==> !changes_containers(#[trigger] run.calls[i])
        }),
{
    let directive = DirectiveView::Reconfigure(order);
    let run = execute(directive, registry, world);
    match validate_reconfigure(order) {
        Err(_) => {},
        Ok(uuid) => {
            if registry.contains_key(uuid) {
                law_known_container_is_handled(directive, registry, world);
                lemma_pushing_leaves_containers_alone(order, registry[uuid], registry, world);
            } else if order.query_type is None {
            } else if world(RuntimeCallView::List { all: true }) is Listed {
                let query = order.query_type->Some_0;
                let list = RuntimeCallView::List { all: true };
                let searching = search_calls(world, query, listing(world), uuid, 0);
                law_registry_miss_starts_discovery(directive, registry, world);
                lemma_search_only_asks(world, query, listing(world), uuid, 0);
                lemma_search_end_in_range(world, query, listing(world), uuid, 0);
                match search_end(world, query, listing(world), uuid, 0) {
                    SearchEnd::Found(place) => {
                        let found = listing(world)[place];
                        let known = registry.insert(uuid, found);
                        let handled = handle(directive, found, known, world);
                        lemma_pushing_leaves_containers_alone(order, found, known, world);
                        assert(run.calls =~= (seq![list] + searching) + handled.calls);
                        assert forall|i: int| 0 <= i < run.calls.len() implies !changes_containers(
                            #[trigger] run.calls[i],
                        ) by {
                            if i == 0 {
                            } else if i < 1 + searching.len() {
                                assert(run.calls[i] == searching[i - 1]);
                            } else {
                                assert(run.calls[i] == handled.calls[i - 1 - searching.len()]);
                            }
                        }
                    },
                    _ => {
                        assert(run.calls =~= seq![list] + searching);
                        assert forall|i: int| 0 <= i < run.calls.len() implies !changes_containers(
                            #[trigger] run.calls[i],
                        ) by {
                            if i > 0 {
                                assert(run.calls[i] == searching[i - 1]);
                            }
                        }
                    },
                }
            } else {
                reveal_with_fuel(drive, 2);
            }
        },
    }
}

} // verus!
