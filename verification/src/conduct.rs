//! What a whole execution of a directive amounts to.
//!
//! The step functions of the orchestrator say what happens between two
//! calls. This module puts the steps together: against a world that answers
//! every call, a directive is driven from its first step to its outcome, and
//! the run is what the outside observes of it: the calls in their order, the
//! outcome, and the registry as the directive leaves it. The world stands
//! for a fleet that does not change while the directive runs: it answers
//! the same call always alike.
//!
//! The second half of the module describes a search as a whole, and proves
//! that the steps, driven against a world, make exactly that search.

use vstd::prelude::*;
use crate::directive::{
    validate_addition, validate_reconfigure, validate_restart, DirectiveView, QueryTypeView,
    ReconfigureOrderView, RestartOrderView, ValidationError,
};
use crate::discovery::{probe_call, turn_to};
use crate::lifecycle::{
    directive_step, follow_search, inspect, PhaseView, StepView, Transition,
};
use crate::outcome::OutcomeView;
use crate::runtime::{answers, changes_containers, ReplyView, RuntimeCallView};

verus! {

/// A world that answers every call, and the same call always alike.
pub type World = spec_fn(RuntimeCallView) -> ReplyView;

/// A world whose replies are of the kind that the call asks for.
pub open spec fn honest(world: World) -> bool {
    forall|call: RuntimeCallView| #[trigger] answers(call, world(call))
}

/// What is observed of the execution of a directive.
pub struct Run {
    /// The calls that were made, in their order.
    pub calls: Seq<RuntimeCallView>,
    /// The outcome; `None` where the execution was cut short.
    pub outcome: Option<OutcomeView>,
    /// The registry after the execution.
    pub registry: Map<u128, Seq<char>>,
}

/// A run with `calls` in front of it.
pub open spec fn after(calls: Seq<RuntimeCallView>, run: Run) -> Run {
    Run { calls: calls + run.calls, outcome: run.outcome, registry: run.registry }
}

/// Drives a directive on from a transition: each call is answered by the
/// world and the reply handed to the next step, for at most `patience`
/// calls.
pub open spec fn drive(directive: DirectiveView, at: Transition, world: World, patience: nat) -> Run
    decreases patience,
{
    match at.step {
        StepView::Done(outcome) => Run {
            calls: Seq::empty(),
            outcome: Some(outcome),
            registry: at.registry,
        },
        StepView::Call(call) => if patience == 0 {
            Run { calls: Seq::empty(), outcome: None, registry: at.registry }
        } else {
            after(
                seq![call],
                drive(
                    directive,
                    directive_step(directive, at.phase, Some(world(call)), at.registry),
                    world,
                    (patience - 1) as nat,
                ),
            )
        },
    }
}

/// The containers that the world lists.
pub open spec fn listing(world: World) -> Seq<Seq<char>> {
    match world(RuntimeCallView::List { all: true }) {
        ReplyView::Listed(candidates) => candidates,
        _ => Seq::empty(),
    }
}

/// The number of calls that no directive exceeds in a world: the list, two
/// calls for each container, and two more for the container that was found.
pub open spec fn enough(world: World) -> nat {
    2 * listing(world).len() + 3
}

/// The execution of a directive from its first step to its outcome.
pub open spec fn execute(
    directive: DirectiveView,
    registry: Map<u128, Seq<char>>,
    world: World,
) -> Run {
    drive(
        directive,
        directive_step(directive, PhaseView::Init, None, registry),
        world,
        enough(world),
    )
}

/// The probe that follows the inspection of the candidate `id`, where the
/// inspection gives it a name.
pub open spec fn probe_of(world: World, query: QueryTypeView, id: Seq<char>) -> Option<
    RuntimeCallView,
> {
    match world(RuntimeCallView::Inspect(id)) {
        ReplyView::Inspected(Ok(info)) => match info.name {
            Some(name) => Some(probe_call(query, name)),
            None => None,
        },
        _ => None,
    }
}

/// The candidate `id` reports the device `target`: it can be inspected, has
/// a name, and the device at its address reports that UUID.
pub open spec fn reports(world: World, query: QueryTypeView, id: Seq<char>, target: u128) -> bool {
    match probe_of(world, query, id) {
        Some(probe) => world(probe) == ReplyView::Probed(Some(target)),
        None => false,
    }
}

/// What asking one candidate comes to.
pub enum Verdict {
    /// The candidate reports the wanted device.
    Reports,
    /// The candidate is passed over.
    Passes,
    /// The world answered a call with a reply of another kind.
    Stray,
}

/// What asking the candidate `id` for the device `target` comes to.
pub open spec fn verdict(world: World, query: QueryTypeView, id: Seq<char>, target: u128) -> Verdict {
    match world(RuntimeCallView::Inspect(id)) {
        ReplyView::Inspected(Ok(info)) => match info.name {
            Some(name) => match world(probe_call(query, name)) {
                ReplyView::Probed(reported) => if reported == Some(target) {
                    Verdict::Reports
                } else {
                    Verdict::Passes
                },
                _ => Verdict::Stray,
            },
            None => Verdict::Passes,
        },
        ReplyView::Inspected(Err(_)) => Verdict::Passes,
        _ => Verdict::Stray,
    }
}

/// The calls that asking the candidate `id` takes: its inspection, and its
/// probe where it has a name.
pub open spec fn asking(world: World, query: QueryTypeView, id: Seq<char>) -> Seq<RuntimeCallView> {
    match probe_of(world, query, id) {
        Some(probe) => seq![RuntimeCallView::Inspect(id), probe],
        None => seq![RuntimeCallView::Inspect(id)],
    }
}

/// How a search ends.
pub enum SearchEnd {
    /// The candidate at this place reports the device.
    Found(int),
    /// No candidate reports the device.
    Missing,
    /// The world answered a call with a reply of another kind.
    Stray,
}

/// How the search through the candidates from the place `from` on ends: at
/// the first candidate that does not pass.
pub open spec fn search_end(
    world: World,
    query: QueryTypeView,
    candidates: Seq<Seq<char>>,
    target: u128,
    from: int,
) -> SearchEnd
    decreases candidates.len() - from,
{
    if from < 0 || from >= candidates.len() {
        SearchEnd::Missing
    } else {
        match verdict(world, query, candidates[from], target) {
            Verdict::Reports => SearchEnd::Found(from),
            Verdict::Stray => SearchEnd::Stray,
            Verdict::Passes => search_end(world, query, candidates, target, from + 1),
        }
    }
}

/// The calls of the search through the candidates from the place `from`
/// on: each candidate is asked, up to and including the first that does not
/// pass.
pub open spec fn search_calls(
    world: World,
    query: QueryTypeView,
    candidates: Seq<Seq<char>>,
    target: u128,
    from: int,
) -> Seq<RuntimeCallView>
    decreases candidates.len() - from,
{
    if from < 0 || from >= candidates.len() {
        Seq::empty()
    } else {
        match verdict(world, query, candidates[from], target) {
            Verdict::Passes => asking(world, query, candidates[from]) + search_calls(
                world,
                query,
                candidates,
                target,
                from + 1,
            ),
            _ => asking(world, query, candidates[from]),
        }
    }
}

/// The device that a directive is for, or why it is refused.
pub open spec fn validate(directive: DirectiveView) -> Result<u128, ValidationError> {
    match directive {
        DirectiveView::Addition(order) => validate_addition(order),
        DirectiveView::Restart(order) => validate_restart(order),
        DirectiveView::Reconfigure(order) => validate_reconfigure(order),
    }
}

/// How a directive that acts on an existing container asks the containers
/// which device they run.
pub open spec fn descriptor_of(directive: DirectiveView) -> Option<QueryTypeView> {
    match directive {
        DirectiveView::Addition(_) => None,
        DirectiveView::Restart(order) => order.query_type,
        DirectiveView::Reconfigure(order) => order.query_type,
    }
}

/// What a directive does with the container `id` once it is known to run
/// its device.
pub open spec fn handle(
    directive: DirectiveView,
    id: Seq<char>,
    registry: Map<u128, Seq<char>>,
    world: World,
) -> Run {
    drive(directive, inspect(id, registry), world, 2)
}

/// The run in which a search ends and the directive goes on from there.
pub open spec fn search_run(
    directive: DirectiveView,
    uuid: u128,
    query: QueryTypeView,
    candidates: Seq<Seq<char>>,
    from: int,
    registry: Map<u128, Seq<char>>,
    world: World,
) -> Run {
    after(
        search_calls(world, query, candidates, uuid, from),
        match search_end(world, query, candidates, uuid, from) {
            SearchEnd::Found(place) => handle(
                directive,
                candidates[place],
                registry.insert(uuid, candidates[place]),
                world,
            ),
            SearchEnd::Missing => Run {
                calls: Seq::empty(),
                outcome: Some(OutcomeView::NotFound),
                registry,
            },
            SearchEnd::Stray => Run {
                calls: Seq::empty(),
                outcome: Some(OutcomeView::ProtocolError),
                registry,
            },
        },
    )
}

/// A run that ended gives the same with more patience.
pub proof fn lemma_patience(
    directive: DirectiveView,
    at: Transition,
    world: World,
    patience: nat,
    more: nat,
)
    requires
        drive(directive, at, world, patience).outcome is Some,
        more >= patience,
    ensures
        drive(directive, at, world, more) == drive(directive, at, world, patience),
    decreases patience,
{
    match at.step {
        StepView::Done(_) => {},
        StepView::Call(call) => {
            let next = directive_step(directive, at.phase, Some(world(call)), at.registry);
            lemma_patience(directive, next, world, (patience - 1) as nat, (more - 1) as nat);
        },
    }
}

/// Two calls at most are made for a container that is known.
pub proof fn lemma_handle_ends(
    directive: DirectiveView,
    id: Seq<char>,
    registry: Map<u128, Seq<char>>,
    world: World,
)
    requires
        !(directive is Addition),
    ensures
        handle(directive, id, registry, world).outcome is Some,
        handle(directive, id, registry, world).calls.len() <= 2,
{
    reveal_with_fuel(drive, 3);
}

/// Driven from the candidate at `from`, a search makes the calls of
/// [`search_calls`] and ends as [`search_end`] says.
pub proof fn lemma_search(
    directive: DirectiveView,
    uuid: u128,
    query: QueryTypeView,
    candidates: Seq<Seq<char>>,
    from: int,
    registry: Map<u128, Seq<char>>,
    world: World,
    patience: nat,
)
    requires
        !(directive is Addition),
        descriptor_of(directive) == Some(query),
        0 <= from <= candidates.len(),
        patience >= 2 * (candidates.len() - from) + 2,
    ensures
        drive(
            directive,
            follow_search(uuid, turn_to(candidates, from as nat), registry),
            world,
            patience,
        ) == search_run(directive, uuid, query, candidates, from, registry, world),
    decreases candidates.len() - from,
{
    let start = follow_search(uuid, turn_to(candidates, from as nat), registry);
    let goal = search_run(directive, uuid, query, candidates, from, registry, world);
    if from == candidates.len() {
        assert(drive(directive, start, world, patience).calls =~= goal.calls);
    } else {
        let id = candidates[from];
        let first = RuntimeCallView::Inspect(id);
        let onward = follow_search(uuid, turn_to(candidates, (from + 1) as nat), registry);
        let onward_run = search_run(directive, uuid, query, candidates, from + 1, registry, world);
        let second = directive_step(directive, start.phase, Some(world(first)), start.registry);
        assert(drive(directive, start, world, patience) == after(
            seq![first],
            drive(directive, second, world, (patience - 1) as nat),
        ));
        match world(first) {
            ReplyView::Inspected(Ok(info)) => match info.name {
                Some(name) => {
                    let probe = probe_call(query, name);
                    let third = directive_step(
                        directive,
                        second.phase,
                        Some(world(probe)),
                        second.registry,
                    );
                    assert(second.step == StepView::Call(probe));
                    assert(drive(directive, second, world, (patience - 1) as nat) == after(
                        seq![probe],
                        drive(directive, third, world, (patience - 2) as nat),
                    ));
                    assert(asking(world, query, id) =~= seq![first] + seq![probe]);
                    match world(probe) {
                        ReplyView::Probed(reported) => {
                            if reported == Some(uuid) {
                                let known = registry.insert(uuid, id);
                                assert(third == inspect(id, known));
                                lemma_handle_ends(directive, id, known, world);
                                lemma_patience(directive, third, world, 2, (patience - 2) as nat);
                                assert(drive(directive, start, world, patience).calls
                                    =~= goal.calls);
                            } else {
                                assert(third == onward);
                                lemma_search(
                                    directive,
                                    uuid,
                                    query,
                                    candidates,
                                    from + 1,
                                    registry,
                                    world,
                                    (patience - 2) as nat,
                                );
                                assert(drive(directive, start, world, patience).calls
                                    =~= goal.calls);
                            }
                        },
                        _ => {
                            assert(drive(directive, start, world, patience).calls
                                =~= goal.calls);
                        },
                    }
                },
                None => {
                    assert(second == onward);
                    lemma_search(
                        directive,
                        uuid,
                        query,
                        candidates,
                        from + 1,
                        registry,
                        world,
                        (patience - 1) as nat,
                    );
                    assert(drive(directive, start, world, patience).calls =~= goal.calls);
                },
            },
            ReplyView::Inspected(Err(_)) => {
                assert(second == onward);
                lemma_search(
                    directive,
                    uuid,
                    query,
                    candidates,
                    from + 1,
                    registry,
                    world,
                    (patience - 1) as nat,
                );
                assert(drive(directive, start, world, patience).calls =~= goal.calls);
            },
            _ => {
                assert(drive(directive, start, world, patience).calls =~= goal.calls);
            },
        }
    }
}

/// A run makes no more calls than it has patience for.
pub proof fn lemma_calls_within_patience(
    directive: DirectiveView,
    at: Transition,
    world: World,
    patience: nat,
)
    ensures
        drive(directive, at, world, patience).calls.len() <= patience,
    decreases patience,
{
    match at.step {
        StepView::Done(_) => {},
        StepView::Call(call) => {
            if patience > 0 {
                let next = directive_step(directive, at.phase, Some(world(call)), at.registry);
                lemma_calls_within_patience(directive, next, world, (patience - 1) as nat);
            }
        },
    }
}

/// What is done with a known container never ends as not found.
pub proof fn lemma_handle_never_not_found(
    directive: DirectiveView,
    id: Seq<char>,
    registry: Map<u128, Seq<char>>,
    world: World,
)
    requires
        !(directive is Addition),
    ensures
        handle(directive, id, registry, world).outcome != Some(OutcomeView::NotFound),
{
    reveal_with_fuel(drive, 3);
}

/// What a restart does with a known container touches that container only.
pub proof fn lemma_handle_touches_only_its_container(
    order: RestartOrderView,
    id: Seq<char>,
    registry: Map<u128, Seq<char>>,
    world: World,
)
    ensures
        ({
            let run = handle(DirectiveView::Restart(order), id, registry, world);
            forall|i: int|
                0 <= i < run.calls.len() ==> {
                    let call = #[trigger] run.calls[i];
                    call == RuntimeCallView::Inspect(id) || call == RuntimeCallView::Start(id)
                        || call == RuntimeCallView::Restart(id)
                }
        }),
{
    reveal_with_fuel(drive, 3);
}

/// What a reconfiguration does with a known container changes no
/// container: it inspects and pushes.
pub proof fn lemma_pushing_leaves_containers_alone(
    order: ReconfigureOrderView,
    id: Seq<char>,
    registry: Map<u128, Seq<char>>,
    world: World,
)
    ensures
        ({
            let run = handle(DirectiveView::Reconfigure(order), id, registry, world);
            forall|i: int| 0 <= i < run.calls.len() ==> !changes_containers(#[trigger] run.calls[i])
        }),
{
    reveal_with_fuel(drive, 3);
}

/// In an honest world a candidate reports the device exactly where asking
/// it comes to that verdict, and no call goes astray.
pub proof fn lemma_honest_verdict(world: World, query: QueryTypeView, id: Seq<char>, target: u128)
    requires
        honest(world),
    ensures
        verdict(world, query, id, target) == (if reports(world, query, id, target) {
            Verdict::Reports
        } else {
            Verdict::Passes
        }),
{
    let inspection = RuntimeCallView::Inspect(id);
    assert(answers(inspection, world(inspection)));
    match world(inspection) {
        ReplyView::Inspected(Ok(info)) => match info.name {
            Some(name) => {
                let probe = probe_call(query, name);
                assert(answers(probe, world(probe)));
            },
            None => {},
        },
        _ => {},
    }
}

/// A search that finds a candidate finds it in the list.
pub proof fn lemma_search_end_in_range(
    world: World,
    query: QueryTypeView,
    candidates: Seq<Seq<char>>,
    target: u128,
    from: int,
)
    requires
        0 <= from,
    ensures
        search_end(world, query, candidates, target, from) matches SearchEnd::Found(place)
            ==> from <= place < candidates.len(),
    decreases candidates.len() - from,
{
    if from < candidates.len() {
        lemma_search_end_in_range(world, query, candidates, target, from + 1);
    }
}

/// In an honest world the search ends at the first candidate that reports
/// the device.
pub proof fn lemma_search_finds_first(
    world: World,
    query: QueryTypeView,
    candidates: Seq<Seq<char>>,
    target: u128,
    from: int,
    place: int,
)
    requires
        honest(world),
        0 <= from <= place < candidates.len(),
        reports(world, query, candidates[place], target),
        forall|j: int| from <= j < place ==> !reports(world, query, #[trigger] candidates[j], target),
    ensures
        search_end(world, query, candidates, target, from) == SearchEnd::Found(place),
    decreases place - from,
{
    lemma_honest_verdict(world, query, candidates[from], target);
    if from < place {
        lemma_search_finds_first(world, query, candidates, target, from + 1, place);
    }
}

/// In an honest world a search among candidates of which none reports the
/// device finds nothing.
pub proof fn lemma_search_finds_none(
    world: World,
    query: QueryTypeView,
    candidates: Seq<Seq<char>>,
    target: u128,
    from: int,
)
    requires
        honest(world),
        0 <= from <= candidates.len(),
        forall|j: int|
            from <= j < candidates.len() ==> !reports(world, query, #[trigger] candidates[j], target),
    ensures
        search_end(world, query, candidates, target, from) == SearchEnd::Missing,
    decreases candidates.len() - from,
{
    if from < candidates.len() {
        lemma_honest_verdict(world, query, candidates[from], target);
        lemma_search_finds_none(world, query, candidates, target, from + 1);
    }
}

/// A search that finds the candidate at `place` asks no candidate after
/// it: the candidates behind `place` can be taken away without any change
/// to the calls, and each candidate up to `place` costs two calls at most.
pub proof fn lemma_search_stops(
    world: World,
    query: QueryTypeView,
    candidates: Seq<Seq<char>>,
    target: u128,
    from: int,
    place: int,
)
    requires
        0 <= from <= place < candidates.len(),
        search_end(world, query, candidates, target, from) == SearchEnd::Found(place),
    ensures
        search_calls(world, query, candidates, target, from) == search_calls(
            world,
            query,
            candidates.take(place + 1),
            target,
            from,
        ),
        search_calls(world, query, candidates, target, from).len() <= 2 * (place + 1 - from),
    decreases place - from,
{
    let front = candidates.take(place + 1);
    assert(front[from] == candidates[from]);
    match verdict(world, query, candidates[from], target) {
        Verdict::Passes => {
            lemma_search_end_in_range(world, query, candidates, target, from + 1);
            lemma_search_stops(world, query, candidates, target, from + 1, place);
        },
        _ => {},
    }
}

/// A search only asks: each of its calls is the inspection or the probe of
/// a candidate. No container is started, restarted or otherwise changed
/// while its device is being looked for.
pub proof fn lemma_search_only_asks(
    world: World,
    query: QueryTypeView,
    candidates: Seq<Seq<char>>,
    target: u128,
    from: int,
)
    requires
        0 <= from,
    ensures
        forall|i: int|
            0 <= i < search_calls(world, query, candidates, target, from).len() ==> {
                let call = #[trigger] search_calls(world, query, candidates, target, from)[i];
                call is Inspect || call is Probe
            },
    decreases candidates.len() - from,
{
    if from < candidates.len() {
        lemma_search_only_asks(world, query, candidates, target, from + 1);
    }
}

} // verus!
