//! Whole directives, executed against a fleet that lives in memory.

use dothing::directive::{
    AdditionOrder, Directive, QueryType, ReconfigureOrder, ReconfigureType, RestartOrder,
    ValidationError,
};
use dothing::environment::EnvVars;
use dothing::identity::{ContainerId, DeviceUuid};
use dothing::lifecycle::{execute_directive, Phase, Step};
use dothing::outcome::Outcome;
use dothing::registry::Registry;
use dothing::runtime::{
    ConnectionSpec, ContainerInfo, ContainerSpec, HttpMethod, PushRequest, Reply, RuntimeCall,
    RuntimeFault,
};

const U1_TEXT: &str = "a1a2a3a4-b1b2-c1c2-d1d2-d3d4d5d6d7d8";
const U1: u128 = 0xa1a2a3a4b1b2c1c2d1d2d3d4d5d6d7d8;
const U2: u128 = 0x550e8400e29b41d4a716446655440000;
const PORT: u16 = 8080;
const ENDPOINT: &str = "/device";

struct Member {
    id: &'static str,
    name: Option<&'static str>,
    status: Option<&'static str>,
    reports: Option<u128>,
    gone: bool,
    networks: Vec<String>,
}

fn member(id: &'static str, name: &'static str, status: &'static str, reports: Option<u128>) -> Member {
    Member { id, name: Some(name), status: Some(status), reports, gone: false, networks: Vec::new() }
}

struct Fleet {
    members: Vec<Member>,
    new_id: &'static str,
    create_fault: Option<RuntimeFault>,
    connect_fault: Option<RuntimeFault>,
    start_fault: Option<RuntimeFault>,
    restart_fault: Option<RuntimeFault>,
    push_status: Option<u16>,
    calls: Vec<RuntimeCall>,
}

fn fleet(members: Vec<Member>) -> Fleet {
    Fleet {
        members,
        new_id: "fresh",
        create_fault: None,
        connect_fault: None,
        start_fault: None,
        restart_fault: None,
        push_status: Some(200),
        calls: Vec::new(),
    }
}

fn fault(code: Option<u16>, message: &str) -> RuntimeFault {
    RuntimeFault { code, message: message.to_string() }
}

fn copy_of(fault: &RuntimeFault) -> RuntimeFault {
    RuntimeFault { code: fault.code, message: fault.message.clone() }
}

fn no_such_container() -> RuntimeFault {
    fault(Some(404), "no such container")
}

impl Fleet {
    fn find(&mut self, id: &ContainerId) -> Option<&mut Member> {
        self.members.iter_mut().find(|m| m.id == id.value && !m.gone)
    }

    fn answer(&mut self, call: &RuntimeCall) -> Reply {
        match call {
            RuntimeCall::Create(_) => match &self.create_fault {
                Some(f) => Reply::Created(Err(copy_of(f))),
                None => {
                    let id = self.new_id;
                    self.members.push(Member {
                        id,
                        name: Some("/fresh"),
                        status: Some("created"),
                        reports: None,
                        gone: false,
                        networks: Vec::new(),
                    });
                    Reply::Created(Ok(ContainerId::new(id)))
                },
            },
            RuntimeCall::Connect(connection) => match &self.connect_fault {
                Some(f) => Reply::Connected(Err(copy_of(f))),
                None => {
                    let network = connection.network.clone();
                    match self.find(&connection.container) {
                        Some(m) => {
                            m.networks.push(network);
                            Reply::Connected(Ok(()))
                        },
                        None => Reply::Connected(Err(no_such_container())),
                    }
                },
            },
            RuntimeCall::Start(id) => match &self.start_fault {
                Some(f) => Reply::Started(Err(copy_of(f))),
                None => match self.find(id) {
                    Some(m) => {
                        m.status = Some("running");
                        Reply::Started(Ok(()))
                    },
                    None => Reply::Started(Err(no_such_container())),
                },
            },
            RuntimeCall::Restart(id) => match &self.restart_fault {
                Some(f) => Reply::Restarted(Err(copy_of(f))),
                None => match self.find(id) {
                    Some(m) => {
                        m.status = Some("running");
                        Reply::Restarted(Ok(()))
                    },
                    None => Reply::Restarted(Err(no_such_container())),
                },
            },
            RuntimeCall::Inspect(id) => match self.find(id) {
                Some(m) => Reply::Inspected(Ok(ContainerInfo {
                    name: m.name.map(|n| n.to_string()),
                    status: m.status.map(|s| s.to_string()),
                })),
                None => Reply::Inspected(Err(no_such_container())),
            },
            RuntimeCall::List { .. } => {
                Reply::Listed(self.members.iter().map(|m| ContainerId::new(m.id)).collect())
            },
            RuntimeCall::Probe { url } => {
                let mut reported = None;
                for m in self.members.iter().filter(|m| !m.gone) {
                    if let Some(name) = m.name {
                        let address =
                            format!("http://{}:{}{}", name.replace("/", ""), PORT, ENDPOINT);
                        if &address == url {
                            reported = m.reports.map(|value| DeviceUuid { value });
                        }
                    }
                }
                Reply::Probed(reported)
            },
            RuntimeCall::Push(_) => Reply::Pushed(self.push_status),
        }
    }

    fn perform(&mut self, call: RuntimeCall) -> Reply {
        let reply = self.answer(&call);
        self.calls.push(call);
        reply
    }

    fn run(&mut self, directive: &Directive, registry: &mut Registry) -> Outcome {
        let mut phase = Phase::Init;
        let mut reply = None;
        loop {
            let (next, step) = execute_directive(directive, phase, reply, registry);
            match step {
                Step::Done(outcome) => {
                    assert_eq!(next, Phase::Finished);
                    return outcome;
                },
                Step::Call(call) => {
                    reply = Some(self.perform(call));
                    phase = next;
                },
            }
        }
    }
}

fn query() -> Option<QueryType> {
    Some(QueryType::Http { endpoint: ENDPOINT.to_string(), port: PORT })
}

fn restart_of(uuid: u128) -> Directive {
    Directive::Restart(RestartOrder { uuid: Some(DeviceUuid { value: uuid }), query_type: query() })
}

fn reconfigure_by(uuid: Option<u128>, method: HttpMethod) -> Directive {
    Directive::Reconfigure(ReconfigureOrder {
        uuid: uuid.map(|value| DeviceUuid { value }),
        network: "fleet-net".to_string(),
        query_type: query(),
        reconfig: ReconfigureType::Http {
            endpoint: "/config".to_string(),
            port: 9000,
            method,
            payload: "{\"rate\":5}".to_string(),
        },
    })
}

fn reconfigure_of(uuid: u128) -> Directive {
    reconfigure_by(Some(uuid), HttpMethod::Put)
}

fn addition(image: &str, env: EnvVars) -> Directive {
    Directive::Addition(AdditionOrder::new(image, "fleet-net", env, vec!["topic:co2".to_string()]))
}

fn sensor_env() -> EnvVars {
    EnvVars::new()
        .with("ROLE".to_string(), "sensor".to_string())
        .with("device_uuid".to_string(), U1_TEXT.to_string())
}

fn id(text: &str) -> ContainerId {
    ContainerId::new(text)
}

fn looked_up(registry: &Registry, uuid: u128) -> Option<String> {
    registry.lookup(DeviceUuid { value: uuid }).map(|id| id.value)
}

fn probe(name: &str) -> RuntimeCall {
    RuntimeCall::Probe { url: format!("http://{}:{}{}", name, PORT, ENDPOINT) }
}

fn discovery_calls(calls: &[RuntimeCall]) -> usize {
    calls
        .iter()
        .filter(|c| matches!(c, RuntimeCall::List { .. } | RuntimeCall::Probe { .. }))
        .count()
}

#[test]
fn addition_creates_connects_and_starts() {
    let mut world = fleet(vec![]);
    let mut registry = Registry::new();
    let outcome = world.run(&addition("worker:latest", sensor_env()), &mut registry);
    assert_eq!(outcome, Outcome::Success);
    assert_eq!(
        world.calls,
        vec![
            RuntimeCall::Create(ContainerSpec {
                image: "worker:latest".to_string(),
                env: vec![
                    "ROLE=sensor".to_string(),
                    format!("device_uuid={}", U1_TEXT),
                ],
                command: vec!["topic:co2".to_string()],
            }),
            RuntimeCall::Connect(ConnectionSpec {
                container: id("fresh"),
                network: "fleet-net".to_string(),
            }),
            RuntimeCall::Start(id("fresh")),
        ]
    );
    assert_eq!(looked_up(&registry, U1), Some("fresh".to_string()));
    assert_eq!(world.members[0].networks, vec!["fleet-net".to_string()]);
    assert_eq!(world.members[0].status, Some("running"));
}

#[test]
fn addition_without_image_is_refused() {
    let mut world = fleet(vec![]);
    let mut registry = Registry::new();
    let outcome = world.run(&addition("", sensor_env()), &mut registry);
    assert_eq!(outcome, Outcome::ClientError { reason: ValidationError::MissingImage });
    assert!(world.calls.is_empty());
    assert_eq!(registry.len(), 0);
}

#[test]
fn addition_without_uuid_is_refused() {
    let mut world = fleet(vec![]);
    let mut registry = Registry::new();
    let env = EnvVars::new().with("ROLE".to_string(), "sensor".to_string());
    let outcome = world.run(&addition("worker:latest", env), &mut registry);
    assert_eq!(outcome, Outcome::ClientError { reason: ValidationError::MissingUuid });
    assert!(world.calls.is_empty());
    assert_eq!(registry.len(), 0);
}

#[test]
fn addition_with_malformed_uuid_is_refused() {
    let mut world = fleet(vec![]);
    let mut registry = Registry::new();
    let env = EnvVars::new().with("device_uuid".to_string(), "not-a-uuid".to_string());
    let outcome = world.run(&addition("worker:latest", env), &mut registry);
    assert_eq!(outcome, Outcome::ClientError { reason: ValidationError::MalformedUuid });
    assert!(world.calls.is_empty());
    assert_eq!(registry.len(), 0);
}

#[test]
fn addition_with_failed_create_records_nothing() {
    let mut world = fleet(vec![]);
    world.create_fault = Some(fault(Some(409), "name in use"));
    let mut registry = Registry::new();
    let outcome = world.run(&addition("worker:latest", sensor_env()), &mut registry);
    assert_eq!(
        outcome,
        Outcome::UpstreamFault { code: 409, message: "name in use".to_string() }
    );
    assert_eq!(world.calls.len(), 1);
    assert!(matches!(world.calls[0], RuntimeCall::Create(_)));
    assert_eq!(registry.len(), 0);
}

#[test]
fn addition_with_failed_connect_leaves_the_container() {
    let mut world = fleet(vec![]);
    world.connect_fault = Some(fault(Some(404), "network fleet-net not found"));
    let mut registry = Registry::new();
    let outcome = world.run(&addition("worker:latest", sensor_env()), &mut registry);
    assert_eq!(
        outcome,
        Outcome::UpstreamFault { code: 404, message: "network fleet-net not found".to_string() }
    );
    assert_eq!(world.calls.len(), 2);
    assert!(matches!(world.calls[0], RuntimeCall::Create(_)));
    assert!(matches!(world.calls[1], RuntimeCall::Connect(_)));
    assert_eq!(looked_up(&registry, U1), Some("fresh".to_string()));
    let inspected = world.answer(&RuntimeCall::Inspect(id("fresh")));
    assert_eq!(
        inspected,
        Reply::Inspected(Ok(ContainerInfo {
            name: Some("/fresh".to_string()),
            status: Some("created".to_string()),
        }))
    );
    assert!(world.members[0].networks.is_empty());
}

#[test]
fn addition_with_failed_start_reports_the_fault() {
    let mut world = fleet(vec![]);
    world.start_fault = Some(fault(None, "connection reset"));
    let mut registry = Registry::new();
    let outcome = world.run(&addition("worker:latest", sensor_env()), &mut registry);
    assert_eq!(outcome, Outcome::InternalError { message: "connection reset".to_string() });
    assert_eq!(world.calls.len(), 3);
    assert_eq!(world.members[0].networks, vec!["fleet-net".to_string()]);
    assert_eq!(world.members[0].status, Some("created"));
    assert_eq!(looked_up(&registry, U1), Some("fresh".to_string()));
}

#[test]
fn restart_discovers_the_running_container() {
    let mut world = fleet(vec![
        member("A", "/alpha", "exited", Some(U1)),
        member("B", "/beta", "running", Some(U2)),
    ]);
    let mut registry = Registry::new();
    let outcome = world.run(&restart_of(U2), &mut registry);
    assert_eq!(outcome, Outcome::Success);
    assert_eq!(
        world.calls,
        vec![
            RuntimeCall::List { all: true },
            RuntimeCall::Inspect(id("A")),
            probe("alpha"),
            RuntimeCall::Inspect(id("B")),
            probe("beta"),
            RuntimeCall::Inspect(id("B")),
            RuntimeCall::Restart(id("B")),
        ]
    );
    assert_eq!(looked_up(&registry, U2), Some("B".to_string()));
    assert_eq!(world.members[0].status, Some("exited"));
}

#[test]
fn restart_with_registry_hit_skips_discovery() {
    let mut world = fleet(vec![
        member("A", "/alpha", "running", Some(U1)),
        member("B", "/beta", "running", Some(U2)),
    ]);
    let mut registry = Registry::new();
    registry.record(DeviceUuid { value: U2 }, id("B"));
    let outcome = world.run(&restart_of(U2), &mut registry);
    assert_eq!(outcome, Outcome::Success);
    assert_eq!(
        world.calls,
        vec![RuntimeCall::Inspect(id("B")), RuntimeCall::Restart(id("B"))]
    );
    assert_eq!(discovery_calls(&world.calls), 0);
    assert_eq!(looked_up(&registry, U2), Some("B".to_string()));
    assert_eq!(registry.len(), 1);
}

#[test]
fn restart_starts_a_stopped_container() {
    let mut world = fleet(vec![member("A", "/alpha", "exited", Some(U1))]);
    let mut registry = Registry::new();
    registry.record(DeviceUuid { value: U1 }, id("A"));
    let outcome = world.run(&restart_of(U1), &mut registry);
    assert_eq!(outcome, Outcome::Success);
    assert_eq!(world.calls, vec![RuntimeCall::Inspect(id("A")), RuntimeCall::Start(id("A"))]);
    assert_eq!(world.members[0].status, Some("running"));
}

#[test]
fn restart_starts_a_discovered_stopped_container() {
    let mut world = fleet(vec![member("A", "/alpha", "paused", Some(U1))]);
    let mut registry = Registry::new();
    let outcome = world.run(&restart_of(U1), &mut registry);
    assert_eq!(outcome, Outcome::Success);
    assert_eq!(
        world.calls,
        vec![
            RuntimeCall::List { all: true },
            RuntimeCall::Inspect(id("A")),
            probe("alpha"),
            RuntimeCall::Inspect(id("A")),
            RuntimeCall::Start(id("A")),
        ]
    );
    assert_eq!(looked_up(&registry, U1), Some("A".to_string()));
}

#[test]
fn restart_starts_a_container_with_empty_status() {
    let mut world = fleet(vec![member("A", "/alpha", "", Some(U1))]);
    let mut registry = Registry::new();
    registry.record(DeviceUuid { value: U1 }, id("A"));
    let outcome = world.run(&restart_of(U1), &mut registry);
    assert_eq!(outcome, Outcome::Success);
    assert_eq!(world.calls, vec![RuntimeCall::Inspect(id("A")), RuntimeCall::Start(id("A"))]);
}

#[test]
fn restart_without_status_touches_nothing() {
    let mut world = fleet(vec![member("A", "/alpha", "running", Some(U1))]);
    world.members[0].status = None;
    let mut registry = Registry::new();
    registry.record(DeviceUuid { value: U1 }, id("A"));
    let outcome = world.run(&restart_of(U1), &mut registry);
    assert_eq!(outcome, Outcome::NoStatus);
    assert_eq!(world.calls, vec![RuntimeCall::Inspect(id("A"))]);
    assert_eq!(world.members[0].status, None);
}

#[test]
fn restart_reports_a_failed_restart() {
    let mut world = fleet(vec![member("A", "/alpha", "running", Some(U1))]);
    world.restart_fault = Some(fault(Some(500), "cannot restart"));
    let mut registry = Registry::new();
    registry.record(DeviceUuid { value: U1 }, id("A"));
    let outcome = world.run(&restart_of(U1), &mut registry);
    assert_eq!(
        outcome,
        Outcome::UpstreamFault { code: 500, message: "cannot restart".to_string() }
    );
    assert_eq!(world.calls, vec![RuntimeCall::Inspect(id("A")), RuntimeCall::Restart(id("A"))]);
}

#[test]
fn restart_of_unknown_device_is_not_found() {
    let mut world = fleet(vec![
        member("A", "/alpha", "running", Some(U1)),
        member("B", "/beta", "running", None),
    ]);
    let mut registry = Registry::new();
    registry.record(DeviceUuid { value: U1 }, id("A"));
    let outcome = world.run(&restart_of(U2), &mut registry);
    assert_eq!(outcome, Outcome::NotFound);
    assert_eq!(
        world.calls,
        vec![
            RuntimeCall::List { all: true },
            RuntimeCall::Inspect(id("A")),
            probe("alpha"),
            RuntimeCall::Inspect(id("B")),
            probe("beta"),
        ]
    );
    assert_eq!(looked_up(&registry, U2), None);
    assert_eq!(looked_up(&registry, U1), Some("A".to_string()));
    assert_eq!(registry.len(), 1);
}

#[test]
fn restart_in_empty_fleet_is_not_found() {
    let mut world = fleet(vec![]);
    let mut registry = Registry::new();
    let outcome = world.run(&restart_of(U2), &mut registry);
    assert_eq!(outcome, Outcome::NotFound);
    assert_eq!(world.calls, vec![RuntimeCall::List { all: true }]);
    assert_eq!(registry.len(), 0);
}

#[test]
fn restart_takes_the_first_of_two_reporters() {
    let mut world = fleet(vec![
        member("A", "/alpha", "running", None),
        member("B", "/beta", "running", Some(U2)),
        member("C", "/gamma", "running", Some(U2)),
    ]);
    let mut registry = Registry::new();
    let outcome = world.run(&restart_of(U2), &mut registry);
    assert_eq!(outcome, Outcome::Success);
    assert_eq!(looked_up(&registry, U2), Some("B".to_string()));
    assert_eq!(
        world.calls,
        vec![
            RuntimeCall::List { all: true },
            RuntimeCall::Inspect(id("A")),
            probe("alpha"),
            RuntimeCall::Inspect(id("B")),
            probe("beta"),
            RuntimeCall::Inspect(id("B")),
            RuntimeCall::Restart(id("B")),
        ]
    );
}

#[test]
fn restart_passes_over_nameless_and_vanished_candidates() {
    let mut world = fleet(vec![
        member("A", "/alpha", "running", Some(U2)),
        member("B", "/beta", "running", Some(U2)),
        member("C", "/gamma", "exited", Some(U2)),
    ]);
    world.members[0].name = None;
    world.members[1].gone = true;
    let mut registry = Registry::new();
    let outcome = world.run(&restart_of(U2), &mut registry);
    assert_eq!(outcome, Outcome::Success);
    assert_eq!(
        world.calls,
        vec![
            RuntimeCall::List { all: true },
            RuntimeCall::Inspect(id("A")),
            RuntimeCall::Inspect(id("B")),
            RuntimeCall::Inspect(id("C")),
            probe("gamma"),
            RuntimeCall::Inspect(id("C")),
            RuntimeCall::Start(id("C")),
        ]
    );
    assert_eq!(looked_up(&registry, U2), Some("C".to_string()));
}

#[test]
fn restart_with_stale_entry_reports_the_fault() {
    let mut world = fleet(vec![member("B", "/beta", "running", Some(U2))]);
    let mut registry = Registry::new();
    registry.record(DeviceUuid { value: U2 }, id("old"));
    let outcome = world.run(&restart_of(U2), &mut registry);
    assert_eq!(
        outcome,
        Outcome::UpstreamFault { code: 404, message: "no such container".to_string() }
    );
    assert_eq!(world.calls, vec![RuntimeCall::Inspect(id("old"))]);
    assert_eq!(looked_up(&registry, U2), Some("old".to_string()));
}

#[test]
fn restart_without_uuid_is_refused() {
    let mut world = fleet(vec![member("A", "/alpha", "running", Some(U1))]);
    let mut registry = Registry::new();
    let order = RestartOrder::new(QueryType::Http { endpoint: ENDPOINT.to_string(), port: PORT });
    let outcome = world.run(&Directive::Restart(order), &mut registry);
    assert_eq!(outcome, Outcome::ClientError { reason: ValidationError::MissingUuid });
    assert!(world.calls.is_empty());
}

#[test]
fn restart_without_descriptor_needs_the_registry() {
    let mut world = fleet(vec![member("A", "/alpha", "running", Some(U1))]);
    let mut registry = Registry::new();
    let order = || {
        Directive::Restart(RestartOrder { uuid: Some(DeviceUuid { value: U1 }), query_type: None })
    };
    assert_eq!(world.run(&order(), &mut registry), Outcome::NotFound);
    assert!(world.calls.is_empty());
    assert_eq!(registry.len(), 0);
    registry.record(DeviceUuid { value: U1 }, id("A"));
    assert_eq!(world.run(&order(), &mut registry), Outcome::Success);
    assert_eq!(world.calls, vec![RuntimeCall::Inspect(id("A")), RuntimeCall::Restart(id("A"))]);
}

#[test]
fn second_restart_hits_the_registry() {
    let mut world = fleet(vec![member("B", "/beta", "running", Some(U2))]);
    let mut registry = Registry::new();
    assert_eq!(world.run(&restart_of(U2), &mut registry), Outcome::Success);
    assert_eq!(discovery_calls(&world.calls), 2);
    world.calls.clear();
    assert_eq!(world.run(&restart_of(U2), &mut registry), Outcome::Success);
    assert_eq!(
        world.calls,
        vec![RuntimeCall::Inspect(id("B")), RuntimeCall::Restart(id("B"))]
    );
}

#[test]
fn reconfigure_pushes_and_forwards_the_status() {
    let mut world = fleet(vec![member("B", "beta", "running", Some(U2))]);
    world.push_status = Some(202);
    let mut registry = Registry::new();
    registry.record(DeviceUuid { value: U2 }, id("B"));
    let outcome = world.run(&reconfigure_of(U2), &mut registry);
    assert_eq!(outcome, Outcome::Forwarded { status: 202 });
    assert_eq!(
        world.calls,
        vec![
            RuntimeCall::Inspect(id("B")),
            RuntimeCall::Push(PushRequest {
                method: HttpMethod::Put,
                url: "http://beta:9000/config".to_string(),
                payload: "{\"rate\":5}".to_string(),
            }),
        ]
    );
    assert_eq!(world.members[0].status, Some("running"));
}

#[test]
fn reconfigure_forwards_an_error_status_as_it_came() {
    let mut world = fleet(vec![member("B", "beta", "running", Some(U2))]);
    world.push_status = Some(422);
    let mut registry = Registry::new();
    registry.record(DeviceUuid { value: U2 }, id("B"));
    assert_eq!(world.run(&reconfigure_of(U2), &mut registry), Outcome::Forwarded { status: 422 });
}

#[test]
fn reconfigure_reports_a_failed_push() {
    let mut world = fleet(vec![member("B", "beta", "running", Some(U2))]);
    world.push_status = None;
    let mut registry = Registry::new();
    registry.record(DeviceUuid { value: U2 }, id("B"));
    assert_eq!(world.run(&reconfigure_of(U2), &mut registry), Outcome::ForwardFault);
    assert_eq!(world.calls.len(), 2);
}

#[test]
fn reconfigure_by_another_method_makes_no_call() {
    for method in [
        HttpMethod::Get,
        HttpMethod::Head,
        HttpMethod::Post,
        HttpMethod::Delete,
        HttpMethod::Connect,
        HttpMethod::Options,
        HttpMethod::Trace,
        HttpMethod::Patch,
        HttpMethod::Extension,
    ] {
        let mut world = fleet(vec![member("B", "beta", "running", Some(U2))]);
        let mut registry = Registry::new();
        let outcome = world.run(&reconfigure_by(Some(U2), method), &mut registry);
        assert_eq!(outcome, Outcome::ClientError { reason: ValidationError::UnsupportedMethod });
        assert!(world.calls.is_empty());
        assert_eq!(registry.len(), 0);
        registry.record(DeviceUuid { value: U2 }, id("B"));
        let outcome = world.run(&reconfigure_by(Some(U2), method), &mut registry);
        assert_eq!(outcome, Outcome::ClientError { reason: ValidationError::UnsupportedMethod });
        assert!(world.calls.is_empty());
    }
}

#[test]
fn reconfigure_without_uuid_is_refused() {
    let mut world = fleet(vec![member("B", "beta", "running", Some(U2))]);
    let mut registry = Registry::new();
    let outcome = world.run(&reconfigure_by(None, HttpMethod::Put), &mut registry);
    assert_eq!(outcome, Outcome::ClientError { reason: ValidationError::MissingUuid });
    let outcome = world.run(&reconfigure_by(None, HttpMethod::Post), &mut registry);
    assert_eq!(outcome, Outcome::ClientError { reason: ValidationError::MissingUuid });
    assert!(world.calls.is_empty());
}

#[test]
fn reconfigure_twice_resolves_through_the_registry_each_time() {
    let mut world = fleet(vec![member("B", "beta", "running", Some(U2))]);
    let mut registry = Registry::new();
    registry.record(DeviceUuid { value: U2 }, id("B"));
    let first = world.run(&reconfigure_of(U2), &mut registry);
    let second = world.run(&reconfigure_of(U2), &mut registry);
    assert_eq!(first, Outcome::Forwarded { status: 200 });
    assert_eq!(second, first);
    assert_eq!(world.calls.len(), 4);
    assert_eq!(world.calls[0], RuntimeCall::Inspect(id("B")));
    assert!(matches!(world.calls[1], RuntimeCall::Push(_)));
    assert_eq!(world.calls[2], world.calls[0]);
    assert_eq!(world.calls[3], world.calls[1]);
    assert_eq!(discovery_calls(&world.calls), 0);
    assert_eq!(looked_up(&registry, U2), Some("B".to_string()));
}

#[test]
fn reconfigure_discovers_then_pushes() {
    let mut world = fleet(vec![
        member("A", "alpha", "running", Some(U1)),
        member("B", "beta", "running", Some(U2)),
    ]);
    let mut registry = Registry::new();
    let outcome = world.run(&reconfigure_of(U2), &mut registry);
    assert_eq!(outcome, Outcome::Forwarded { status: 200 });
    assert_eq!(world.calls.len(), 7);
    assert_eq!(world.calls[0], RuntimeCall::List { all: true });
    assert_eq!(world.calls[4], probe("beta"));
    assert_eq!(world.calls[5], RuntimeCall::Inspect(id("B")));
    assert!(matches!(world.calls[6], RuntimeCall::Push(_)));
    assert_eq!(looked_up(&registry, U2), Some("B".to_string()));
}

#[test]
fn reconfigure_of_nameless_container_has_no_address() {
    let mut world = fleet(vec![member("B", "beta", "running", Some(U2))]);
    world.members[0].name = None;
    let mut registry = Registry::new();
    registry.record(DeviceUuid { value: U2 }, id("B"));
    assert_eq!(world.run(&reconfigure_of(U2), &mut registry), Outcome::NoAddress);
    assert_eq!(world.calls, vec![RuntimeCall::Inspect(id("B"))]);
}

#[test]
fn reconfigure_of_unknown_device_is_not_found() {
    let mut world = fleet(vec![member("A", "alpha", "running", Some(U1))]);
    let mut registry = Registry::new();
    assert_eq!(world.run(&reconfigure_of(U2), &mut registry), Outcome::NotFound);
    assert_eq!(registry.len(), 0);
    assert!(!world.calls.iter().any(|c| matches!(c, RuntimeCall::Push(_))));
}

#[test]
fn a_reply_of_another_kind_is_a_protocol_error() {
    let mut registry = Registry::new();
    registry.record(DeviceUuid { value: U1 }, id("A"));
    let directive = restart_of(U1);
    let (phase, step) = execute_directive(&directive, Phase::Init, None, &mut registry);
    assert_eq!(step, Step::Call(RuntimeCall::Inspect(id("A"))));
    let (phase, step) =
        execute_directive(&directive, phase, Some(Reply::Started(Ok(()))), &mut registry);
    assert_eq!(phase, Phase::Finished);
    assert_eq!(step, Step::Done(Outcome::ProtocolError));
    let (phase, step) = execute_directive(&directive, phase, None, &mut registry);
    assert_eq!(phase, Phase::Finished);
    assert_eq!(step, Step::Done(Outcome::ProtocolError));
}

#[test]
fn a_missing_reply_is_a_protocol_error() {
    let mut registry = Registry::new();
    let directive = addition("worker:latest", sensor_env());
    let (phase, _) = execute_directive(&directive, Phase::Init, None, &mut registry);
    assert_eq!(phase, Phase::Creating { uuid: DeviceUuid { value: U1 } });
    let (_, step) = execute_directive(&directive, phase, None, &mut registry);
    assert_eq!(step, Step::Done(Outcome::ProtocolError));
    assert_eq!(registry.len(), 0);
}

#[test]
fn concurrent_restarts_of_a_cold_device_agree() {
    let mut world = fleet(vec![member("B", "/beta", "running", Some(U2))]);
    let mut registry = Registry::new();
    let directive = restart_of(U2);
    let (mut one, step_one) = execute_directive(&directive, Phase::Init, None, &mut registry);
    let (mut two, step_two) = execute_directive(&directive, Phase::Init, None, &mut registry);
    let mut call_one = Some(step_one);
    let mut call_two = Some(step_two);
    let mut outcomes = Vec::new();
    while call_one.is_some() || call_two.is_some() {
        if let Some(step) = call_one.take() {
            match step {
                Step::Done(outcome) => outcomes.push(outcome),
                Step::Call(call) => {
                    let reply = world.perform(call);
                    let (phase, step) = execute_directive(&directive, one, Some(reply), &mut registry);
                    one = phase;
                    call_one = Some(step);
                },
            }
        }
        if let Some(step) = call_two.take() {
            match step {
                Step::Done(outcome) => outcomes.push(outcome),
                Step::Call(call) => {
                    let reply = world.perform(call);
                    let (phase, step) = execute_directive(&directive, two, Some(reply), &mut registry);
                    two = phase;
                    call_two = Some(step);
                },
            }
        }
    }
    assert_eq!(outcomes, vec![Outcome::Success, Outcome::Success]);
    assert_eq!(looked_up(&registry, U2), Some("B".to_string()));
    assert_eq!(registry.len(), 1);
    assert_eq!(discovery_calls(&world.calls), 4);
}

#[test]
fn a_phase_of_another_directive_is_a_protocol_error() {
    let mut registry = Registry::new();
    let restart = restart_of(U1);
    let stray = Phase::Creating { uuid: DeviceUuid { value: U1 } };
    let reply = Some(Reply::Created(Ok(id("fresh"))));
    let (phase, step) = execute_directive(&restart, stray, reply, &mut registry);
    assert_eq!(phase, Phase::Finished);
    assert_eq!(step, Step::Done(Outcome::ProtocolError));
    assert_eq!(registry.len(), 0);

    let adding = addition("worker:latest", sensor_env());
    let stray = Phase::Restarting { id: id("A") };
    let reply = Some(Reply::Restarted(Ok(())));
    let (_, step) = execute_directive(&adding, stray, reply, &mut registry);
    assert_eq!(step, Step::Done(Outcome::ProtocolError));

    let pushing = reconfigure_of(U1);
    let stray = Phase::Starting { id: id("A") };
    let reply = Some(Reply::Started(Ok(())));
    let (_, step) = execute_directive(&pushing, stray, reply, &mut registry);
    assert_eq!(step, Step::Done(Outcome::ProtocolError));
}

#[test]
fn the_first_step_does_not_look_at_a_reply() {
    let mut registry = Registry::new();
    registry.record(DeviceUuid { value: U1 }, id("A"));
    let (phase, step) = execute_directive(
        &restart_of(U1),
        Phase::Init,
        Some(Reply::Pushed(Some(200))),
        &mut registry,
    );
    assert_eq!(phase, Phase::Inspecting { id: id("A") });
    assert_eq!(step, Step::Call(RuntimeCall::Inspect(id("A"))));
}
