//! The directives that an operator issues, and their validation.
//!
//! A directive names its device by UUID. An addition carries the UUID as the
//! text of the environment variable `device_uuid` of the container to create;
//! a restart and a reconfiguration carry it as a field. A directive is
//! validated before anything else happens with it.

use vstd::prelude::*;
use crate::endpoint::{http_url, http_url_text};
use crate::environment::{assignments, texts, value_of, EnvVars};
use crate::identity::{uuid_of_text, ContainerId, DeviceUuid};
use crate::runtime::{
    bits_of, ConnectionSpec, ConnectionSpecView, ContainerSpec, ContainerSpecView, HttpMethod,
    PushRequest, PushRequestView,
};

verus! {

/// Why a directive was refused before anything was done with it.
#[derive(Clone, Copy, Debug, PartialEq, Eq, Structural)]
pub enum ValidationError {
    /// An addition names no image.
    MissingImage,
    /// The directive names no device.
    MissingUuid,
    /// The text that should name the device is no UUID.
    MalformedUuid,
    /// A reconfiguration asks for another method than PUT.
    UnsupportedMethod,
}

/// How a container is asked which device it runs.
#[derive(Debug, PartialEq, Eq)]
pub enum QueryType {
    Http { endpoint: String, port: u16 },
}

/// A query descriptor as mathematical values.
pub enum QueryTypeView {
    Http { endpoint: Seq<char>, port: u16 },
}

impl View for QueryType {
    type V = QueryTypeView;

    open spec fn view(&self) -> QueryTypeView {
        match *self {
            QueryType::Http { endpoint, port } => QueryTypeView::Http { endpoint: endpoint@, port },
        }
    }
}

/// The view of a query descriptor that may be absent.
pub open spec fn query_of(query: Option<QueryType>) -> Option<QueryTypeView> {
    match query {
        Some(query) => Some(query@),
        None => None,
    }
}

/// How a reconfiguration is pushed to a device.
#[derive(Debug, PartialEq, Eq)]
pub enum ReconfigureType {
    Http { endpoint: String, port: u16, method: HttpMethod, payload: String },
}

/// A push descriptor as mathematical values.
pub enum ReconfigureTypeView {
    Http { endpoint: Seq<char>, port: u16, method: HttpMethod, payload: Seq<char> },
}

impl View for ReconfigureType {
    type V = ReconfigureTypeView;

    open spec fn view(&self) -> ReconfigureTypeView {
        match *self {
            ReconfigureType::Http { endpoint, port, method, payload } => ReconfigureTypeView::Http {
                endpoint: endpoint@,
                port,
                method,
                payload: payload@,
            },
        }
    }
}

/// Create a container for a device, connect it to a network and start it.
#[derive(Debug, PartialEq, Eq)]
pub struct AdditionOrder {
    pub image: String,
    pub network_name: String,
    pub env_vars: EnvVars,
    pub args: Vec<String>,
}

/// An addition as mathematical values.
pub struct AdditionOrderView {
    pub image: Seq<char>,
    pub network_name: Seq<char>,
    pub env_vars: Seq<(Seq<char>, Seq<char>)>,
    pub args: Seq<Seq<char>>,
}

impl View for AdditionOrder {
    type V = AdditionOrderView;

    open spec fn view(&self) -> AdditionOrderView {
        AdditionOrderView {
            image: self.image@,
            network_name: self.network_name@,
            env_vars: self.env_vars@,
            args: texts(self.args@),
        }
    }
}

/// Restart the container of a device, or start it where it is stopped.
#[derive(Debug, PartialEq, Eq)]
pub struct RestartOrder {
    pub uuid: Option<DeviceUuid>,
    /// How to find the container where the registry does not know it. Without
    /// it no container can be found that way.
    pub query_type: Option<QueryType>,
}

/// A restart as mathematical values.
pub struct RestartOrderView {
    pub uuid: Option<u128>,
    pub query_type: Option<QueryTypeView>,
}

impl View for RestartOrder {
    type V = RestartOrderView;

    open spec fn view(&self) -> RestartOrderView {
        RestartOrderView { uuid: bits_of(self.uuid), query_type: query_of(self.query_type) }
    }
}

/// Push a new configuration to the device of a running container.
#[derive(Debug, PartialEq, Eq)]
pub struct ReconfigureOrder {
    pub uuid: Option<DeviceUuid>,
    pub network: String,
    /// How to find the container where the registry does not know it. Without
    /// it no container can be found that way.
    pub query_type: Option<QueryType>,
    pub reconfig: ReconfigureType,
}

/// A reconfiguration as mathematical values.
pub struct ReconfigureOrderView {
    pub uuid: Option<u128>,
    pub network: Seq<char>,
    pub query_type: Option<QueryTypeView>,
    pub reconfig: ReconfigureTypeView,
}

impl View for ReconfigureOrder {
    type V = ReconfigureOrderView;

    open spec fn view(&self) -> ReconfigureOrderView {
        ReconfigureOrderView {
            uuid: bits_of(self.uuid),
            network: self.network@,
            query_type: query_of(self.query_type),
            reconfig: self.reconfig@,
        }
    }
}

/// A request of an operator.
#[derive(Debug, PartialEq, Eq)]
pub enum Directive {
    Addition(AdditionOrder),
    Restart(RestartOrder),
    Reconfigure(ReconfigureOrder),
}

/// A directive as mathematical values.
pub enum DirectiveView {
    Addition(AdditionOrderView),
    Restart(RestartOrderView),
    Reconfigure(ReconfigureOrderView),
}

impl View for Directive {
    type V = DirectiveView;

    open spec fn view(&self) -> DirectiveView {
        match *self {
            Directive::Addition(order) => DirectiveView::Addition(order@),
            Directive::Restart(order) => DirectiveView::Restart(order@),
            Directive::Reconfigure(order) => DirectiveView::Reconfigure(order@),
        }
    }
}

/// The name of the environment variable that holds the device UUID of an
/// addition: `device_uuid`.
pub open spec fn uuid_variable() -> Seq<char> {
    seq!['d', 'e', 'v', 'i', 'c', 'e', '_', 'u', 'u', 'i', 'd']
}

/// The device that a looked-up and parsed UUID variable names: the outer
/// option says whether the variable is set, the inner one whether its text
/// is a UUID.
pub open spec fn named_device(variable: Option<Option<u128>>) -> Result<u128, ValidationError> {
    match variable {
        None => Err(ValidationError::MissingUuid),
        Some(None) => Err(ValidationError::MalformedUuid),
        Some(Some(bits)) => Ok(bits),
    }
}

/// The device that the environment of an addition names.
pub open spec fn declared_uuid(env_vars: Seq<(Seq<char>, Seq<char>)>) -> Result<
    u128,
    ValidationError,
> {
    named_device(
        match value_of(env_vars, uuid_variable()) {
            Some(text) => Some(uuid_of_text(text)),
            None => None,
        },
    )
}

/// An addition needs an image and a device.
pub open spec fn validate_addition(order: AdditionOrderView) -> Result<u128, ValidationError> {
    if order.image.len() == 0 {
        Err(ValidationError::MissingImage)
    } else {
        declared_uuid(order.env_vars)
    }
}

/// A restart needs a device.
pub open spec fn validate_restart(order: RestartOrderView) -> Result<u128, ValidationError> {
    match order.uuid {
        Some(bits) => Ok(bits),
        None => Err(ValidationError::MissingUuid),
    }
}

/// The method by which a reconfiguration is to be pushed.
pub open spec fn push_method(reconfig: ReconfigureTypeView) -> HttpMethod {
    match reconfig {
        ReconfigureTypeView::Http { method, .. } => method,
    }
}

/// A reconfiguration needs a device, and is pushed by PUT only.
pub open spec fn validate_reconfigure(order: ReconfigureOrderView) -> Result<
    u128,
    ValidationError,
> {
    match order.uuid {
        None => Err(ValidationError::MissingUuid),
        Some(bits) => if push_method(order.reconfig) == HttpMethod::Put {
            Ok(bits)
        } else {
            Err(ValidationError::UnsupportedMethod)
        },
    }
}

/// The container that an addition asks for.
pub open spec fn container_of(order: AdditionOrderView) -> ContainerSpecView {
    ContainerSpecView {
        image: order.image,
        env: assignments(order.env_vars),
        command: order.args,
    }
}

/// The request that pushes a reconfiguration to the device at `domain`.
pub open spec fn push_request(reconfig: ReconfigureTypeView, domain: Seq<char>) -> Result<
    PushRequestView,
    ValidationError,
> {
    match reconfig {
        ReconfigureTypeView::Http { endpoint, port, method, payload } => if method
            == HttpMethod::Put {
            Ok(PushRequestView { method, url: http_url(domain, port, endpoint), payload })
        } else {
            Err(ValidationError::UnsupportedMethod)
        },
    }
}

/// The view of a validation result.
pub open spec fn validated(result: Result<DeviceUuid, ValidationError>) -> Result<
    u128,
    ValidationError,
> {
    match result {
        Ok(uuid) => Ok(uuid.value),
        Err(error) => Err(error),
    }
}

/// The view of a request that may have been refused.
pub open spec fn requested(result: Result<PushRequest, ValidationError>) -> Result<
    PushRequestView,
    ValidationError,
> {
    match result {
        Ok(request) => Ok(request@),
        Err(error) => Err(error),
    }
}

/// Copies a list of texts.
pub fn clone_texts(list: &Vec<String>) -> (copy: Vec<String>)
    ensures
        texts(copy@) == texts(list@),
{
    let mut copy: Vec<String> = Vec::new();
    let mut index: usize = 0;
    while index < list.len()
        invariant
            index <= list@.len(),
            copy@.len() == index,
            forall|j: int| 0 <= j < index ==> (#[trigger] copy@[j])@ == list@[j]@,
        decreases list@.len() - index,
    {
        copy.push(list[index].clone());
        index = index + 1;
    }
    assert(texts(copy@) =~= texts(list@));
    copy
}

/// Tells the device that a looked-up and parsed UUID variable names, or why
/// it names none.
pub fn device_named_by(variable: Option<Option<DeviceUuid>>) -> (result: Result<
    DeviceUuid,
    ValidationError,
>)
    ensures
        validated(result) == named_device(
            match variable {
                Some(parsed) => Some(bits_of(parsed)),
                None => None,
            },
        ),
{
    match variable {
        None => Err(ValidationError::MissingUuid),
        Some(None) => Err(ValidationError::MalformedUuid),
        Some(Some(uuid)) => Ok(uuid),
    }
}

impl AdditionOrder {
    /// An addition of a container from `image` to the network `network_name`.
    pub fn new(image: &str, network_name: &str, env_vars: EnvVars, args: Vec<String>) -> (order:
        AdditionOrder)
        ensures
            order@ == (AdditionOrderView {
                image: image@,
                network_name: network_name@,
                env_vars: env_vars@,
                args: texts(args@),
            }),
    {
        AdditionOrder {
            image: String::from_str(image),
            network_name: String::from_str(network_name),
            env_vars,
            args,
        }
    }

    /// The device that the order's environment names in `device_uuid`.
    pub fn get_uuid(&self) -> (result: Result<DeviceUuid, ValidationError>)
        ensures
            validated(result) == declared_uuid(self@.env_vars),
    {
        proof {
            reveal_strlit("device_uuid");
            assert("device_uuid"@ =~= uuid_variable());
        }
        let variable = match self.env_vars.get("device_uuid") {
            Some(text) => Some(DeviceUuid::parse(text.as_str())),
            None => None,
        };
        device_named_by(variable)
    }

    /// Checks the order, and tells which device it is for.
    pub fn validate(&self) -> (result: Result<DeviceUuid, ValidationError>)
        ensures
            validated(result) == validate_addition(self@),
    {
        if self.image.as_str().unicode_len() == 0 {
            Err(ValidationError::MissingImage)
        } else {
            self.get_uuid()
        }
    }
}

impl RestartOrder {
    /// A restart that names no device yet.
    pub fn new(query_type: QueryType) -> (order: RestartOrder)
        ensures
            order@ == (RestartOrderView { uuid: None, query_type: Some(query_type@) }),
    {
        RestartOrder { uuid: None, query_type: Some(query_type) }
    }

    /// Checks the order, and tells which device it is for.
    pub fn validate(&self) -> (result: Result<DeviceUuid, ValidationError>)
        ensures
            validated(result) == validate_restart(self@),
    {
        match self.uuid {
            Some(uuid) => Ok(uuid),
            None => Err(ValidationError::MissingUuid),
        }
    }
}

impl ReconfigureType {
    /// The method by which the reconfiguration is to be pushed.
    pub fn method(&self) -> (method: HttpMethod)
        ensures
            method == push_method(self@),
    {
        match self {
            ReconfigureType::Http { method, .. } => *method,
        }
    }
}

impl ReconfigureOrder {
    /// A reconfiguration that names no device yet.
    pub fn new(network: &str, reconfig: ReconfigureType, query_type: QueryType) -> (order:
        ReconfigureOrder)
        ensures
            order@ == (ReconfigureOrderView {
                uuid: None,
                network: network@,
                query_type: Some(query_type@),
                reconfig: reconfig@,
            }),
    {
        ReconfigureOrder {
            uuid: None,
            network: String::from_str(network),
            query_type: Some(query_type),
            reconfig,
        }
    }

    /// Checks the order, and tells which device it is for.
    pub fn validate(&self) -> (result: Result<DeviceUuid, ValidationError>)
        ensures
            validated(result) == validate_reconfigure(self@),
    {
        match self.uuid {
            None => Err(ValidationError::MissingUuid),
            Some(uuid) => match self.reconfig.method() {
                HttpMethod::Put => Ok(uuid),
                _ => Err(ValidationError::UnsupportedMethod),
            },
        }
    }
}

/// Something that says which container is to be created.
pub trait ContainerBuilder {
    spec fn container(&self) -> ContainerSpecView;

    fn build_container(&self) -> (spec: ContainerSpec)
        ensures
            spec@ == self.container(),
    ;
}

impl ContainerBuilder for AdditionOrder {
    open spec fn container(&self) -> ContainerSpecView {
        container_of(self@)
    }

    fn build_container(&self) -> (spec: ContainerSpec) {
        ContainerSpec {
            image: self.image.clone(),
            env: self.env_vars.to_assignments(),
            command: clone_texts(&self.args),
        }
    }
}

/// Something that says which network a container is to join.
pub trait ConnectionBuilder {
    spec fn network(&self) -> Seq<char>;

    fn build_connection(&self, container_id: &ContainerId) -> (connection: ConnectionSpec)
        ensures
            connection@ == (ConnectionSpecView {
                container: container_id@,
                network: self.network(),
            }),
    ;
}

impl ConnectionBuilder for AdditionOrder {
    open spec fn network(&self) -> Seq<char> {
        self.network_name@
    }

    fn build_connection(&self, container_id: &ContainerId) -> (connection: ConnectionSpec) {
        ConnectionSpec { container: container_id.clone(), network: self.network_name.clone() }
    }
}

/// Something that says what is sent to a device that answers at a domain.
pub trait BuildRequest {
    spec fn request(&self, domain: Seq<char>) -> Result<PushRequestView, ValidationError>;

    fn build_request(&self, domain: &str) -> (result: Result<PushRequest, ValidationError>)
        ensures
            requested(result) == self.request(domain@),
    ;
}

impl BuildRequest for ReconfigureOrder {
    open spec fn request(&self, domain: Seq<char>) -> Result<PushRequestView, ValidationError> {
        push_request(self@.reconfig, domain)
    }

    fn build_request(&self, domain: &str) -> (result: Result<PushRequest, ValidationError>) {
        match &self.reconfig {
            ReconfigureType::Http { endpoint, port, method, payload } => match method {
                HttpMethod::Put => Ok(
                    PushRequest {
                        method: HttpMethod::Put,
                        url: http_url_text(domain, *port, endpoint.as_str()),
                        payload: payload.clone(),
                    },
                ),
                _ => Err(ValidationError::UnsupportedMethod),
            },
        }
    }
}

} // verus!
