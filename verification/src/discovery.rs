//! Discovery: finding the container of a device by asking every container.
//!
//! Where the registry does not know a device, the containers of the runtime
//! are listed and asked one after the other, in the runtime's order, which
//! device they run. Each candidate is inspected for its name and then probed
//! at the address built from that name. The first candidate that reports
//! the wanted UUID is the container; no candidate after it is asked. A
//! candidate that cannot be inspected, has no name, does not answer or
//! reports another device is passed over. The search costs two calls per
//! candidate: it is linear in the size of the fleet.

use vstd::prelude::*;
use crate::directive::{
    query_of, QueryType, QueryTypeView, ReconfigureOrder, RestartOrder,
};
use crate::endpoint::{probe_address, probe_url};
use crate::identity::{ContainerId, DeviceUuid};
use crate::runtime::{
    identities, reply_of, Reply, ReplyView, RuntimeCall, RuntimeCallView,
};

verus! {

/// How far a search has come.
#[derive(Debug, PartialEq, Eq)]
pub enum Search {
    /// Nothing was asked yet.
    Idle,
    /// The list of containers was asked for.
    Listing,
    /// The candidate at `index` is being inspected.
    Inspecting { candidates: Vec<ContainerId>, index: usize },
    /// The candidate at `index` is being probed.
    Probing { candidates: Vec<ContainerId>, index: usize },
    /// The search is over.
    Finished,
}

/// The state of a search as mathematical values.
pub enum SearchView {
    Idle,
    Listing,
    Inspecting { candidates: Seq<Seq<char>>, index: nat },
    Probing { candidates: Seq<Seq<char>>, index: nat },
    Finished,
}

impl View for Search {
    type V = SearchView;

    open spec fn view(&self) -> SearchView {
        match *self {
            Search::Idle => SearchView::Idle,
            Search::Listing => SearchView::Listing,
            Search::Inspecting { candidates, index } => SearchView::Inspecting {
                candidates: identities(candidates@),
                index: index as nat,
            },
            Search::Probing { candidates, index } => SearchView::Probing {
                candidates: identities(candidates@),
                index: index as nat,
            },
            Search::Finished => SearchView::Finished,
        }
    }
}

/// What a search does next.
#[derive(Debug, PartialEq, Eq)]
pub enum SearchStep {
    /// This call is to be made, and its reply handed back.
    Ask(RuntimeCall),
    /// This container runs the device.
    Found(ContainerId),
    /// No container runs the device.
    Missing,
    /// The reply does not answer the call that was handed out.
    Stray,
}

/// The next step of a search as mathematical values.
pub enum SearchStepView {
    Ask(RuntimeCallView),
    Found(Seq<char>),
    Missing,
    Stray,
}

impl View for SearchStep {
    type V = SearchStepView;

    open spec fn view(&self) -> SearchStepView {
        match *self {
            SearchStep::Ask(call) => SearchStepView::Ask(call@),
            SearchStep::Found(id) => SearchStepView::Found(id@),
            SearchStep::Missing => SearchStepView::Missing,
            SearchStep::Stray => SearchStepView::Stray,
        }
    }
}

/// The search turns to the candidate at `index`: it is inspected, or, where
/// the list is exhausted, the device is missing.
pub open spec fn turn_to(candidates: Seq<Seq<char>>, index: nat) -> (SearchView, SearchStepView) {
    if index < candidates.len() {
        (
            SearchView::Inspecting { candidates, index },
            SearchStepView::Ask(RuntimeCallView::Inspect(candidates[index as int])),
        )
    } else {
        (SearchView::Finished, SearchStepView::Missing)
    }
}

/// The probe that asks the container called `name` which device it runs.
pub open spec fn probe_call(query: QueryTypeView, name: Seq<char>) -> RuntimeCallView {
    match query {
        QueryTypeView::Http { endpoint, port } => RuntimeCallView::Probe {
            url: probe_address(name, port, endpoint),
        },
    }
}

/// One step of the search for the container of the device `target`.
pub open spec fn search_step(
    target: u128,
    query: Option<QueryTypeView>,
    search: SearchView,
    reply: Option<ReplyView>,
) -> (SearchView, SearchStepView) {
    match search {
        SearchView::Idle => match query {
            Some(_) => (
                SearchView::Listing,
                SearchStepView::Ask(RuntimeCallView::List { all: true }),
            ),
            None => (SearchView::Finished, SearchStepView::Missing),
        },
        SearchView::Listing => match reply {
            Some(ReplyView::Listed(candidates)) => turn_to(candidates, 0),
            _ => (SearchView::Finished, SearchStepView::Stray),
        },
        SearchView::Inspecting { candidates, index } => if index < candidates.len() {
            match reply {
                Some(ReplyView::Inspected(Ok(info))) => match (info.name, query) {
                    (Some(name), Some(query)) => (
                        SearchView::Probing { candidates, index },
                        SearchStepView::Ask(probe_call(query, name)),
                    ),
                    _ => turn_to(candidates, index + 1),
                },
                Some(ReplyView::Inspected(Err(_))) => turn_to(candidates, index + 1),
                _ => (SearchView::Finished, SearchStepView::Stray),
            }
        } else {
            (SearchView::Finished, SearchStepView::Stray)
        },
        SearchView::Probing { candidates, index } => if index < candidates.len() {
            match reply {
                Some(ReplyView::Probed(reported)) => if reported == Some(target) {
                    (SearchView::Finished, SearchStepView::Found(candidates[index as int]))
                } else {
                    turn_to(candidates, index + 1)
                },
                _ => (SearchView::Finished, SearchStepView::Stray),
            }
        } else {
            (SearchView::Finished, SearchStepView::Stray)
        },
        SearchView::Finished => (SearchView::Finished, SearchStepView::Stray),
    }
}

fn turn(candidates: Vec<ContainerId>, index: usize) -> (next: (Search, SearchStep))
    ensures
        (next.0@, next.1@) == turn_to(identities(candidates@), index as nat),
{
    if index < candidates.len() {
        let call = RuntimeCall::Inspect(candidates[index].clone());
        (Search::Inspecting { candidates, index }, SearchStep::Ask(call))
    } else {
        (Search::Finished, SearchStep::Missing)
    }
}

fn probe(query: &QueryType, name: &str) -> (call: RuntimeCall)
    ensures
        call@ == probe_call(query@, name@),
{
    match query {
        QueryType::Http { endpoint, port } => RuntimeCall::Probe {
            url: probe_url(name, *port, endpoint.as_str()),
        },
    }
}

/// Takes the search for the container of the device `target` one step
/// further. A search starts as [`Search::Idle`], with no reply; after each
/// [`SearchStep::Ask`] the caller makes the call and comes back with its
/// reply.
pub fn resolve(
    target: DeviceUuid,
    query: &Option<QueryType>,
    search: Search,
    reply: Option<Reply>,
) -> (next: (Search, SearchStep))
    ensures
        (next.0@, next.1@) == search_step(target.value, query_of(*query), search@, reply_of(reply)),
{
    match search {
        Search::Idle => match query {
            Some(_) => (Search::Listing, SearchStep::Ask(RuntimeCall::List { all: true })),
            None => (Search::Finished, SearchStep::Missing),
        },
        Search::Listing => match reply {
            Some(Reply::Listed(candidates)) => turn(candidates, 0),
            _ => (Search::Finished, SearchStep::Stray),
        },
        Search::Inspecting { candidates, index } => if index < candidates.len() {
            match reply {
                Some(Reply::Inspected(Ok(info))) => match (info.name, query) {
                    (Some(name), Some(query)) => {
                        let call = probe(query, name.as_str());
                        (Search::Probing { candidates, index }, SearchStep::Ask(call))
                    },
                    _ => turn(candidates, index + 1),
                },
                Some(Reply::Inspected(Err(_))) => turn(candidates, index + 1),
                _ => (Search::Finished, SearchStep::Stray),
            }
        } else {
            (Search::Finished, SearchStep::Stray)
        },
        Search::Probing { candidates, index } => if index < candidates.len() {
            match reply {
                Some(Reply::Probed(reported)) => {
                    let matches = match reported {
                        Some(uuid) => uuid.value == target.value,
                        None => false,
                    };
                    if matches {
                        (Search::Finished, SearchStep::Found(candidates[index].clone()))
                    } else {
                        turn(candidates, index + 1)
                    }
                },
                _ => (Search::Finished, SearchStep::Stray),
            }
        } else {
            (Search::Finished, SearchStep::Stray)
        },
        Search::Finished => (Search::Finished, SearchStep::Stray),
    }
}

/// An order that can look for the container of its device.
pub trait FindContainer {
    /// The device that the order names.
    spec fn wanted(&self) -> Option<u128>;

    /// How the order asks a container which device it runs.
    spec fn descriptor(&self) -> Option<QueryTypeView>;

    /// Takes the search one step further, as [`resolve`] does. An order
    /// that names no device finds none.
    fn find_container(&self, search: Search, reply: Option<Reply>) -> (next: (Search, SearchStep))
        ensures
            (next.0@, next.1@) == (match self.wanted() {
                Some(target) => search_step(target, self.descriptor(), search@, reply_of(reply)),
                None => (SearchView::Finished, SearchStepView::Missing),
            }),
    ;
}

impl FindContainer for RestartOrder {
    open spec fn wanted(&self) -> Option<u128> {
        self@.uuid
    }

    open spec fn descriptor(&self) -> Option<QueryTypeView> {
        self@.query_type
    }

    fn find_container(&self, search: Search, reply: Option<Reply>) -> (next: (Search, SearchStep)) {
        match self.uuid {
            Some(target) => resolve(target, &self.query_type, search, reply),
            None => (Search::Finished, SearchStep::Missing),
        }
    }
}

impl FindContainer for ReconfigureOrder {
    open spec fn wanted(&self) -> Option<u128> {
        self@.uuid
    }

    open spec fn descriptor(&self) -> Option<QueryTypeView> {
        self@.query_type
    }

    fn find_container(&self, search: Search, reply: Option<Reply>) -> (next: (Search, SearchStep)) {
        match self.uuid {
            Some(target) => resolve(target, &self.query_type, search, reply),
            None => (Search::Finished, SearchStep::Missing),
        }
    }
}

} // verus!
