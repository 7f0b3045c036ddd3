//! The discovery service: one backend, chosen once, and the steps of a
//! cycle on it.
//!
//! The service performs no outside work itself. A driver hands it what
//! happened (`Event`) and is told what to do next (`Step`), until a step
//! ends the cycle with the discovered set or with an error.

use crate::discovered::DiscoveredSet;
use crate::error::{failure_error, DiscoveryError, FetchFailure};
use crate::identity::IdentityKey;
use crate::keys::{
    cutoff, cutoff_representable, listing_request, offset_key, store_path_text, submissions_key,
    ListingRequest,
};
use crate::online::{fetch_online, resolved_all};
use crate::resolver::{template_texts, SubmissionRecord};
use crate::scanner::{candidates, discover_aws, key_texts, listed, scanned, FetchOutcome, ListingEntry};
use vstd::prelude::*;

verus! {

/// Where a service looks for nodes.
#[derive(Debug, Clone)]
pub enum Backend {
    /// The registration endpoint at `url`.
    Online { url: String },
    /// The submissions that nodes wrote to `bucket` under `prefix`.
    ObjectStore { bucket: String, prefix: String },
}

/// A backend as plain text.
pub enum BackendView {
    Online { url: Seq<char> },
    ObjectStore { bucket: Seq<char>, prefix: Seq<char> },
}

impl View for Backend {
    type V = BackendView;

    open spec fn view(&self) -> BackendView {
        match *self {
            Backend::Online { url } => BackendView::Online { url: url@ },
            Backend::ObjectStore { bucket, prefix } => BackendView::ObjectStore {
                bucket: bucket@,
                prefix: prefix@,
            },
        }
    }
}

/// What happened in a cycle, as the driver reports it.
#[derive(Debug)]
pub enum Event {
    /// The cycle starts, `now` seconds after the Unix epoch.
    Started { now: i64 },
    /// The request to the registration endpoint ended.
    Responded { response: Result<Vec<SubmissionRecord>, FetchFailure> },
    /// The object store listed its entries, in this order.
    Listed { entries: Vec<ListingEntry> },
    /// Every fetch of an object ended.
    Fetched { outcomes: Vec<FetchOutcome> },
}

/// What the driver does next.
#[derive(Debug)]
pub enum Step {
    /// Send one GET to `url` and report `Event::Responded`.
    Get { url: String },
    /// List the store as `request` says and report `Event::Listed`.
    List { request: ListingRequest },
    /// Fetch the body of every key, all at once, read each as a
    /// submission record and report `Event::Fetched`.
    Fetch { keys: Vec<String> },
    /// The cycle is over: these are the nodes.
    Done { nodes: DiscoveredSet },
    /// The cycle is over without a result.
    Failed { error: DiscoveryError },
}

/// A step as plain values.
pub enum StepView {
    Get { url: Seq<char> },
    List { prefix: Seq<char>, offset: Seq<char> },
    Fetch { keys: Seq<Seq<char>> },
    Done { nodes: Set<IdentityKey> },
    Failed { error: DiscoveryError },
}

impl View for Step {
    type V = StepView;

    open spec fn view(&self) -> StepView {
        match *self {
            Step::Get { url } => StepView::Get { url: url@ },
            Step::List { request } => StepView::List {
                prefix: request.prefix@,
                offset: request.offset@,
            },
            Step::Fetch { keys } => StepView::Fetch { keys: key_texts(keys@) },
            Step::Done { nodes } => StepView::Done { nodes: nodes@ },
            Step::Failed { error } => StepView::Failed { error },
        }
    }
}

/// The texts of an optional list of templates.
pub open spec fn templates_of(url_overrides: Option<Vec<String>>) -> Option<Seq<Seq<char>>> {
    match url_overrides {
        Some(list) => Some(template_texts(list@)),
        None => None,
    }
}

/// The step that follows `event` on the online backend at `url`.
pub open spec fn online_step(url: Seq<char>, overrides: Option<Seq<Seq<char>>>, event: Event)
    -> StepView {
    match event {
        Event::Started { now } => StepView::Get { url },
        Event::Responded { response: Ok(records) } => StepView::Done {
            nodes: resolved_all(records@, overrides),
        },
        Event::Responded { response: Err(failure) } => StepView::Failed {
            error: failure_error(failure),
        },
        _ => StepView::Failed { error: DiscoveryError::UnexpectedEvent },
    }
}

/// The step that follows `event` on the object store under `prefix`.
pub open spec fn store_step(prefix: Seq<char>, event: Event) -> StepView {
    match event {
        Event::Started { now } => if cutoff_representable(now) {
            StepView::List {
                prefix: store_path_text(submissions_key(prefix)),
                offset: store_path_text(offset_key(submissions_key(prefix), cutoff(now as int))),
            }
        } else {
            StepView::Failed { error: DiscoveryError::WindowOutOfRange }
        },
        Event::Listed { entries } => StepView::Fetch { keys: listed(entries@).reverse() },
        Event::Fetched { outcomes } => StepView::Done { nodes: scanned(outcomes@) },
        _ => StepView::Failed { error: DiscoveryError::UnexpectedEvent },
    }
}

/// The step that follows `event` on `backend`. Override templates are
/// read by the online backend only.
pub open spec fn next_step(backend: BackendView, overrides: Option<Seq<Seq<char>>>, event: Event)
    -> StepView {
    match backend {
        BackendView::Online { url } => online_step(url, overrides, event),
        BackendView::ObjectStore { bucket, prefix } => store_step(prefix, event),
    }
}

/// Which backend a configuration selects: the online one where a URL is
/// set and not empty; else the object store, which needs both a prefix
/// and a bucket; else none.
pub open spec fn selected(
    online_url: Option<Seq<char>>,
    prefix: Option<Seq<char>>,
    bucket: Option<Seq<char>>,
) -> Option<BackendView> {
    if online_url is Some && online_url->0.len() > 0 {
        Some(BackendView::Online { url: online_url->0 })
    } else if prefix is Some && bucket is Some {
        Some(BackendView::ObjectStore { bucket: bucket->0, prefix: prefix->0 })
    } else {
        None
    }
}

/// The text of an optional string.
pub open spec fn text_of(s: Option<String>) -> Option<Seq<char>> {
    match s {
        Some(t) => Some(t@),
        None => None,
    }
}

/// A discovery service. It uses exactly one backend, fixed when it is
/// built, and keeps nothing from one cycle to the next.
#[derive(Debug)]
pub struct DiscoveryService {
    backend: Backend,
}

impl View for DiscoveryService {
    type V = BackendView;

    closed spec fn view(&self) -> BackendView {
        self.backend@
    }
}

/// Builds a service on the object store from its prefix and bucket. Both
/// must be set.
pub fn new_from_aws(prefix: Option<String>, bucket: Option<String>) -> (service: Result<
    DiscoveryService,
    DiscoveryError,
>)
    ensures
        match selected(None, text_of(prefix), text_of(bucket)) {
            Some(backend) => service matches Ok(s) && s@ == backend,
            None => service matches Err(e) && e == DiscoveryError::Configuration,
        },
{
    match (prefix, bucket) {
        (Some(prefix), Some(bucket)) => Ok(
            DiscoveryService { backend: Backend::ObjectStore { bucket, prefix } },
        ),
        _ => Err(DiscoveryError::Configuration),
    }
}

impl DiscoveryService {
    /// Builds a service from the configured values: online where the
    /// registration URL is set and not empty, else on the object store.
    /// A configuration that selects no backend is an error.
    pub fn try_new(online_url: Option<String>, prefix: Option<String>, bucket: Option<String>) -> (service:
        Result<DiscoveryService, DiscoveryError>)
        ensures
            match selected(text_of(online_url), text_of(prefix), text_of(bucket)) {
                Some(backend) => service matches Ok(s) && s@ == backend,
                None => service matches Err(e) && e == DiscoveryError::Configuration,
            },
    {
        match online_url {
            Some(url) => {
                if !url.as_str().is_empty() {
                    return Ok(DiscoveryService { backend: Backend::Online { url } });
                }
            },
            None => {},
        }
        new_from_aws(prefix, bucket)
    }

    /// The backend that the service uses.
    pub fn backend(&self) -> (backend: &Backend)
        ensures
            backend@ == self@,
    {
        &self.backend
    }

    /// One step of a discovery cycle: what to do after `event`.
    ///
    /// A cycle starts with `Event::Started`. The online backend asks for
    /// one GET and turns its answer into the set of nodes, applying the
    /// override templates. The object store asks for a listing from
    /// twenty minutes before the start, then for the fetch of every
    /// listed object, the last listed first, and gathers the records
    /// that could be read. An event of the other backend fails the
    /// cycle.
    pub fn discover_participants(&self, url_overrides: Option<Vec<String>>, event: Event) -> (step:
        Step)
        ensures
            step@ == next_step(self@, templates_of(url_overrides), event),
    {
        match &self.backend {
            Backend::ObjectStore { bucket, prefix } => match event {
                Event::Started { now } => match listing_request(prefix.as_str(), now) {
                    Some(request) => Step::List { request },
                    None => Step::Failed { error: DiscoveryError::WindowOutOfRange },
                },
                Event::Listed { entries } => Step::Fetch { keys: candidates(entries) },
                Event::Fetched { outcomes } => Step::Done { nodes: discover_aws(outcomes) },
                Event::Responded { response } => Step::Failed {
                    error: DiscoveryError::UnexpectedEvent,
                },
            },
            Backend::Online { url } => match event {
                Event::Started { now } => Step::Get { url: url.clone() },
                Event::Responded { response } => {
                    let results = match &url_overrides {
                        Some(list) => fetch_online(response, Some(list.as_slice())),
                        None => fetch_online(response, None),
                    };
                    match results {
                        Ok(nodes) => Step::Done { nodes },
                        Err(error) => Step::Failed { error },
                    }
                },
                Event::Listed { entries } => Step::Failed {
                    error: DiscoveryError::UnexpectedEvent,
                },
                Event::Fetched { outcomes } => Step::Failed {
                    error: DiscoveryError::UnexpectedEvent,
                },
            },
        }
    }
}

} // verus!
