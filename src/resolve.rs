use vstd::prelude::*;
use crate::device::{Device, DeviceView, Service, ServiceView};
use crate::error::{Error, ErrorView};

verus! {

/// What fetching and reading a description document came to.
#[derive(Debug)]
pub enum FetchOutcome {
    /// The document was read: its friendly name and services in order.
    Described { friendly_name: String, services: Vec<Service> },
    /// The transport failed; the cause as text.
    Unreachable(String),
    /// The server answered with a status other than success.
    Status(u16),
    /// The document lacks an element or attribute (second) under the first.
    MissingElement(String, String),
    /// The response is structurally invalid; the cause as text.
    Malformed(String),
    /// Another failure while reading the document; the cause as text.
    Failed(String),
    /// The task that fetched could not be joined; the cause as text.
    Aborted(String),
}

pub ghost enum OutcomeView {
    Described { friendly_name: Seq<char>, services: Seq<ServiceView> },
    Unreachable(Seq<char>),
    Status(u16),
    MissingElement(Seq<char>, Seq<char>),
    Malformed(Seq<char>),
    Failed(Seq<char>),
    Aborted(Seq<char>),
}

impl View for FetchOutcome {
    type V = OutcomeView;

    open spec fn view(&self) -> OutcomeView {
        match self {
            FetchOutcome::Described { friendly_name, services } => OutcomeView::Described {
                friendly_name: friendly_name@,
                services: services@.map_values(|s: Service| s@),
            },
            FetchOutcome::Unreachable(c) => OutcomeView::Unreachable(c@),
            FetchOutcome::Status(s) => OutcomeView::Status(*s),
            FetchOutcome::MissingElement(p, e) => OutcomeView::MissingElement(p@, e@),
            FetchOutcome::Malformed(c) => OutcomeView::Malformed(c@),
            FetchOutcome::Failed(c) => OutcomeView::Failed(c@),
            FetchOutcome::Aborted(c) => OutcomeView::Aborted(c@),
        }
    }
}

pub open spec fn result_view(r: Result<Device, Error>) -> Result<DeviceView, ErrorView> {
    match r {
        Ok(d) => Ok(d@),
        Err(e) => Err(e@),
    }
}

/// What resolving the search response at `location` yields, given what the
/// fetch of its description came to.
pub open spec fn resolution(location: Seq<char>, outcome: OutcomeView) -> Result<DeviceView, ErrorView> {
    match outcome {
        OutcomeView::Described { friendly_name, services } => Ok(
            DeviceView { friendly_name, url: location, services },
        ),
        OutcomeView::Unreachable(c) => Err(ErrorView::NetworkError(location, c)),
        OutcomeView::Status(s) => Err(ErrorView::HttpErrorCode(s)),
        OutcomeView::MissingElement(p, e) => Err(ErrorView::XmlMissingElement(p, e)),
        OutcomeView::Malformed(c) => Err(ErrorView::InvalidResponse(c)),
        OutcomeView::Failed(c) => Err(ErrorView::RupnpError(location, c)),
        OutcomeView::Aborted(c) => Err(ErrorView::JoinErr(c)),
    }
}

/// Completes the resolution of the search response at `location`: a read
/// description becomes a device located there, every failure its error.
pub fn finish(location: &str, outcome: FetchOutcome) -> (r: Result<Device, Error>)
    ensures
        result_view(r) == resolution(location@, outcome@),
{
    match outcome {
        FetchOutcome::Described { friendly_name, services } => {
            Ok(Device { friendly_name, url: location.to_string(), services })
        },
        FetchOutcome::Unreachable(c) => Err(Error::NetworkError(location.to_string(), c)),
        FetchOutcome::Status(s) => Err(Error::HttpErrorCode(s)),
        FetchOutcome::MissingElement(p, e) => Err(Error::XmlMissingElement(p, e)),
        FetchOutcome::Malformed(c) => Err(Error::InvalidResponse(c)),
        FetchOutcome::Failed(c) => Err(Error::RupnpError(location.to_string(), c)),
        FetchOutcome::Aborted(c) => Err(Error::JoinErr(c)),
    }
}

/// A response whose description fetch answers 404 resolves to
/// `HttpErrorCode(404)`.
pub proof fn lemma_not_found(location: Seq<char>)
    ensures
        resolution(location, OutcomeView::Status(404)) == Err::<DeviceView, ErrorView>(
            ErrorView::HttpErrorCode(404),
        ),
{
}

/// A description that lacks an element resolves to `XmlMissingElement`
/// naming that element and where it was looked for.
pub proof fn lemma_missing_element(location: Seq<char>, parent: Seq<char>, element: Seq<char>)
    ensures
        resolution(location, OutcomeView::MissingElement(parent, element)) == Err::<
            DeviceView,
            ErrorView,
        >(ErrorView::XmlMissingElement(parent, element)),
{
}

/// A read description resolves to a device with its friendly name and
/// exactly its services, in document order, located at the response's
/// location.
pub proof fn lemma_described(location: Seq<char>, friendly_name: Seq<char>, services: Seq<ServiceView>)
    ensures
        resolution(location, OutcomeView::Described { friendly_name, services }) == Ok::<
            DeviceView,
            ErrorView,
        >(DeviceView { friendly_name, url: location, services }),
{
}

/// Resolving the same response twice, against a transport that answers the
/// same both times, yields structurally identical results.
pub proof fn lemma_resolution_idempotent(
    location: Seq<char>,
    outcome: OutcomeView,
    first: Result<Device, Error>,
    second: Result<Device, Error>,
)
    requires
        result_view(first) == resolution(location, outcome),
        result_view(second) == resolution(location, outcome),
    ensures
        result_view(first) == result_view(second),
{
}

} // verus!
