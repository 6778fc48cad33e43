//! The call-scoped data of one documentation resolution: the request, the
//! service configuration, the classified outcome of each outbound call, and
//! the single result value handed back to the caller.

use vstd::prelude::*;

verus! {

/// One documentation request. `library` is expected in `owner/repo` shape
/// but is not validated as such; the optional page number, when present,
/// lies in `[1, 10]`.
pub struct DocRequest {
    pub library: String,
    pub topic: Option<String>,
    pub version: Option<String>,
    pub page: Option<u8>,
}

/// The mathematical model of a [`DocRequest`]: every string as a
/// sequence of characters.
pub struct DocRequestView {
    pub library: Seq<char>,
    pub topic: Option<Seq<char>>,
    pub version: Option<Seq<char>>,
    pub page: Option<int>,
}

impl View for DocRequest {
    type V = DocRequestView;

    open spec fn view(&self) -> DocRequestView {
        DocRequestView {
            library: self.library@,
            topic: match self.topic {
                Some(t) => Some(t@),
                None => None,
            },
            version: match self.version {
                Some(v) => Some(v@),
                None => None,
            },
            page: match self.page {
                Some(p) => Some(p as int),
                None => None,
            },
        }
    }
}

impl DocRequestView {
    /// A request is well formed when its page number, if present,
    /// lies in `[1, 10]`.
    pub open spec fn wf(self) -> bool {
        match self.page {
            Some(p) => 1 <= p <= 10,
            None => true,
        }
    }
}

impl DocRequest {
    /// Well-formedness of the carried values; see [`DocRequestView::wf`].
    pub open spec fn wf(&self) -> bool {
        self@.wf()
    }
}

/// The service configuration of one call: an optional bearer credential
/// and the base URL of the documentation service.
pub struct ServiceConfig {
    pub api_key: Option<String>,
    pub base_url: String,
}

/// The mathematical model of a [`ServiceConfig`].
pub struct ServiceConfigView {
    pub api_key: Option<Seq<char>>,
    pub base_url: Seq<char>,
}

impl View for ServiceConfig {
    type V = ServiceConfigView;

    open spec fn view(&self) -> ServiceConfigView {
        ServiceConfigView {
            api_key: match self.api_key {
                Some(k) => Some(k@),
                None => None,
            },
            base_url: self.base_url@,
        }
    }
}

/// The classified outcome of one outbound documentation fetch. A 2xx
/// answer is a success carrying the full body; 404 is a not-found; 5xx is
/// a server error; every other status is a client error; a failure that
/// produced no status at all is a transport error carrying its cause.
pub enum FetchOutcome {
    Success(String),
    NotFound,
    ClientError(u16, String),
    ServerError(u16, String),
    TransportError(String),
}

/// The mathematical model of a [`FetchOutcome`].
pub enum FetchOutcomeView {
    Success(Seq<char>),
    NotFound,
    ClientError(u16, Seq<char>),
    ServerError(u16, Seq<char>),
    TransportError(Seq<char>),
}

impl View for FetchOutcome {
    type V = FetchOutcomeView;

    open spec fn view(&self) -> FetchOutcomeView {
        match self {
            FetchOutcome::Success(body) => FetchOutcomeView::Success(body@),
            FetchOutcome::NotFound => FetchOutcomeView::NotFound,
            FetchOutcome::ClientError(status, body) => FetchOutcomeView::ClientError(
                *status,
                body@,
            ),
            FetchOutcome::ServerError(status, body) => FetchOutcomeView::ServerError(
                *status,
                body@,
            ),
            FetchOutcome::TransportError(cause) => FetchOutcomeView::TransportError(cause@),
        }
    }
}

/// One candidate library returned by the search endpoint. The trust score
/// is service-supplied with one decimal digit of precision and is carried
/// here in tenths, so that a score of `9.2` is the value `92`.
pub struct SearchResult {
    pub id: String,
    pub stars: Option<u64>,
    pub trust_score_tenths: Option<u64>,
    pub description: Option<String>,
}

/// The mathematical model of a [`SearchResult`].
pub struct SearchResultView {
    pub id: Seq<char>,
    pub stars: Option<u64>,
    pub trust_score_tenths: Option<u64>,
    pub description: Option<Seq<char>>,
}

impl View for SearchResult {
    type V = SearchResultView;

    open spec fn view(&self) -> SearchResultView {
        SearchResultView {
            id: self.id@,
            stars: self.stars,
            trust_score_tenths: self.trust_score_tenths,
            description: match self.description {
                Some(d) => Some(d@),
                None => None,
            },
        }
    }
}

/// The outcome of the recovery flow's search sub-request. Any failure on
/// that path — transport, a non-2xx status, or an unparsable body — is
/// absorbed into `Failed`; it never becomes a visible fault.
pub enum SearchOutcome {
    Results(Vec<SearchResult>),
    Failed,
}

/// The mathematical model of a [`SearchOutcome`].
pub enum SearchOutcomeView {
    Results(Seq<SearchResultView>),
    Failed,
}

impl View for SearchOutcome {
    type V = SearchOutcomeView;

    open spec fn view(&self) -> SearchOutcomeView {
        match self {
            SearchOutcome::Results(rs) => SearchOutcomeView::Results(
                rs@.map_values(|r: SearchResult| r@),
            ),
            SearchOutcome::Failed => SearchOutcomeView::Failed,
        }
    }
}

/// The one value a resolution ever hands back to its caller: a text and
/// an error flag. Every terminal branch of the pipeline constructs one.
pub struct ToolResult {
    pub text: String,
    pub is_error: bool,
}

/// The mathematical model of a [`ToolResult`].
pub struct ToolResultView {
    pub text: Seq<char>,
    pub is_error: bool,
}

impl View for ToolResult {
    type V = ToolResultView;

    open spec fn view(&self) -> ToolResultView {
        ToolResultView { text: self.text@, is_error: self.is_error }
    }
}

/// One planned outbound GET request: the URL, the query parameters in
/// order, the optional bearer credential, and the timeout to apply.
pub struct HttpPlan {
    pub url: String,
    pub params: Vec<(String, String)>,
    pub bearer: Option<String>,
    pub timeout_secs: u64,
}

/// The mathematical model of an [`HttpPlan`].
pub struct HttpPlanView {
    pub url: Seq<char>,
    pub params: Seq<(Seq<char>, Seq<char>)>,
    pub bearer: Option<Seq<char>>,
    pub timeout_secs: u64,
}

impl View for HttpPlan {
    type V = HttpPlanView;

    open spec fn view(&self) -> HttpPlanView {
        HttpPlanView {
            url: self.url@,
            params: self.params@.map_values(|p: (String, String)| (p.0@, p.1@)),
            bearer: match self.bearer {
                Some(b) => Some(b@),
                None => None,
            },
            timeout_secs: self.timeout_secs,
        }
    }
}

/// What the resolver does after classifying the primary fetch: either the
/// resolution is finished with a result, or the not-found recovery flow
/// must run a search next.
pub enum FetchDecision {
    Done(ToolResult),
    Search,
}

/// The mathematical model of a [`FetchDecision`].
pub enum FetchDecisionView {
    Done(ToolResultView),
    Search,
}

impl View for FetchDecision {
    type V = FetchDecisionView;

    open spec fn view(&self) -> FetchDecisionView {
        match self {
            FetchDecision::Done(r) => FetchDecisionView::Done(r@),
            FetchDecision::Search => FetchDecisionView::Search,
        }
    }
}

} // verus!
