//! The documentation resolver: planning the outbound calls, classifying
//! what came back, and dispatching every outcome to exactly one result.
//!
//! The network itself is the caller's business. A resolution runs as a
//! small state machine: plan the primary fetch, classify its status and
//! body, decide on the outcome; when the decision asks for the not-found
//! recovery flow, plan the search, and turn whatever the search produced
//! into the final, never-failing result.

use vstd::prelude::*;

use crate::fmt::{
    spec_error_message, spec_format_response, spec_not_found_no_suggestions,
    spec_not_found_with_suggestions,
};
use crate::numfmt::spec_dec;
use crate::types::{
    DocRequest, DocRequestView, FetchDecision, FetchDecisionView, FetchOutcome, FetchOutcomeView,
    HttpPlan, SearchOutcome, SearchOutcomeView, SearchResult, ServiceConfig, ToolResult,
    ToolResultView,
};
use crate::Context7Tool;

verus! {

/// The most suggestions a recovery report ever lists.
pub const MAX_SUGGESTIONS: usize = 5;

/// The index of the last `/` of `s`, or `-1` when `s` holds none.
pub open spec fn spec_last_slash(s: Seq<char>) -> int
    decreases s.len(),
{
    if s.len() == 0 {
        -1
    } else if s[s.len() - 1] == '/' {
        s.len() - 1
    } else {
        spec_last_slash(s.drop_last())
    }
}

/// The search term derived from a library identifier: the text after its
/// last `/`, or the identifier itself when it holds no `/`. An identifier
/// that ends in `/` therefore yields the empty term.
pub open spec fn spec_search_term(lib: Seq<char>) -> Seq<char> {
    lib.subrange(spec_last_slash(lib) + 1, lib.len() as int)
}

/// A whitespace character, for the purpose of telling a blank
/// documentation body from a substantial one.
pub open spec fn spec_is_space(c: char) -> bool {
    c == ' ' || c == '\t' || c == '\r' || c == '\n'
}

/// A body that holds nothing but whitespace.
pub open spec fn spec_is_blank(s: Seq<char>) -> bool {
    forall|i: int| 0 <= i < s.len() ==> spec_is_space(s[i])
}

/// The classified outcome of a primary fetch that produced a status and
/// a body: 2xx succeeds, 404 is the recoverable not-found, 5xx is the
/// service's failure, and every other status counts against the client.
pub open spec fn spec_classify(status: u16, body: Seq<char>) -> FetchOutcomeView {
    if 200 <= status <= 299 {
        FetchOutcomeView::Success(body)
    } else if status == 404 {
        FetchOutcomeView::NotFound
    } else if 500 <= status <= 599 {
        FetchOutcomeView::ServerError(status, body)
    } else {
        FetchOutcomeView::ClientError(status, body)
    }
}

/// The query parameters of a primary fetch: one pair for each optional
/// request field that is present, in the fixed order topic, version, page.
pub open spec fn spec_fetch_params(req: DocRequestView) -> Seq<(Seq<char>, Seq<char>)> {
    (match req.topic {
        Option::Some(t) => seq![("topic"@, t)],
        Option::None => Seq::<(Seq<char>, Seq<char>)>::empty(),
    }) + (match req.version {
        Option::Some(v) => seq![("version"@, v)],
        Option::None => Seq::<(Seq<char>, Seq<char>)>::empty(),
    }) + (match req.page {
        Option::Some(p) => seq![("page"@, spec_dec(p))],
        Option::None => Seq::<(Seq<char>, Seq<char>)>::empty(),
    })
}

/// What the resolver does with a classified primary outcome: a blank or
/// substantial success becomes a non-error report, a not-found asks for
/// the recovery search, and every other failure becomes an error-flagged
/// message.
pub open spec fn spec_on_fetch(req: DocRequestView, outcome: FetchOutcomeView) -> FetchDecisionView {
    match outcome {
        FetchOutcomeView::Success(body) => FetchDecisionView::Done(
            ToolResultView {
                text: if spec_is_blank(body) {
                    "no documentation found"@
                } else {
                    spec_format_response(body, req)
                },
                is_error: false,
            },
        ),
        FetchOutcomeView::NotFound => FetchDecisionView::Search,
        FetchOutcomeView::ClientError(status, body) => FetchDecisionView::Done(
            ToolResultView { text: spec_error_message(status, body), is_error: true },
        ),
        FetchOutcomeView::ServerError(status, body) => FetchDecisionView::Done(
            ToolResultView { text: spec_error_message(status, body), is_error: true },
        ),
        FetchOutcomeView::TransportError(cause) => FetchDecisionView::Done(
            ToolResultView { text: cause, is_error: true },
        ),
    }
}

/// What the recovery flow returns for a search outcome: the suggestion
/// report over the first [`MAX_SUGGESTIONS`] results when there are any,
/// and the fixed no-suggestions report when the search failed or found
/// nothing. The flag is never set: a not-found is a result, not a fault.
pub open spec fn spec_on_search(req: DocRequestView, outcome: SearchOutcomeView) -> ToolResultView {
    match outcome {
        SearchOutcomeView::Results(rs) => if rs.len() == 0 {
            ToolResultView { text: spec_not_found_no_suggestions(req.library), is_error: false }
        } else {
            ToolResultView {
                text: spec_not_found_with_suggestions(
                    req.library,
                    rs.take(
                        if rs.len() < MAX_SUGGESTIONS as int {
                            rs.len() as int
                        } else {
                            MAX_SUGGESTIONS as int
                        },
                    ),
                ),
                is_error: false,
            }
        },
        SearchOutcomeView::Failed => ToolResultView {
            text: spec_not_found_no_suggestions(req.library),
            is_error: false,
        },
    }
}

/// The whole resolution as one total function: the result for a request
/// whose primary fetch came back as `fetch`, where `search` is what the
/// recovery search produced in the one case the resolver asks for it.
pub open spec fn spec_resolve(
    req: DocRequestView,
    fetch: FetchOutcomeView,
    search: SearchOutcomeView,
) -> ToolResultView {
    match spec_on_fetch(req, fetch) {
        FetchDecisionView::Done(r) => r,
        FetchDecisionView::Search => spec_on_search(req, search),
    }
}

/// A slash at `k` with none after it is the last one.
proof fn lemma_last_slash_at(s: Seq<char>, k: int)
    requires
        -1 <= k < s.len(),
        k >= 0 ==> s[k] == '/',
        forall|j: int| k < j < s.len() ==> s[j] != '/',
    ensures
        spec_last_slash(s) == k,
    decreases s.len(),
{
    if s.len() == 0 {
    } else if s[s.len() - 1] == '/' {
        assert(k == s.len() - 1);
    } else {
        let t = s.drop_last();
        assert(k < s.len() - 1);
        assert(forall|j: int| k < j < t.len() ==> t[j] != '/');
        lemma_last_slash_at(t, k);
    }
}

/// Derives the search term of the recovery flow from a library
/// identifier; see [`spec_search_term`].
pub fn derive_search_term(library: &str) -> (term: String)
    ensures
        term@ == spec_search_term(library@),
{
    let n = library.unicode_len();
    let mut i: usize = n;
    while i > 0 && library.get_char(i - 1) != '/'
        invariant
            0 <= i <= n,
            n == library@.len(),
            forall|j: int| i <= j < n ==> library@[j] != '/',
        decreases i,
    {
        i = i - 1;
    }
    proof {
        lemma_last_slash_at(library@, i as int - 1);
    }
    let term = library.substring_char(i, n);
    String::from_str(term)
}

/// Tells a blank body from a substantial one; see [`spec_is_blank`].
pub fn is_blank(s: &str) -> (b: bool)
    ensures
        b == spec_is_blank(s@),
{
    let n = s.unicode_len();
    let mut i: usize = 0;
    while i < n
        invariant
            0 <= i <= n,
            n == s@.len(),
            forall|j: int| 0 <= j < i ==> spec_is_space(s@[j]),
        decreases n - i,
    {
        let c = s.get_char(i);
        if !(c == ' ' || c == '\t' || c == '\r' || c == '\n') {
            assert(!spec_is_space(s@[i as int]));
            return false;
        }
        i = i + 1;
    }
    true
}

impl Context7Tool {
    /// The production base URL of the documentation service, used when
    /// the configuration provider supplies no other.
    pub fn default_base_url() -> (url: String)
        ensures
            url@ == "https://context7.com/api/v2"@,
    {
        String::from_str("https://context7.com/api/v2")
    }

    /// Plans the primary documentation fetch: the docs endpoint for the
    /// requested library, a query pair for each supplied optional field,
    /// the configured credential, and the 30-second timeout.
    pub fn plan_fetch(config: &ServiceConfig, request: &DocRequest) -> (plan: HttpPlan)
        ensures
            plan@.url == config@.base_url + "/docs/code/"@ + request@.library,
            plan@.params == spec_fetch_params(request@),
            plan@.bearer == config@.api_key,
            plan@.timeout_secs == 30,
    {
        let mut url = String::from_str(config.base_url.as_str());
        url.append("/docs/code/");
        url.append(request.library.as_str());
        let mut params: Vec<(String, String)> = Vec::new();
        if let Some(topic) = &request.topic {
            params.push((String::from_str("topic"), String::from_str(topic.as_str())));
        }
        if let Some(version) = &request.version {
            params.push((String::from_str("version"), String::from_str(version.as_str())));
        }
        if let Some(page) = request.page {
            params.push((String::from_str("page"), crate::numfmt::u64_to_dec(page as u64)));
        }
        let bearer = match &config.api_key {
            Some(key) => Some(String::from_str(key.as_str())),
            None => None,
        };
        let plan = HttpPlan { url, params, bearer, timeout_secs: 30 };
        proof {
            assert(plan@.params =~= spec_fetch_params(request@));
        }
        plan
    }

    /// Plans the recovery flow's search call: the search endpoint, the
    /// derived term as its one query pair, the same credential rule as
    /// the primary fetch, and the shorter 15-second timeout. The term is
    /// used as derived, so an identifier with a trailing `/` searches
    /// with the empty term.
    pub fn plan_search(config: &ServiceConfig, request: &DocRequest) -> (plan: HttpPlan)
        ensures
            plan@.url == config@.base_url + "/search"@,
            plan@.params == seq![("query"@, spec_search_term(request@.library))],
            plan@.bearer == config@.api_key,
            plan@.timeout_secs == 15,
    {
        let mut url = String::from_str(config.base_url.as_str());
        url.append("/search");
        let term = derive_search_term(request.library.as_str());
        let mut params: Vec<(String, String)> = Vec::new();
        params.push((String::from_str("query"), term));
        let bearer = match &config.api_key {
            Some(key) => Some(String::from_str(key.as_str())),
            None => None,
        };
        let plan = HttpPlan { url, params, bearer, timeout_secs: 15 };
        proof {
            assert(plan@.params =~= seq![("query"@, spec_search_term(request@.library))]);
        }
        plan
    }

    /// Classifies the status and body of a primary fetch that reached
    /// the service; see [`spec_classify`].
    pub fn classify_response(status: u16, body: String) -> (outcome: FetchOutcome)
        ensures
            outcome@ == spec_classify(status, body@),
    {
        if 200 <= status && status <= 299 {
            FetchOutcome::Success(body)
        } else if status == 404 {
            FetchOutcome::NotFound
        } else if 500 <= status && status <= 599 {
            FetchOutcome::ServerError(status, body)
        } else {
            FetchOutcome::ClientError(status, body)
        }
    }

    /// Decides on the classified outcome of the primary fetch; see
    /// [`spec_on_fetch`].
    pub fn on_fetch(request: &DocRequest, outcome: FetchOutcome) -> (decision: FetchDecision)
        ensures
            decision@ == spec_on_fetch(request@, outcome@),
    {
        match outcome {
            FetchOutcome::Success(body) => {
                let text = if is_blank(body.as_str()) {
                    String::from_str("no documentation found")
                } else {
                    Self::format_response(body.as_str(), request)
                };
                FetchDecision::Done(ToolResult { text, is_error: false })
            },
            FetchOutcome::NotFound => FetchDecision::Search,
            FetchOutcome::ClientError(status, body) => {
                let text = Self::format_error_message(status, body.as_str());
                FetchDecision::Done(ToolResult { text, is_error: true })
            },
            FetchOutcome::ServerError(status, body) => {
                let text = Self::format_error_message(status, body.as_str());
                FetchDecision::Done(ToolResult { text, is_error: true })
            },
            FetchOutcome::TransportError(cause) => FetchDecision::Done(
                ToolResult { text: cause, is_error: true },
            ),
        }
    }

    /// Turns the recovery search's outcome into the final result; the
    /// flag is never set here, whatever the search did. See
    /// [`spec_on_search`].
    pub fn on_search(request: &DocRequest, outcome: SearchOutcome) -> (result: ToolResult)
        ensures
            result@ == spec_on_search(request@, outcome@),
            !result@.is_error,
    {
        match outcome {
            SearchOutcome::Results(results) => {
                if results.len() == 0 {
                    let text = Self::format_not_found_no_suggestions(request.library.as_str());
                    ToolResult { text, is_error: false }
                } else {
                    let mut limited = results;
                    let ghost full = limited@.map_values(|r: SearchResult| r@);
                    limited.truncate(MAX_SUGGESTIONS);
                    proof {
                        let bound = if full.len() < MAX_SUGGESTIONS as int {
                            full.len() as int
                        } else {
                            MAX_SUGGESTIONS as int
                        };
                        assert(limited@.map_values(|r: SearchResult| r@) =~= full.take(bound));
                    }
                    let text = Self::format_not_found_with_suggestions(
                        request.library.as_str(),
                        &limited,
                    );
                    ToolResult { text, is_error: false }
                }
            },
            SearchOutcome::Failed => {
                let text = Self::format_not_found_no_suggestions(request.library.as_str());
                ToolResult { text, is_error: false }
            },
        }
    }

    /// The one early-exit result: the configuration provider could not
    /// supply a configuration, and the resolution ends as an error.
    pub fn config_error(cause: &str) -> (result: ToolResult)
        ensures
            result@.text == "configuration error: "@ + cause@,
            result@.is_error,
    {
        let mut text = String::from_str("configuration error: ");
        text.append(cause);
        ToolResult { text, is_error: true }
    }
}

} // verus!
