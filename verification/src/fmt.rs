//! The response formatter: every text report the pipeline can emit is
//! specified here as a sequence of characters, and each exec function
//! is proved to produce exactly that sequence.

use vstd::prelude::*;

use crate::numfmt::{append_digit, spec_dec, spec_digit_char, u64_to_dec};
use crate::types::{DocRequest, DocRequestView, SearchResult, SearchResultView};
use crate::Context7Tool;

verus! {

/// The star figure of a candidate library: a plain decimal below 1000,
/// otherwise thousands rounded to the nearest tenth — a count exactly
/// between two tenths rounds up — with a `K` suffix.
pub open spec fn spec_stars(n: u64) -> Seq<char> {
    if n < 1000 {
        spec_dec(n as int)
    } else {
        let tenths = (n as int + 50) / 100;
        spec_dec(tenths / 10) + seq!['.'] + seq![spec_digit_char(tenths % 10)] + seq!['K']
    }
}

/// A trust score carried in tenths, rendered with one decimal place.
pub open spec fn spec_score(tenths: u64) -> Seq<char> {
    spec_dec(tenths as int / 10) + seq!['.'] + seq![spec_digit_char(tenths as int % 10)]
}

/// `s` with every leading `/` removed.
pub open spec fn spec_strip_slashes(s: Seq<char>) -> Seq<char>
    decreases s.len(),
{
    if s.len() > 0 && s[0] == '/' {
        spec_strip_slashes(s.subrange(1, s.len() as int))
    } else {
        s
    }
}

/// A candidate description, truncated to 100 characters with a
/// continuation marker when longer.
pub open spec fn spec_desc_text(d: Seq<char>) -> Seq<char> {
    if d.len() > 100 {
        d.subrange(0, 100) + "..."@
    } else {
        d
    }
}

/// The parenthesised figures of one suggestion entry: the star count
/// and the trust score, whichever are present, joined by a separator;
/// empty when neither is present.
pub open spec fn spec_entry_info(r: SearchResultView) -> Seq<char> {
    match (r.stars, r.trust_score_tenths) {
        (Option::None, Option::None) => Seq::<char>::empty(),
        (Option::Some(s), Option::None) => " (Stars: "@ + spec_stars(s) + ")"@,
        (Option::None, Option::Some(t)) => " (Score: "@ + spec_score(t) + ")"@,
        (Option::Some(s), Option::Some(t)) => " (Stars: "@ + spec_stars(s) + " | Score: "@
            + spec_score(t) + ")"@,
    }
}

/// One numbered suggestion entry, where `n` is its 1-based number: the
/// candidate id with leading slashes stripped, its figures, and its
/// description line when a description is present.
pub open spec fn spec_entry(n: int, r: SearchResultView) -> Seq<char> {
    spec_dec(n) + ". **"@ + spec_strip_slashes(r.id) + "**"@ + spec_entry_info(r) + "\n"@
        + (match r.description {
        Option::Some(d) => "   "@ + spec_desc_text(d) + "\n"@,
        Option::None => Seq::<char>::empty(),
    }) + "\n"@
}

/// The first `i` suggestion entries of `rs`, numbered from 1.
pub open spec fn spec_entries_upto(rs: Seq<SearchResultView>, i: int) -> Seq<char>
    decreases i,
{
    if i <= 0 {
        Seq::<char>::empty()
    } else {
        spec_entries_upto(rs, i - 1) + spec_entry(i, rs[i - 1])
    }
}

/// The opening lines of both not-found reports.
pub open spec fn spec_not_found_head(lib: Seq<char>) -> Seq<char> {
    "Library \""@ + lib + "\" not found.\n\n"@
}

/// The fixed not-found report used when the search produced nothing.
pub open spec fn spec_not_found_no_suggestions(lib: Seq<char>) -> Seq<char> {
    spec_not_found_head(lib)
        + "Check the library identifier. The expected format is `owner/repo`, for example:\n- `vercel/next.js`\n- `facebook/react`\n- `spring-projects/spring-framework`\n"@
}

/// The not-found report that lists the search suggestions and closes
/// with a worked request example built from the first candidate.
pub open spec fn spec_not_found_with_suggestions(
    lib: Seq<char>,
    rs: Seq<SearchResultView>,
) -> Seq<char>
    recommends
        rs.len() >= 1,
{
    spec_not_found_head(lib)
        + "Here are related libraries found by search; retry with a full library identifier:\n\n"@
        + spec_entries_upto(rs, rs.len() as int)
        + "---\n\nRetry with a full library identifier, for example:\n```json\n{ \"library\": \""@
        + spec_strip_slashes(rs[0].id) + "\", \"topic\": \"core\" }\n```\n"@
}

/// The formatted report of a successful fetch: a heading naming the
/// requested library, a metadata line for each supplied optional field,
/// a separator, the body verbatim, and a source attribution.
pub open spec fn spec_format_response(body: Seq<char>, req: DocRequestView) -> Seq<char> {
    "# "@ + req.library + " Documentation\n\n"@ + (match req.topic {
        Option::Some(t) => "**Topic**: "@ + t + "\n"@,
        Option::None => Seq::<char>::empty(),
    }) + (match req.version {
        Option::Some(v) => "**Version**: "@ + v + "\n"@,
        Option::None => Seq::<char>::empty(),
    }) + (match req.page {
        Option::Some(p) => "**Page**: "@ + spec_dec(p) + "\n"@,
        Option::None => Seq::<char>::empty(),
    }) + "\n---\n\n"@ + body + "\n\nSource: Context7 - "@ + req.library + "\n"@
}

/// The human-readable message for a failed primary fetch, by status:
/// a credential hint on 401, a rate-limit hint on 429, a service-error
/// prefix on 5xx, and the raw body on every other status.
pub open spec fn spec_error_message(status: u16, body: Seq<char>) -> Seq<char> {
    if status == 401 {
        "API key invalid or expired, check the configuration"@
    } else if status == 429 {
        "rate limit reached, configure an API key for a higher rate limit"@
    } else if 500 <= status <= 599 {
        "service error: "@ + body
    } else {
        body
    }
}

/// Skipping a run of leading slashes leaves the stripped text unchanged.
proof fn lemma_strip_slashes_skip(s: Seq<char>, i: int)
    requires
        0 <= i <= s.len(),
        forall|j: int| 0 <= j < i ==> s[j] == '/',
    ensures
        spec_strip_slashes(s) == spec_strip_slashes(s.subrange(i, s.len() as int)),
    decreases i,
{
    if i > 0 {
        let t = s.subrange(1, s.len() as int);
        assert(forall|j: int| 0 <= j < i - 1 ==> t[j] == '/');
        lemma_strip_slashes_skip(t, i - 1);
        assert(t.subrange(i - 1, t.len() as int) =~= s.subrange(i, s.len() as int));
    } else {
        assert(s.subrange(0, s.len() as int) =~= s);
    }
}

/// Removes every leading `/` of `s`.
pub fn strip_leading_slashes(s: &str) -> (r: String)
    ensures
        r@ == spec_strip_slashes(s@),
{
    let n = s.unicode_len();
    let mut i: usize = 0;
    while i < n && s.get_char(i) == '/'
        invariant
            0 <= i <= n,
            n == s@.len(),
            forall|j: int| 0 <= j < i ==> s@[j] == '/',
        decreases n - i,
    {
        i = i + 1;
    }
    let r = s.substring_char(i, n);
    proof {
        lemma_strip_slashes_skip(s@, i as int);
    }
    String::from_str(r)
}

/// Renders a trust score carried in tenths with one decimal place.
pub fn score_text(tenths: u64) -> (s: String)
    ensures
        s@ == spec_score(tenths),
{
    let mut s = u64_to_dec(tenths / 10);
    proof {
        reveal_strlit(".");
    }
    s.append(".");
    append_digit(&mut s, tenths % 10);
    assert(s@ =~= spec_score(tenths));
    s
}

/// Truncates a candidate description to 100 characters, marking the cut.
pub fn desc_text(d: &str) -> (s: String)
    ensures
        s@ == spec_desc_text(d@),
{
    let n = d.unicode_len();
    if n > 100 {
        let mut s = String::from_str(d.substring_char(0, 100));
        s.append("...");
        assert(s@ =~= spec_desc_text(d@));
        s
    } else {
        String::from_str(d)
    }
}

/// Builds one numbered suggestion entry.
pub fn entry_text(n: u64, r: &SearchResult) -> (s: String)
    ensures
        s@ == spec_entry(n as int, r@),
{
    let mut out = u64_to_dec(n);
    out.append(". **");
    let stripped = strip_leading_slashes(r.id.as_str());
    out.append(stripped.as_str());
    out.append("**");
    match (r.stars, r.trust_score_tenths) {
        (Option::None, Option::None) => {},
        (Option::Some(stars), Option::None) => {
            out.append(" (Stars: ");
            let stars_text = Context7Tool::format_stars(stars);
            out.append(stars_text.as_str());
            out.append(")");
        },
        (Option::None, Option::Some(tenths)) => {
            out.append(" (Score: ");
            let score = score_text(tenths);
            out.append(score.as_str());
            out.append(")");
        },
        (Option::Some(stars), Option::Some(tenths)) => {
            out.append(" (Stars: ");
            let stars_text = Context7Tool::format_stars(stars);
            out.append(stars_text.as_str());
            out.append(" | Score: ");
            let score = score_text(tenths);
            out.append(score.as_str());
            out.append(")");
        },
    }
    out.append("\n");
    if let Some(desc) = &r.description {
        out.append("   ");
        let short = desc_text(desc.as_str());
        out.append(short.as_str());
        out.append("\n");
    }
    out.append("\n");
    assert(out@ =~= spec_entry(n as int, r@));
    out
}

impl Context7Tool {
    /// Renders a star count: `950` stays `950`, `1500` becomes `1.5K`,
    /// `1460` rounds to `1.5K`.
    pub fn format_stars(stars: u64) -> (s: String)
        ensures
            s@ == spec_stars(stars),
    {
        if stars < 1000 {
            u64_to_dec(stars)
        } else {
            let q = stars / 100;
            let r = stars % 100;
            assert(q < 0xffff_ffff_ffff_ffffu64) by (nonlinear_arith)
                requires
                    q == stars / 100,
                    stars <= 0xffff_ffff_ffff_ffffu64,
            ;
            let tenths = if r >= 50 {
                q + 1
            } else {
                q
            };
            assert(tenths == (stars as int + 50) / 100) by (nonlinear_arith)
                requires
                    stars == 100 * q + r,
                    0 <= r < 100,
                    tenths == if r >= 50 {
                        q + 1 as int
                    } else {
                        q as int
                    },
            ;
            let mut s = u64_to_dec(tenths / 10);
            proof {
                reveal_strlit(".");
                reveal_strlit("K");
            }
            s.append(".");
            append_digit(&mut s, tenths % 10);
            s.append("K");
            assert(s@ =~= spec_stars(stars));
            s
        }
    }

    /// Maps the status and body of a failed primary fetch to its
    /// human-readable message; see [`spec_error_message`].
    pub fn format_error_message(status_code: u16, error_text: &str) -> (s: String)
        ensures
            s@ == spec_error_message(status_code, error_text@),
    {
        if status_code == 401 {
            String::from_str("API key invalid or expired, check the configuration")
        } else if status_code == 429 {
            String::from_str("rate limit reached, configure an API key for a higher rate limit")
        } else if 500 <= status_code && status_code <= 599 {
            let mut s = String::from_str("service error: ");
            s.append(error_text);
            assert(s@ =~= spec_error_message(status_code, error_text@));
            s
        } else {
            String::from_str(error_text)
        }
    }

    /// Formats the body of a successful fetch into the documentation
    /// report; see [`spec_format_response`].
    pub fn format_response(body: &str, request: &DocRequest) -> (s: String)
        ensures
            s@ == spec_format_response(body@, request@),
    {
        let mut out = String::from_str("# ");
        out.append(request.library.as_str());
        out.append(" Documentation\n\n");
        if let Some(topic) = &request.topic {
            out.append("**Topic**: ");
            out.append(topic.as_str());
            out.append("\n");
        }
        if let Some(version) = &request.version {
            out.append("**Version**: ");
            out.append(version.as_str());
            out.append("\n");
        }
        if let Some(page) = request.page {
            out.append("**Page**: ");
            let page_text = u64_to_dec(page as u64);
            out.append(page_text.as_str());
            out.append("\n");
        }
        out.append("\n---\n\n");
        out.append(body);
        out.append("\n\nSource: Context7 - ");
        out.append(request.library.as_str());
        out.append("\n");
        assert(out@ =~= spec_format_response(body@, request@));
        out
    }

    /// The fixed not-found report; see [`spec_not_found_no_suggestions`].
    pub fn format_not_found_no_suggestions(library: &str) -> (s: String)
        ensures
            s@ == spec_not_found_no_suggestions(library@),
    {
        let mut out = String::from_str("Library \"");
        out.append(library);
        out.append("\" not found.\n\n");
        out.append(
            "Check the library identifier. The expected format is `owner/repo`, for example:\n- `vercel/next.js`\n- `facebook/react`\n- `spring-projects/spring-framework`\n",
        );
        assert(out@ =~= spec_not_found_no_suggestions(library@));
        out
    }

    /// The not-found report listing the given suggestions; see
    /// [`spec_not_found_with_suggestions`].
    pub fn format_not_found_with_suggestions(library: &str, results: &Vec<SearchResult>) -> (s:
        String)
        requires
            results@.len() >= 1,
        ensures
            s@ == spec_not_found_with_suggestions(
                library@,
                results@.map_values(|r: SearchResult| r@),
            ),
    {
        let ghost rs = results@.map_values(|r: SearchResult| r@);
        let mut out = String::from_str("Library \"");
        out.append(library);
        out.append("\" not found.\n\n");
        out.append(
            "Here are related libraries found by search; retry with a full library identifier:\n\n",
        );
        assert(out@ =~= spec_not_found_head(library@)
            + "Here are related libraries found by search; retry with a full library identifier:\n\n"@
            + spec_entries_upto(rs, 0));
        let mut i: usize = 0;
        while i < results.len()
            invariant
                0 <= i <= results@.len(),
                rs == results@.map_values(|r: SearchResult| r@),
                out@ == spec_not_found_head(library@)
                    + "Here are related libraries found by search; retry with a full library identifier:\n\n"@
                    + spec_entries_upto(rs, i as int),
            decreases results@.len() - i,
        {
            let entry = entry_text(i as u64 + 1, &results[i]);
            out.append(entry.as_str());
            proof {
                assert(rs[i as int] == results@[i as int]@);
                assert(spec_entries_upto(rs, i as int + 1) == spec_entries_upto(rs, i as int)
                    + spec_entry(i as int + 1, rs[i as int]));
                assert(out@ =~= spec_not_found_head(library@)
                    + "Here are related libraries found by search; retry with a full library identifier:\n\n"@
                    + spec_entries_upto(rs, i as int + 1));
            }
            i = i + 1;
        }
        out.append("---\n\nRetry with a full library identifier, for example:\n```json\n{ \"library\": \"");
        let first_id = strip_leading_slashes(results[0].id.as_str());
        out.append(first_id.as_str());
        out.append("\", \"topic\": \"core\" }\n```\n");
        assert(out@ =~= spec_not_found_with_suggestions(library@, rs));
        out
    }
}

} // verus!
