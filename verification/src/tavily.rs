use vstd::prelude::*;
use vstd::string::StringExecFns;

verus! {

/// Wire shapes for the search endpoint.  Building the request body and
/// summarizing the parsed reply are decided and proved here; the transport
/// layer owns the HTTP call and the byte-level encoding.
pub struct SearchRequest {
    pub api_key: String,
    pub query: String,
    pub search_depth: String,
}

pub struct SearchResponse {
    pub results: Vec<SearchResult>,
}

pub struct SearchResult {
    pub title: String,
    pub url: String,
    pub content: String,
}

/// At most this many search results are folded into the summary.
pub const SUMMARY_RESULT_LIMIT: usize = 3;

/// One summary line: the result's title and content, separated by a colon.
pub open spec fn search_line(r: SearchResult) -> Seq<char> {
    r.title@ + ": "@ + r.content@
}

/// The summary of a result list: its lines joined by line breaks.
pub open spec fn summary_of(rs: Seq<SearchResult>) -> Seq<char>
    decreases rs.len(),
{
    if rs.len() == 0 {
        Seq::empty()
    } else if rs.len() == 1 {
        search_line(rs[0])
    } else {
        summary_of(rs.drop_last()) + "\n"@ + search_line(rs.last())
    }
}

/// The basic-depth search request for one query.
pub fn tavily_request(api_key: &str, query: &str) -> (r: SearchRequest)
    ensures
        r.api_key@ == api_key@,
        r.query@ == query@,
        r.search_depth@ == "basic"@,
{
    SearchRequest {
        api_key: api_key.to_owned(),
        query: query.to_owned(),
        search_depth: "basic".to_owned(),
    }
}

/// The enrichment text handed back for a search reply: the first few results,
/// one line each, most relevant first.  An empty result list gives an empty
/// summary, never a fault.
pub fn tavily_summary(res: &SearchResponse) -> (s: String)
    ensures
        s@ == summary_of(
            res.results@.take(
                if res.results@.len() < SUMMARY_RESULT_LIMIT {
                    res.results@.len() as int
                } else {
                    SUMMARY_RESULT_LIMIT as int
                },
            ),
        ),
{
    let n = res.results.len();
    let k = if n < SUMMARY_RESULT_LIMIT {
        n
    } else {
        SUMMARY_RESULT_LIMIT
    };
    let mut s = String::new();
    let mut i: usize = 0;
    proof {
        assert(res.results@.take(0) =~= Seq::<SearchResult>::empty());
    }
    while i < k
        invariant
            i <= k,
            k <= n,
            n == res.results@.len(),
            s@ == summary_of(res.results@.take(i as int)),
        decreases k - i,
    {
        let ghost pre = s@;
        if i > 0 {
            s.append("\n");
        }
        s.append(res.results[i].title.as_str());
        s.append(": ");
        s.append(res.results[i].content.as_str());
        proof {
            let rs = res.results@;
            assert(rs.take(i as int + 1).drop_last() =~= rs.take(i as int));
            assert(rs.take(i as int + 1).last() == rs[i as int]);
            if i > 0 {
                assert(s@ =~= pre + "\n"@ + search_line(rs[i as int]));
            } else {
                assert(s@ =~= search_line(rs[i as int]));
            }
        }
        i = i + 1;
    }
    s
}

} // verus!
