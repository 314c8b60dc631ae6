//! The API client: turns a populated builder (or raw mappings) into a fully
//! described outbound request.
//!
//! The client holds the caller's API key. For each HTTP verb it builds the
//! target URL — the fixed endpoint, the key, and one `&name=value` segment
//! per parameter entry, with exactly the parameter named `url`
//! percent-encoded — validates the headers, and returns a [`RequestPlan`]
//! holding the method, URL, headers and (for POST/PUT) the JSON body. The
//! network round trip itself is the embedding application's job: it performs
//! the plan and hands back the transport's response unprocessed.

use vstd::prelude::*;
use vstd::string::StringExecFns;

use crate::builder::QueryBuilder;
use crate::errors::ApiError;
use crate::headers::{headers_ok, headers_valid};
use crate::json::{body_to_json, json_object};
use crate::kv::{str_eq, Dict, EntryView};

verus! {

/// What `urlencoding::encode` returns for a string with these characters: a
/// function of the characters alone.
pub uninterp spec fn url_encoded(s: Seq<char>) -> Seq<char>;

/// Relies on urlencoding::encode: percent-encodes every byte of the UTF-8
/// form of the input except ASCII alphanumerics and `-`, `_`, `.`, `~`. The
/// result depends on the input characters alone.
#[verifier::external_body]
fn encode_component(s: &str) -> (r: String)
    ensures
        r@ == url_encoded(s@),
{
    urlencoding::encode(s).into_owned()
}

/// The query-string segment for one parameter entry: `&name=value`, with
/// the value percent-encoded exactly when the name is `url`.
pub open spec fn segment(e: EntryView) -> Seq<char> {
    seq!['&'] + e.0 + seq!['='] + (if e.0 == "url"@ {
        url_encoded(e.1)
    } else {
        e.1
    })
}

/// The query string for a parameter mapping: the segments in entry order.
pub open spec fn query_string(ps: Seq<EntryView>) -> Seq<char>
    decreases ps.len(),
{
    if ps.len() == 0 {
        Seq::<char>::empty()
    } else {
        query_string(ps.drop_last()) + segment(ps.last())
    }
}

/// The full request URL: the fixed endpoint, the API key, and one segment
/// per parameter entry.
pub open spec fn api_url(key: Seq<char>, ps: Seq<EntryView>) -> Seq<char> {
    "https://scrape.shifter.io/v1?api_key="@ + key + query_string(ps)
}

/// An entry whose name is not `url` contributes its value verbatim,
/// unescaped: percent-encoding is a deliberate special case for the one
/// parameter named `url`, not general URL encoding.
pub proof fn lemma_segment_raw_value(e: EntryView)
    requires
        e.0 != "url"@,
    ensures
        segment(e) == seq!['&'] + e.0 + seq!['='] + e.1,
{
}

/// The entry named `url` contributes its value percent-encoded.
pub proof fn lemma_segment_url_encoded(e: EntryView)
    requires
        e.0 == "url"@,
    ensures
        segment(e) == seq!['&'] + e.0 + seq!['='] + url_encoded(e.1),
{
}

/// Each entry contributes exactly its own `&name=value` segment to the
/// query string: appending an entry appends one segment and nothing else.
pub proof fn lemma_query_string_one_segment_per_entry(ps: Seq<EntryView>, e: EntryView)
    ensures
        query_string(ps.push(e)) == query_string(ps) + segment(e),
{
    assert(ps.push(e).drop_last() =~= ps);
    assert(ps.push(e).last() == e);
}

/// The request URL always begins with the fixed endpoint followed by the
/// API key; the parameter segments only ever follow that prefix.
pub proof fn lemma_api_url_prefix(key: Seq<char>, ps: Seq<EntryView>)
    ensures
        api_url(key, ps).take("https://scrape.shifter.io/v1?api_key="@.len() + key.len() as int)
            == "https://scrape.shifter.io/v1?api_key="@ + key,
{
    let prefix = "https://scrape.shifter.io/v1?api_key="@ + key;
    assert(api_url(key, ps).take(prefix.len() as int) =~= prefix);
}

/// An HTTP method the upstream API is called with.
#[derive(Clone, Copy, Debug, PartialEq, Eq, Structural)]
pub enum HttpMethod {
    Get,
    Post,
    Put,
}

/// Everything the transport needs to perform one call: the method, the full
/// URL, the validated headers, and the JSON body text for POST and PUT.
#[derive(Debug)]
pub struct RequestPlan {
    pub method: HttpMethod,
    pub url: String,
    pub headers: Dict,
    pub body: Option<String>,
}

/// The WebScrapingAPI client that prepares the requests.
pub struct WebScrapingAPI {
    key: String,
}

impl View for WebScrapingAPI {
    type V = Seq<char>;

    closed spec fn view(&self) -> Seq<char> {
        self.key@
    }
}

impl WebScrapingAPI {
    /// The WebScrapingAPI constructor: remembers the API key.
    pub fn new(api_key: &str) -> (r: WebScrapingAPI)
        ensures
            r@ == api_key@,
    {
        WebScrapingAPI { key: String::from_str(api_key) }
    }

    /// Parses parameters and encodes them correctly: the fixed endpoint,
    /// the API key, and one `&name=value` segment per entry, with exactly
    /// the parameter named `url` percent-encoded.
    pub fn params_to_api_url(&self, params: &Dict) -> (r: String)
        ensures
            r@ == api_url(self@, params@),
    {
        let mut query = String::new();
        let n = params.len();
        let mut i: usize = 0;
        while i < n
            invariant
                n == params@.len(),
                i <= n,
                query@ == query_string(params@.take(i as int)),
            decreases n - i,
        {
            let ghost before = query@;
            query.append("&");
            query.append(params.key_at(i).as_str());
            query.append("=");
            let is_url = str_eq(params.key_at(i).as_str(), "url");
            if is_url {
                let encoded = encode_component(params.value_at(i).as_str());
                query.append(encoded.as_str());
            } else {
                query.append(params.value_at(i).as_str());
            }
            proof {
                reveal_strlit("&");
                reveal_strlit("=");
                assert("&"@ =~= seq!['&']);
                assert("="@ =~= seq!['=']);
                assert(params@.take(i as int + 1).drop_last() =~= params@.take(i as int));
                assert(params@.take(i as int + 1).last() == params@[i as int]);
                assert(query@ =~= before + segment(params@[i as int]));
                assert(query@ =~= query_string(params@.take(i as int + 1)));
            }
            i += 1;
        }
        proof {
            assert(params@.take(n as int) =~= params@);
        }
        let mut url = String::from_str("https://scrape.shifter.io/v1?api_key=");
        url.append(self.key.as_str());
        url.append(query.as_str());
        url
    }

    /// WebScrapingAPI get request based on the query builder.
    pub fn get(&self, query_builder: QueryBuilder) -> (r: Result<RequestPlan, ApiError>)
        ensures
            headers_ok(query_builder@.headers) ==> (r matches Ok(p) && p.method == HttpMethod::Get
                && p.url@ == api_url(self@, query_builder@.params) && p.headers@
                == query_builder@.headers && p.body is None),
            !headers_ok(query_builder@.headers) ==> r == Err::<RequestPlan, ApiError>(
                ApiError::InvalidHeaders,
            ),
    {
        self.raw_get(query_builder.get_params(), query_builder.get_headers())
    }

    /// WebScrapingAPI post request based on the query builder.
    pub fn post(&self, query_builder: QueryBuilder) -> (r: Result<RequestPlan, ApiError>)
        ensures
            headers_ok(query_builder@.headers) ==> (r matches Ok(p) && p.method == HttpMethod::Post
                && p.url@ == api_url(self@, query_builder@.params) && p.headers@
                == query_builder@.headers && (p.body matches Some(b) && b@ == json_object(
                query_builder@.body,
            ))),
            !headers_ok(query_builder@.headers) ==> r == Err::<RequestPlan, ApiError>(
                ApiError::InvalidHeaders,
            ),
    {
        self.raw_post(
            query_builder.get_params(),
            query_builder.get_headers(),
            query_builder.get_body(),
        )
    }

    /// WebScrapingAPI put request based on the query builder.
    pub fn put(&self, query_builder: QueryBuilder) -> (r: Result<RequestPlan, ApiError>)
        ensures
            headers_ok(query_builder@.headers) ==> (r matches Ok(p) && p.method == HttpMethod::Put
                && p.url@ == api_url(self@, query_builder@.params) && p.headers@
                == query_builder@.headers && (p.body matches Some(b) && b@ == json_object(
                query_builder@.body,
            ))),
            !headers_ok(query_builder@.headers) ==> r == Err::<RequestPlan, ApiError>(
                ApiError::InvalidHeaders,
            ),
    {
        self.raw_put(
            query_builder.get_params(),
            query_builder.get_headers(),
            query_builder.get_body(),
        )
    }

    /// WebScrapingAPI get request based on raw parameter mappings.
    pub fn raw_get(&self, params: Dict, headers: Dict) -> (r: Result<RequestPlan, ApiError>)
        ensures
            headers_ok(headers@) ==> (r matches Ok(p) && p.method == HttpMethod::Get && p.url@
                == api_url(self@, params@) && p.headers@ == headers@ && p.body is None),
            !headers_ok(headers@) ==> r == Err::<RequestPlan, ApiError>(ApiError::InvalidHeaders),
    {
        if !headers_valid(&headers) {
            return Err(ApiError::InvalidHeaders);
        }
        let url = self.params_to_api_url(&params);
        Ok(RequestPlan { method: HttpMethod::Get, url, headers, body: None })
    }

    /// WebScrapingAPI post request based on raw parameter mappings.
    pub fn raw_post(&self, params: Dict, headers: Dict, body: Dict) -> (r: Result<
        RequestPlan,
        ApiError,
    >)
        ensures
            headers_ok(headers@) ==> (r matches Ok(p) && p.method == HttpMethod::Post && p.url@
                == api_url(self@, params@) && p.headers@ == headers@ && (p.body matches Some(b)
                && b@ == json_object(body@))),
            !headers_ok(headers@) ==> r == Err::<RequestPlan, ApiError>(ApiError::InvalidHeaders),
    {
        if !headers_valid(&headers) {
            return Err(ApiError::InvalidHeaders);
        }
        let url = self.params_to_api_url(&params);
        let json = body_to_json(&body);
        Ok(RequestPlan { method: HttpMethod::Post, url, headers, body: Some(json) })
    }

    /// WebScrapingAPI put request based on raw parameter mappings.
    pub fn raw_put(&self, params: Dict, headers: Dict, body: Dict) -> (r: Result<
        RequestPlan,
        ApiError,
    >)
        ensures
            headers_ok(headers@) ==> (r matches Ok(p) && p.method == HttpMethod::Put && p.url@
                == api_url(self@, params@) && p.headers@ == headers@ && (p.body matches Some(b)
                && b@ == json_object(body@))),
            !headers_ok(headers@) ==> r == Err::<RequestPlan, ApiError>(ApiError::InvalidHeaders),
    {
        if !headers_valid(&headers) {
            return Err(ApiError::InvalidHeaders);
        }
        let url = self.params_to_api_url(&params);
        let json = body_to_json(&body);
        Ok(RequestPlan { method: HttpMethod::Put, url, headers, body: Some(json) })
    }
}

} // verus!
