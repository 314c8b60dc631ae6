//! The query builder: accumulates the inputs of one upcoming request.
//!
//! A builder holds three independent mappings — query parameters, request
//! headers and body fields. Each known parameter name has a setter/getter
//! pair; the setter stores an opaque string value under its fixed key
//! (overwriting any prior value), and the getter retrieves it. A getter
//! invoked before the matching setter reports the missing-parameter error
//! rather than defaulting to an empty value.

use vstd::prelude::*;

use crate::errors::ApiError;
use crate::kv::{distinct_keys, has_key, lookup, Dict, EntryView};

verus! {

/// What a builder holds, as specifications see it: its three mappings.
pub ghost struct BuilderView {
    pub params: Seq<EntryView>,
    pub headers: Seq<EntryView>,
    pub body: Seq<EntryView>,
}

/// The query builder struct that contains the params, headers and body of a
/// request.
pub struct QueryBuilder {
    params: Dict,
    headers: Dict,
    body: Dict,
}

impl View for QueryBuilder {
    type V = BuilderView;

    closed spec fn view(&self) -> BuilderView {
        BuilderView { params: self.params@, headers: self.headers@, body: self.body@ }
    }
}

impl QueryBuilder {
    /// Keys are unique within each of the three mappings.
    pub open spec fn wf(&self) -> bool {
        distinct_keys(self@.params) && distinct_keys(self@.headers) && distinct_keys(self@.body)
    }

    /// QueryBuilder constructor: all three mappings start empty.
    pub fn new() -> (r: QueryBuilder)
        ensures
            r@.params == Seq::<EntryView>::empty(),
            r@.headers == Seq::<EntryView>::empty(),
            r@.body == Seq::<EntryView>::empty(),
            r.wf(),
    {
        QueryBuilder { params: Dict::new(), headers: Dict::new(), body: Dict::new() }
    }

    /// Returns a copy of the parameter mapping.
    pub fn get_params(&self) -> (r: Dict)
        ensures
            r@ == self@.params,
    {
        self.params.duplicate()
    }

    /// Sets the header mapping for the QueryBuilder, replacing the prior
    /// mapping entirely rather than merging into it.
    pub fn headers(&mut self, headers: Dict)
        requires
            old(self).wf(),
            headers.wf(),
        ensures
            final(self).wf(),
            final(self)@.headers == headers@,
            final(self)@.params == old(self)@.params,
            final(self)@.body == old(self)@.body,
    {
        self.headers = headers;
    }

    /// Returns a copy of the header mapping.
    pub fn get_headers(&self) -> (r: Dict)
        ensures
            r@ == self@.headers,
    {
        self.headers.duplicate()
    }

    /// Sets the body mapping for the QueryBuilder, replacing the prior
    /// mapping entirely rather than merging into it.
    pub fn body(&mut self, body: Dict)
        requires
            old(self).wf(),
            body.wf(),
        ensures
            final(self).wf(),
            final(self)@.body == body@,
            final(self)@.params == old(self)@.params,
            final(self)@.headers == old(self)@.headers,
    {
        self.body = body;
    }

    /// Returns a copy of the body mapping.
    pub fn get_body(&self) -> (r: Dict)
        ensures
            r@ == self@.body,
    {
        self.body.duplicate()
    }

    /// Stores `value` under the parameter name `name`, overwriting any prior
    /// value and leaving every other parameter unchanged.
    fn set_param(&mut self, name: &str, value: &str)
        requires
            old(self).wf(),
        ensures
            final(self).wf(),
            lookup(final(self)@.params, name@) == Some(value@),
            forall|k: Seq<char>|
                k != name@ ==> lookup(final(self)@.params, k) == lookup(old(self)@.params, k),
            final(self)@.headers == old(self)@.headers,
            final(self)@.body == old(self)@.body,
    {
        self.params.set(name, value);
    }

    /// The value stored under the parameter name `name`, or the
    /// missing-parameter error when its setter was never called.
    fn get_param(&self, name: &str) -> (r: Result<String, ApiError>)
        ensures
            lookup(self@.params, name@) matches Some(v) ==> (r matches Ok(s) && s@ == v),
            lookup(self@.params, name@) is None ==> r == Err::<String, ApiError>(
                ApiError::MissingParameter,
            ),
    {
        proof {
            crate::kv::lemma_lookup_has_key(self@.params, name@);
        }
        match self.params.get(name) {
            Some(value) => Ok(value),
            None => Err(ApiError::MissingParameter),
        }
    }

    /// Sets the url parameter for the QueryBuilder.
    pub fn url(&mut self, value: &str)
        requires
            old(self).wf(),
        ensures
            final(self).wf(),
            lookup(final(self)@.params, "url"@) == Some(value@),
            forall|k: Seq<char>|
                k != "url"@ ==> lookup(final(self)@.params, k) == lookup(old(self)@.params, k),
            final(self)@.headers == old(self)@.headers,
            final(self)@.body == old(self)@.body,
    {
        self.set_param("url", value);
    }

    /// Returns the url parameter for the QueryBuilder.
    pub fn get_url(&self) -> (r: Result<String, ApiError>)
        ensures
            lookup(self@.params, "url"@) matches Some(v) ==> (r matches Ok(s) && s@ == v),
            lookup(self@.params, "url"@) is None ==> r == Err::<String, ApiError>(
                ApiError::MissingParameter,
            ),
    {
        self.get_param("url")
    }

    /// Sets the render_js parameter for the QueryBuilder.
    pub fn render_js(&mut self, value: &str)
        requires
            old(self).wf(),
        ensures
            final(self).wf(),
            lookup(final(self)@.params, "render_js"@) == Some(value@),
            forall|k: Seq<char>|
                k != "render_js"@ ==> lookup(final(self)@.params, k) == lookup(
                    old(self)@.params,
                    k,
                ),
            final(self)@.headers == old(self)@.headers,
            final(self)@.body == old(self)@.body,
    {
        self.set_param("render_js", value);
    }

    /// Returns the render_js parameter for the QueryBuilder.
    pub fn get_render_js(&self) -> (r: Result<String, ApiError>)
        ensures
            lookup(self@.params, "render_js"@) matches Some(v) ==> (r matches Ok(s) && s@ == v),
            lookup(self@.params, "render_js"@) is None ==> r == Err::<String, ApiError>(
                ApiError::MissingParameter,
            ),
    {
        self.get_param("render_js")
    }

    /// Sets the proxy_type parameter for the QueryBuilder.
    pub fn proxy_type(&mut self, value: &str)
        requires
            old(self).wf(),
        ensures
            final(self).wf(),
            lookup(final(self)@.params, "proxy_type"@) == Some(value@),
            forall|k: Seq<char>|
                k != "proxy_type"@ ==> lookup(final(self)@.params, k) == lookup(
                    old(self)@.params,
                    k,
                ),
            final(self)@.headers == old(self)@.headers,
            final(self)@.body == old(self)@.body,
    {
        self.set_param("proxy_type", value);
    }

    /// Returns the proxy_type parameter for the QueryBuilder.
    pub fn get_proxy_type(&self) -> (r: Result<String, ApiError>)
        ensures
            lookup(self@.params, "proxy_type"@) matches Some(v) ==> (r matches Ok(s) && s@ == v),
            lookup(self@.params, "proxy_type"@) is None ==> r == Err::<String, ApiError>(
                ApiError::MissingParameter,
            ),
    {
        self.get_param("proxy_type")
    }

    /// Sets the country parameter for the QueryBuilder.
    pub fn country(&mut self, value: &str)
        requires
            old(self).wf(),
        ensures
            final(self).wf(),
            lookup(final(self)@.params, "country"@) == Some(value@),
            forall|k: Seq<char>|
                k != "country"@ ==> lookup(final(self)@.params, k) == lookup(old(self)@.params, k),
            final(self)@.headers == old(self)@.headers,
            final(self)@.body == old(self)@.body,
    {
        self.set_param("country", value);
    }

    /// Returns the country parameter for the QueryBuilder.
    pub fn get_country(&self) -> (r: Result<String, ApiError>)
        ensures
            lookup(self@.params, "country"@) matches Some(v) ==> (r matches Ok(s) && s@ == v),
            lookup(self@.params, "country"@) is None ==> r == Err::<String, ApiError>(
                ApiError::MissingParameter,
            ),
    {
        self.get_param("country")
    }

    /// Sets the keep_headers parameter for the QueryBuilder.
    pub fn keep_headers(&mut self, value: &str)
        requires
            old(self).wf(),
        ensures
            final(self).wf(),
            lookup(final(self)@.params, "keep_headers"@) == Some(value@),
            forall|k: Seq<char>|
                k != "keep_headers"@ ==> lookup(final(self)@.params, k) == lookup(
                    old(self)@.params,
                    k,
                ),
            final(self)@.headers == old(self)@.headers,
            final(self)@.body == old(self)@.body,
    {
        self.set_param("keep_headers", value);
    }

    /// Returns the keep_headers parameter for the QueryBuilder.
    pub fn get_keep_headers(&self) -> (r: Result<String, ApiError>)
        ensures
            lookup(self@.params, "keep_headers"@) matches Some(v) ==> (r matches Ok(s) && s@ == v),
            lookup(self@.params, "keep_headers"@) is None ==> r == Err::<String, ApiError>(
                ApiError::MissingParameter,
            ),
    {
        self.get_param("keep_headers")
    }

    /// Sets the session parameter for the QueryBuilder.
    pub fn session(&mut self, value: &str)
        requires
            old(self).wf(),
        ensures
            final(self).wf(),
            lookup(final(self)@.params, "session"@) == Some(value@),
            forall|k: Seq<char>|
                k != "session"@ ==> lookup(final(self)@.params, k) == lookup(old(self)@.params, k),
            final(self)@.headers == old(self)@.headers,
            final(self)@.body == old(self)@.body,
    {
        self.set_param("session", value);
    }

    /// Returns the session parameter for the QueryBuilder.
    pub fn get_session(&self) -> (r: Result<String, ApiError>)
        ensures
            lookup(self@.params, "session"@) matches Some(v) ==> (r matches Ok(s) && s@ == v),
            lookup(self@.params, "session"@) is None ==> r == Err::<String, ApiError>(
                ApiError::MissingParameter,
            ),
    {
        self.get_param("session")
    }

    /// Sets the timeout parameter for the QueryBuilder.
    pub fn timeout(&mut self, value: &str)
        requires
            old(self).wf(),
        ensures
            final(self).wf(),
            lookup(final(self)@.params, "timeout"@) == Some(value@),
            forall|k: Seq<char>|
                k != "timeout"@ ==> lookup(final(self)@.params, k) == lookup(old(self)@.params, k),
            final(self)@.headers == old(self)@.headers,
            final(self)@.body == old(self)@.body,
    {
        self.set_param("timeout", value);
    }

    /// Returns the timeout parameter for the QueryBuilder.
    pub fn get_timeout(&self) -> (r: Result<String, ApiError>)
        ensures
            lookup(self@.params, "timeout"@) matches Some(v) ==> (r matches Ok(s) && s@ == v),
            lookup(self@.params, "timeout"@) is None ==> r == Err::<String, ApiError>(
                ApiError::MissingParameter,
            ),
    {
        self.get_param("timeout")
    }

    /// Sets the device parameter for the QueryBuilder.
    pub fn device(&mut self, value: &str)
        requires
            old(self).wf(),
        ensures
            final(self).wf(),
            lookup(final(self)@.params, "device"@) == Some(value@),
            forall|k: Seq<char>|
                k != "device"@ ==> lookup(final(self)@.params, k) == lookup(old(self)@.params, k),
            final(self)@.headers == old(self)@.headers,
            final(self)@.body == old(self)@.body,
    {
        self.set_param("device", value);
    }

    /// Returns the device parameter for the QueryBuilder.
    pub fn get_device(&self) -> (r: Result<String, ApiError>)
        ensures
            lookup(self@.params, "device"@) matches Some(v) ==> (r matches Ok(s) && s@ == v),
            lookup(self@.params, "device"@) is None ==> r == Err::<String, ApiError>(
                ApiError::MissingParameter,
            ),
    {
        self.get_param("device")
    }

    /// Sets the wait_until parameter for the QueryBuilder.
    pub fn wait_until(&mut self, value: &str)
        requires
            old(self).wf(),
        ensures
            final(self).wf(),
            lookup(final(self)@.params, "wait_until"@) == Some(value@),
            forall|k: Seq<char>|
                k != "wait_until"@ ==> lookup(final(self)@.params, k) == lookup(
                    old(self)@.params,
                    k,
                ),
            final(self)@.headers == old(self)@.headers,
            final(self)@.body == old(self)@.body,
    {
        self.set_param("wait_until", value);
    }

    /// Returns the wait_until parameter for the QueryBuilder.
    pub fn get_wait_until(&self) -> (r: Result<String, ApiError>)
        ensures
            lookup(self@.params, "wait_until"@) matches Some(v) ==> (r matches Ok(s) && s@ == v),
            lookup(self@.params, "wait_until"@) is None ==> r == Err::<String, ApiError>(
                ApiError::MissingParameter,
            ),
    {
        self.get_param("wait_until")
    }

    /// Sets the wait_for parameter for the QueryBuilder.
    pub fn wait_for(&mut self, value: &str)
        requires
            old(self).wf(),
        ensures
            final(self).wf(),
            lookup(final(self)@.params, "wait_for"@) == Some(value@),
            forall|k: Seq<char>|
                k != "wait_for"@ ==> lookup(final(self)@.params, k) == lookup(old(self)@.params, k),
            final(self)@.headers == old(self)@.headers,
            final(self)@.body == old(self)@.body,
    {
        self.set_param("wait_for", value);
    }

    /// Returns the wait_for parameter for the QueryBuilder.
    pub fn get_wait_for(&self) -> (r: Result<String, ApiError>)
        ensures
            lookup(self@.params, "wait_for"@) matches Some(v) ==> (r matches Ok(s) && s@ == v),
            lookup(self@.params, "wait_for"@) is None ==> r == Err::<String, ApiError>(
                ApiError::MissingParameter,
            ),
    {
        self.get_param("wait_for")
    }

    /// Sets the wait_for_css parameter for the QueryBuilder.
    pub fn wait_for_css(&mut self, value: &str)
        requires
            old(self).wf(),
        ensures
            final(self).wf(),
            lookup(final(self)@.params, "wait_for_css"@) == Some(value@),
            forall|k: Seq<char>|
                k != "wait_for_css"@ ==> lookup(final(self)@.params, k) == lookup(
                    old(self)@.params,
                    k,
                ),
            final(self)@.headers == old(self)@.headers,
            final(self)@.body == old(self)@.body,
    {
        self.set_param("wait_for_css", value);
    }

    /// Returns the wait_for_css parameter for the QueryBuilder.
    pub fn get_wait_for_css(&self) -> (r: Result<String, ApiError>)
        ensures
            lookup(self@.params, "wait_for_css"@) matches Some(v) ==> (r matches Ok(s) && s@ == v),
            lookup(self@.params, "wait_for_css"@) is None ==> r == Err::<String, ApiError>(
                ApiError::MissingParameter,
            ),
    {
        self.get_param("wait_for_css")
    }

    /// Sets the screenshot parameter for the QueryBuilder.
    pub fn screenshot(&mut self, value: &str)
        requires
            old(self).wf(),
        ensures
            final(self).wf(),
            lookup(final(self)@.params, "screenshot"@) == Some(value@),
            forall|k: Seq<char>|
                k != "screenshot"@ ==> lookup(final(self)@.params, k) == lookup(
                    old(self)@.params,
                    k,
                ),
            final(self)@.headers == old(self)@.headers,
            final(self)@.body == old(self)@.body,
    {
        self.set_param("screenshot", value);
    }

    /// Returns the screenshot parameter for the QueryBuilder.
    pub fn get_screenshot(&self) -> (r: Result<String, ApiError>)
        ensures
            lookup(self@.params, "screenshot"@) matches Some(v) ==> (r matches Ok(s) && s@ == v),
            lookup(self@.params, "screenshot"@) is None ==> r == Err::<String, ApiError>(
                ApiError::MissingParameter,
            ),
    {
        self.get_param("screenshot")
    }

    /// Sets the extract_rules parameter for the QueryBuilder.
    pub fn extract_rules(&mut self, value: &str)
        requires
            old(self).wf(),
        ensures
            final(self).wf(),
            lookup(final(self)@.params, "extract_rules"@) == Some(value@),
            forall|k: Seq<char>|
                k != "extract_rules"@ ==> lookup(final(self)@.params, k) == lookup(
                    old(self)@.params,
                    k,
                ),
            final(self)@.headers == old(self)@.headers,
            final(self)@.body == old(self)@.body,
    {
        self.set_param("extract_rules", value);
    }

    /// Returns the extract_rules parameter for the QueryBuilder.
    pub fn get_extract_rules(&self) -> (r: Result<String, ApiError>)
        ensures
            lookup(self@.params, "extract_rules"@) matches Some(v) ==> (r matches Ok(s) && s@
                == v),
            lookup(self@.params, "extract_rules"@) is None ==> r == Err::<String, ApiError>(
                ApiError::MissingParameter,
            ),
    {
        self.get_param("extract_rules")
    }

    /// Sets the disable_stealth parameter for the QueryBuilder.
    pub fn disable_stealth(&mut self, value: &str)
        requires
            old(self).wf(),
        ensures
            final(self).wf(),
            lookup(final(self)@.params, "disable_stealth"@) == Some(value@),
            forall|k: Seq<char>|
                k != "disable_stealth"@ ==> lookup(final(self)@.params, k) == lookup(
                    old(self)@.params,
                    k,
                ),
            final(self)@.headers == old(self)@.headers,
            final(self)@.body == old(self)@.body,
    {
        self.set_param("disable_stealth", value);
    }

    /// Returns the disable_stealth parameter for the QueryBuilder.
    pub fn get_disable_stealth(&self) -> (r: Result<String, ApiError>)
        ensures
            lookup(self@.params, "disable_stealth"@) matches Some(v) ==> (r matches Ok(s) && s@
                == v),
            lookup(self@.params, "disable_stealth"@) is None ==> r == Err::<String, ApiError>(
                ApiError::MissingParameter,
            ),
    {
        self.get_param("disable_stealth")
    }

    /// Sets the auto_parser parameter for the QueryBuilder.
    pub fn auto_parser(&mut self, value: &str)
        requires
            old(self).wf(),
        ensures
            final(self).wf(),
            lookup(final(self)@.params, "auto_parser"@) == Some(value@),
            forall|k: Seq<char>|
                k != "auto_parser"@ ==> lookup(final(self)@.params, k) == lookup(
                    old(self)@.params,
                    k,
                ),
            final(self)@.headers == old(self)@.headers,
            final(self)@.body == old(self)@.body,
    {
        self.set_param("auto_parser", value);
    }

    /// Returns the auto_parser parameter for the QueryBuilder.
    pub fn get_auto_parser(&self) -> (r: Result<String, ApiError>)
        ensures
            lookup(self@.params, "auto_parser"@) matches Some(v) ==> (r matches Ok(s) && s@ == v),
            lookup(self@.params, "auto_parser"@) is None ==> r == Err::<String, ApiError>(
                ApiError::MissingParameter,
            ),
    {
        self.get_param("auto_parser")
    }

    /// Sets the js_instructions parameter for the QueryBuilder.
    pub fn js_instructions(&mut self, value: &str)
        requires
            old(self).wf(),
        ensures
            final(self).wf(),
            lookup(final(self)@.params, "js_instructions"@) == Some(value@),
            forall|k: Seq<char>|
                k != "js_instructions"@ ==> lookup(final(self)@.params, k) == lookup(
                    old(self)@.params,
                    k,
                ),
            final(self)@.headers == old(self)@.headers,
            final(self)@.body == old(self)@.body,
    {
        self.set_param("js_instructions", value);
    }

    /// Returns the js_instructions parameter for the QueryBuilder.
    pub fn get_js_instructions(&self) -> (r: Result<String, ApiError>)
        ensures
            lookup(self@.params, "js_instructions"@) matches Some(v) ==> (r matches Ok(s) && s@
                == v),
            lookup(self@.params, "js_instructions"@) is None ==> r == Err::<String, ApiError>(
                ApiError::MissingParameter,
            ),
    {
        self.get_param("js_instructions")
    }
}

} // verus!
