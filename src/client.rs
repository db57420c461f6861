//! Client configuration and the request envelope shared by every call.

use vstd::prelude::*;
use vstd::string::StringExecFns;

use crate::json::{decimal, json_quoted, json_text, number_text, quote, render};

verus! {

/// Default host of the service (the North American cloud instance).
pub const DEFAULT_API_URL: &'static str = "na.myconnectwise.net";

/// Default codebase segment of the request path.
pub const DEFAULT_API_CODEBASE: &'static str = "v4_6_release";

/// Default version segment of the request path.
pub const DEFAULT_API_VERSION: &'static str = "3.0";

/// What `base64::encode` (standard alphabet, padded) makes of the UTF-8 bytes of a text.
pub uninterp spec fn base64_of(text: Seq<char>) -> Seq<char>;

/// Relies on `base64::encode`, which depends on its input alone.
#[verifier::external_body]
fn encode_base64(text: &str) -> (r: String)
    ensures
        r@ == base64_of(text@),
{
    base64::encode(text)
}

/// The operations of a patch document.
#[derive(Debug, Clone, Copy, PartialEq, Eq)]
pub enum PatchOp {
    /// Adds a value to a field that has none.
    Add,
    /// Replaces the value of a field.
    Replace,
    /// Removes a field's value.
    Remove,
}

impl PatchOp {
    /// The name of the operation in a patch document.
    pub open spec fn name(self) -> Seq<char> {
        match self {
            PatchOp::Add => "add"@,
            PatchOp::Replace => "replace"@,
            PatchOp::Remove => "remove"@,
        }
    }

    /// The name of the operation in a patch document.
    pub fn as_str(&self) -> (r: &'static str)
        ensures
            r@ == self.name(),
    {
        match self {
            PatchOp::Add => "add",
            PatchOp::Replace => "replace",
            PatchOp::Remove => "remove",
        }
    }

    /// The name of the operation, as an owned string.
    pub fn to_string(&self) -> (r: String)
        ensures
            r@ == self.name(),
    {
        String::from_str(self.as_str())
    }
}

/// The HTTP method of a request.
#[derive(Debug, Clone, Copy, PartialEq, Eq)]
pub enum Method {
    Get,
    Post,
    Patch,
}

/// A request, complete but for sending: method, URL, headers, query
/// parameters in order, and body.
#[derive(Debug, Clone)]
pub struct Request {
    pub method: Method,
    pub url: String,
    pub headers: Vec<(String, String)>,
    pub query: Vec<(String, String)>,
    pub body: Option<String>,
}

/// The body of a patch: a one-element array holding the operation, the field
/// and the value (given as JSON text).
pub open spec fn patch_document(op: PatchOp, field: Seq<char>, value_text: Seq<char>) -> Seq<char> {
    "[{\"op\":\""@ + op.name() + "\",\"path\":"@ + json_quoted(field) + ",\"value\":"@ + value_text
        + "}]"@
}

/// The value that sets the custom field `id` to the string `value`.
pub open spec fn custom_field_value_text(id: i64, value: Seq<char>) -> Seq<char> {
    "[{\"id\":"@ + decimal(id as int) + ",\"value\":"@ + json_quoted(value) + "}]"@
}

/// Builds the body of a patch.
pub fn patch_body(op: PatchOp, field: &str, value_text: &str) -> (r: String)
    ensures
        r@ == patch_document(op, field@, value_text@),
{
    let mut b = String::from_str("[{\"op\":\"");
    b.append(op.as_str());
    b.append("\",\"path\":");
    b.append(quote(field).as_str());
    b.append(",\"value\":");
    b.append(value_text);
    b.append("}]");
    b
}

/// Builds the value that sets the custom field `id` to the string `value`.
pub fn custom_field_patch_value(id: i64, value: &str) -> (r: String)
    ensures
        r@ == custom_field_value_text(id, value@),
{
    let mut b = String::from_str("[{\"id\":");
    b.append(number_text(id).as_str());
    b.append(",\"value\":");
    b.append(quote(value).as_str());
    b.append("}]");
    b
}

/// Appends copies of the pairs of `from` to `into`, in order.
fn append_pairs(into: &mut Vec<(String, String)>, from: &Vec<(String, String)>)
    ensures
        final(into).deep_view() == old(into).deep_view() + from.deep_view(),
{
    let ghost start = into.deep_view();
    let mut i: usize = 0;
    while i < from.len()
        invariant
            i <= from.len(),
            into.deep_view() == start + from.deep_view().take(i as int),
        decreases from.len() - i,
    {
        let p = (from[i].0.clone(), from[i].1.clone());
        let ghost before = into.deep_view();
        into.push(p);
        proof {
            assert(into.deep_view() =~= before.push(from.deep_view()[i as int]));
            assert(from.deep_view().take(i + 1) =~= from.deep_view().take(i as int).push(
                from.deep_view()[i as int],
            ));
            assert(into.deep_view() =~= start + from.deep_view().take(i + 1));
        }
        i = i + 1;
    }
    proof {
        assert(from.deep_view().take(i as int) =~= from.deep_view());
    }
}

/// Connection settings: the four credentials and the three parts of the base
/// URL. Start with [`Client::new`], override with [`Client::api_url`],
/// [`Client::codebase`] and [`Client::api_version`], and finish with
/// [`Client::build`].
#[derive(Debug, PartialEq, Eq, Clone)]
pub struct Client {
    pub company_id: String,
    pub public_key: String,
    pub private_key: String,
    pub client_id: String,
    pub api_url: String,
    pub codebase: String,
    pub api_version: String,
}

impl Client {
    /// Creates a client with the default host, codebase and version.
    pub fn new(company_id: String, public_key: String, private_key: String, client_id: String) -> (r: Client)
        ensures
            r.company_id == company_id,
            r.public_key == public_key,
            r.private_key == private_key,
            r.client_id == client_id,
            r.api_url@ == DEFAULT_API_URL@,
            r.codebase@ == DEFAULT_API_CODEBASE@,
            r.api_version@ == DEFAULT_API_VERSION@,
    {
        Client {
            company_id,
            public_key,
            private_key,
            client_id,
            api_url: String::from_str(DEFAULT_API_URL),
            codebase: String::from_str(DEFAULT_API_CODEBASE),
            api_version: String::from_str(DEFAULT_API_VERSION),
        }
    }

    /// Finalizes the configuration: an independent copy of every setting.
    pub fn build(&self) -> (r: Client)
        ensures
            r == *self,
    {
        Client {
            company_id: self.company_id.clone(),
            public_key: self.public_key.clone(),
            private_key: self.private_key.clone(),
            client_id: self.client_id.clone(),
            api_url: self.api_url.clone(),
            codebase: self.codebase.clone(),
            api_version: self.api_version.clone(),
        }
    }

    /// This configuration with the version segment of the request path replaced.
    pub open spec fn spec_api_version(self, api_version: String) -> Client {
        Client { api_version, ..self }
    }

    /// Overrides the version segment of the request path.
    #[verifier::when_used_as_spec(spec_api_version)]
    pub fn api_version(self, api_version: String) -> (r: Client)
        ensures
            r == self.spec_api_version(api_version),
    {
        let mut c = self;
        c.api_version = api_version;
        c
    }

    /// This configuration with the host replaced.
    pub open spec fn spec_api_url(self, api_url: String) -> Client {
        Client { api_url, ..self }
    }

    /// Overrides the host.
    #[verifier::when_used_as_spec(spec_api_url)]
    pub fn api_url(self, api_url: String) -> (r: Client)
        ensures
            r == self.spec_api_url(api_url),
    {
        let mut c = self;
        c.api_url = api_url;
        c
    }

    /// This configuration with the codebase segment of the request path replaced.
    pub open spec fn spec_codebase(self, codebase: String) -> Client {
        Client { codebase, ..self }
    }

    /// Overrides the codebase segment of the request path.
    #[verifier::when_used_as_spec(spec_codebase)]
    pub fn codebase(self, codebase: String) -> (r: Client)
        ensures
            r == self.spec_codebase(codebase),
    {
        let mut c = self;
        c.codebase = codebase;
        c
    }

    /// The URL of `path`: `https://{host}/{codebase}/apis/{version}{path}`.
    pub open spec fn url_of(&self, path: Seq<char>) -> Seq<char> {
        "https://"@ + self.api_url@ + "/"@ + self.codebase@ + "/apis/"@ + self.api_version@ + path
    }

    /// The text that the authentication header encodes: `{company}+{public}:{private}`.
    pub open spec fn credentials(&self) -> Seq<char> {
        self.company_id@ + "+"@ + self.public_key@ + ":"@ + self.private_key@
    }

    /// The value of the authentication header.
    pub open spec fn basic_auth(&self) -> Seq<char> {
        "Basic "@ + base64_of(self.credentials())
    }

    /// The headers of every request, in order.
    pub open spec fn envelope(&self) -> Seq<(Seq<char>, Seq<char>)> {
        seq![
            ("Authorization"@, self.basic_auth()),
            ("Content-Type"@, "application/json"@),
            ("clientid"@, self.client_id@),
            ("pagination-type"@, "forward-only"@),
        ]
    }

    /// A request of this client for `path`, with the envelope headers.
    pub open spec fn is_request(
        &self,
        r: Request,
        method: Method,
        path: Seq<char>,
        query: Seq<(Seq<char>, Seq<char>)>,
        body: Option<Seq<char>>,
    ) -> bool {
        &&& r.method == method
        &&& r.url@ == self.url_of(path)
        &&& r.headers.deep_view() == self.envelope()
        &&& r.query.deep_view() == query
        &&& r.body.deep_view() == body
    }

    /// Builds the URL of `path`. The path is taken as it is.
    pub fn gen_api_url(&self, path: &str) -> (r: String)
        ensures
            r@ == self.url_of(path@),
    {
        let mut u = String::from_str("https://");
        u.append(self.api_url.as_str());
        u.append("/");
        u.append(self.codebase.as_str());
        u.append("/apis/");
        u.append(self.api_version.as_str());
        u.append(path);
        u
    }

    /// Builds the authentication header: `Basic ` and the base64 of the credentials.
    pub fn gen_basic_auth(&self) -> (r: String)
        ensures
            r@ == self.basic_auth(),
    {
        let mut creds = self.company_id.clone();
        creds.append("+");
        creds.append(self.public_key.as_str());
        creds.append(":");
        creds.append(self.private_key.as_str());
        let mut h = String::from_str("Basic ");
        h.append(encode_base64(creds.as_str()).as_str());
        h
    }

    /// The headers of every request.
    pub fn envelope_headers(&self) -> (r: Vec<(String, String)>)
        ensures
            r.deep_view() == self.envelope(),
    {
        let mut h: Vec<(String, String)> = Vec::new();
        h.push((String::from_str("Authorization"), self.gen_basic_auth()));
        h.push((String::from_str("Content-Type"), String::from_str("application/json")));
        h.push((String::from_str("clientid"), self.client_id.clone()));
        h.push((String::from_str("pagination-type"), String::from_str("forward-only")));
        proof {
            assert(h.deep_view() =~= self.envelope());
        }
        h
    }

    fn request(&self, method: Method, path: &str, query: Vec<(String, String)>, body: Option<String>) -> (r: Request)
        ensures
            self.is_request(r, method, path@, query.deep_view(), body.deep_view()),
    {
        Request {
            method,
            url: self.gen_api_url(path),
            headers: self.envelope_headers(),
            query,
            body,
        }
    }

    /// The request for a single object at `path`, with the caller's query.
    pub fn get_single_request(&self, path: &str, query: &Vec<(String, String)>) -> (r: Request)
        ensures
            self.is_request(r, Method::Get, path@, query.deep_view(), None),
    {
        let mut q: Vec<(String, String)> = Vec::new();
        append_pairs(&mut q, query);
        proof {
            assert(q.deep_view() =~= query.deep_view());
        }
        self.request(Method::Get, path, q, None)
    }

    /// The request for one page of the collection at `path`: the page's
    /// cursor as `pageid`, then the caller's query.
    pub fn page_request(&self, path: &str, page: &str, query: &Vec<(String, String)>) -> (r: Request)
        ensures
            self.is_request(r, Method::Get, path@, seq![("pageid"@, page@)] + query.deep_view(), None),
    {
        let mut q: Vec<(String, String)> = Vec::new();
        q.push((String::from_str("pageid"), String::from_str(page)));
        proof {
            assert(q.deep_view() =~= seq![("pageid"@, page@)]);
        }
        append_pairs(&mut q, query);
        self.request(Method::Get, path, q, None)
    }

    /// The request that fetches only the custom fields of the object at `path`.
    pub fn custom_fields_request(&self, path: &str) -> (r: Request)
        ensures
            self.is_request(r, Method::Get, path@, seq![("fields"@, "customFields"@)], None),
    {
        let mut q: Vec<(String, String)> = Vec::new();
        q.push((String::from_str("fields"), String::from_str("customFields")));
        proof {
            assert(q.deep_view() =~= seq![("fields"@, "customFields"@)]);
        }
        self.request(Method::Get, path, q, None)
    }

    /// The request that creates an object at `path` from a JSON body.
    pub fn post_request(&self, path: &str, body: String) -> (r: Request)
        ensures
            self.is_request(r, Method::Post, path@, seq![], Some(body@)),
    {
        let q: Vec<(String, String)> = Vec::new();
        proof {
            assert(q.deep_view() =~= seq![]);
        }
        self.request(Method::Post, path, q, Some(body))
    }

    /// The request that applies `op` to the field `field` of the object at
    /// `path`, with the value given as JSON text.
    pub fn patch_text_request(&self, path: &str, op: PatchOp, field: &str, value_text: &str) -> (r: Request)
        ensures
            self.is_request(r, Method::Patch, path@, seq![], Some(patch_document(op, field@, value_text@))),
    {
        let q: Vec<(String, String)> = Vec::new();
        proof {
            assert(q.deep_view() =~= seq![]);
        }
        self.request(Method::Patch, path, q, Some(patch_body(op, field, value_text)))
    }

    /// The request that applies `op` to the field `field` of the object at
    /// `path`, with the value `value`.
    pub fn patch_request(&self, path: &str, op: PatchOp, field: &str, value: &serde_json::Value) -> (r: Request)
        ensures
            self.is_request(r, Method::Patch, path@, seq![], Some(patch_document(op, field@, json_text(*value)))),
    {
        self.patch_text_request(path, op, field, render(value).as_str())
    }

    /// The request that sets the custom field `id` of the object at `path`
    /// to the string `value`, replacing the whole `customFields` collection.
    pub fn patch_custom_field_request(&self, path: &str, id: i64, value: &str) -> (r: Request)
        ensures
            self.is_request(
                r,
                Method::Patch,
                path@,
                seq![],
                Some(patch_document(PatchOp::Replace, "customFields"@, custom_field_value_text(id, value@))),
            ),
    {
        self.patch_text_request(path, PatchOp::Replace, "customFields", custom_field_patch_value(id, value).as_str())
    }
}

/// However a client was configured before, overriding its host with `h`, its
/// codebase with `c` and its version with `v` makes the URL of a path `p`
/// exactly `https://h/c/apis/v` followed by `p`.
pub proof fn lemma_url_from_overrides(base: Client, h: String, c: String, v: String, p: Seq<char>)
    ensures
        base.api_url(h).codebase(c).api_version(v).url_of(p) == "https://"@ + h@ + "/"@ + c@ + "/apis/"@ + v@ + p,
        base.api_version(v).codebase(c).api_url(h).url_of(p) == "https://"@ + h@ + "/"@ + c@ + "/apis/"@ + v@ + p,
{
}

/// The authentication header depends on the company, public key and private
/// key alone: not on the client id, the host, the codebase or the version.
pub proof fn lemma_auth_depends_on_keys_only(a: Client, b: Client)
    requires
        a.company_id@ == b.company_id@,
        a.public_key@ == b.public_key@,
        a.private_key@ == b.private_key@,
    ensures
        a.basic_auth() == b.basic_auth(),
{
}

} // verus!
