//! The client: its configuration, the request that an agent run sends, and
//! how the reply is read.
use vstd::prelude::*;
use crate::body::{body_members, object_text, pairs_view, AgentRunParams};
use crate::json::{parse_json, parsed_json};

verus! {

#[verifier::external_type_specification]
#[verifier::external_body]
pub struct ExHttpClient(reqwest::Client);

/// The fixed path of the agent-run endpoint, appended to the base URL.
pub open spec fn run_path() -> Seq<char> {
    "/api/agents/run"@
}

/// The headers of every request: the content type always, and a bearer
/// authorization only when a token is configured.
pub open spec fn header_list(token: Option<Seq<char>>) -> Seq<(Seq<char>, Seq<char>)> {
    let always = seq![("Content-Type"@, "application/json"@)];
    match token {
        Some(t) => always.push(("Authorization"@, "Bearer "@ + t)),
        None => always,
    }
}

/// A client of the agent-run service. The base URL and the token are fixed
/// at construction; the transport is shared by all calls.
pub struct AIOSClient {
    base_url: String,
    token: Option<String>,
    client: reqwest::Client,
}

/// One request of an agent run, ready for the transport: a POST of `body` to
/// `url` with `headers`.
pub struct AgentRequest {
    pub url: String,
    pub headers: Vec<(String, String)>,
    pub body: String,
}

impl AIOSClient {
    pub closed spec fn base_url_spec(&self) -> Seq<char> {
        self.base_url@
    }

    pub closed spec fn token_spec(&self) -> Option<Seq<char>> {
        match self.token {
            Some(t) => Some(t@),
            None => None,
        }
    }

    pub closed spec fn transport_spec(&self) -> reqwest::Client {
        self.client
    }

    /// Stores the base URL and the token as given, with no check of either,
    /// and the transport that every call will use.
    pub fn new(base_url: &str, token: Option<String>, client: reqwest::Client) -> (r: Self)
        ensures
            r.base_url_spec() == base_url@,
            r.token_spec() == match token {
                Some(t) => Some(t@),
                None => None::<Seq<char>>,
            },
            r.transport_spec() == client,
    {
        AIOSClient { base_url: String::from_str(base_url), token, client }
    }

    /// The transport shared by all calls of this client.
    pub fn transport(&self) -> (r: &reqwest::Client)
        ensures
            *r == self.transport_spec(),
    {
        &self.client
    }

    /// The target of an agent run: the base URL followed by the fixed path.
    pub fn target_url(&self) -> (r: String)
        ensures
            r@ == self.base_url_spec() + run_path(),
    {
        let mut url = self.base_url.clone();
        url.append("/api/agents/run");
        url
    }

    /// The headers of a request, as name and value.
    pub fn request_headers(&self) -> (r: Vec<(String, String)>)
        ensures
            pairs_view(r@) == header_list(self.token_spec()),
    {
        let mut r: Vec<(String, String)> = Vec::new();
        r.push((String::from_str("Content-Type"), String::from_str("application/json")));
        match &self.token {
            Some(t) => {
                let value = String::from_str("Bearer ").concat(t.as_str());
                r.push((String::from_str("Authorization"), value));
            },
            None => {},
        }
        assert(pairs_view(r@) =~= header_list(self.token_spec()));
        r
    }

    /// The request of an agent run with these parameters. It depends on the
    /// client's configuration and the parameters alone, and it is always
    /// built.
    pub fn agent_request(&self, params: &AgentRunParams) -> (r: Result<
        AgentRequest,
        serde_json::Error,
    >)
        ensures
            r is Ok,
            r matches Ok(req) ==> {
                &&& req.url@ == self.base_url_spec() + run_path()
                &&& pairs_view(req.headers@) == header_list(self.token_spec())
                &&& req.body@ == object_text(
                    body_members(params.agent_name@, params.task@, params.session_view()),
                )
            },
    {
        let body = match params.to_json_body() {
            Ok(b) => b,
            Err(e) => return Err(e),
        };
        Ok(AgentRequest { url: self.target_url(), headers: self.request_headers(), body })
    }
}

/// Reads the reply of an agent run: the body parsed as JSON, whatever the
/// HTTP status. A 4xx or 5xx reply with a JSON body is a success; a body that
/// is not JSON is an error.
pub fn read_reply(_status: u16, body: &[u8]) -> (r: Result<serde_json::Value, serde_json::Error>)
    ensures
        r is Ok <==> parsed_json(body@) is Some,
        r matches Ok(v) ==> parsed_json(body@) == Some(v),
{
    parse_json(body)
}

} // verus!
