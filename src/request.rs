//! Request methods, request descriptions and the builder of the
//! container access-policy request.
use vstd::prelude::*;
use vstd::string::*;
use crate::credential::AuthorizationToken;
use crate::error::{Error, ErrorView};
use crate::executor::{RawResponse, Transport};
use crate::responses::{acl_outcome, acl_result_view, GetACLResponse};
use crate::primitives::{
    append_query_pair, parse_url, push_segment, url_append_pair_of, url_parse_of,
    url_push_segment_of, URL_TEXT_LIMIT,
};

verus! {

/// The HTTP methods that the pipeline sends.
#[derive(Clone, Copy, Debug, PartialEq, Eq, Structural)]
pub enum Method {
    Get,
    Put,
    Post,
    Delete,
}

impl Method {
    /// The method's name on the wire.
    pub open spec fn name(self) -> Seq<char> {
        match self {
            Method::Get => seq!['G', 'E', 'T'],
            Method::Put => seq!['P', 'U', 'T'],
            Method::Post => seq!['P', 'O', 'S', 'T'],
            Method::Delete => seq!['D', 'E', 'L', 'E', 'T', 'E'],
        }
    }

    pub fn as_str(&self) -> (r: &'static str)
        ensures
            r@ == self.name(),
    {
        match self {
            Method::Get => {
                proof {
                    reveal_strlit("GET");
                }
                assert("GET"@ =~= seq!['G', 'E', 'T']);
                "GET"
            },
            Method::Put => {
                proof {
                    reveal_strlit("PUT");
                }
                assert("PUT"@ =~= seq!['P', 'U', 'T']);
                "PUT"
            },
            Method::Post => {
                proof {
                    reveal_strlit("POST");
                }
                assert("POST"@ =~= seq!['P', 'O', 'S', 'T']);
                "POST"
            },
            Method::Delete => {
                proof {
                    reveal_strlit("DELETE");
                }
                assert("DELETE"@ =~= seq!['D', 'E', 'L', 'E', 'T', 'E']);
                "DELETE"
            },
        }
    }
}

/// The decimal digit of `d`.
pub open spec fn digit_char(d: nat) -> char {
    if d == 0 { '0' } else if d == 1 { '1' } else if d == 2 { '2' } else if d == 3 { '3' }
    else if d == 4 { '4' } else if d == 5 { '5' } else if d == 6 { '6' } else if d == 7 { '7' }
    else if d == 8 { '8' } else { '9' }
}

/// The decimal text of `n`, without leading zeros.
pub open spec fn decimal(n: nat) -> Seq<char>
    decreases n,
{
    if n < 10 {
        seq![digit_char(n)]
    } else {
        decimal(n / 10).push(digit_char(n % 10))
    }
}

fn digit_str(d: u64) -> (r: &'static str)
    requires
        d < 10,
    ensures
        r@ == seq![digit_char(d as nat)],
{
    match d {
            0 => {
                proof {
                    reveal_strlit("0");
                }
                assert("0"@ =~= seq![digit_char(0)]);
                "0"
            },
            1 => {
                proof {
                    reveal_strlit("1");
                }
                assert("1"@ =~= seq![digit_char(1)]);
                "1"
            },
            2 => {
                proof {
                    reveal_strlit("2");
                }
                assert("2"@ =~= seq![digit_char(2)]);
                "2"
            },
            3 => {
                proof {
                    reveal_strlit("3");
                }
                assert("3"@ =~= seq![digit_char(3)]);
                "3"
            },
            4 => {
                proof {
                    reveal_strlit("4");
                }
                assert("4"@ =~= seq![digit_char(4)]);
                "4"
            },
            5 => {
                proof {
                    reveal_strlit("5");
                }
                assert("5"@ =~= seq![digit_char(5)]);
                "5"
            },
            6 => {
                proof {
                    reveal_strlit("6");
                }
                assert("6"@ =~= seq![digit_char(6)]);
                "6"
            },
            7 => {
                proof {
                    reveal_strlit("7");
                }
                assert("7"@ =~= seq![digit_char(7)]);
                "7"
            },
            8 => {
                proof {
                    reveal_strlit("8");
                }
                assert("8"@ =~= seq![digit_char(8)]);
                "8"
            },
            _ => {
                proof {
                    reveal_strlit("9");
                }
                assert("9"@ =~= seq![digit_char(9)]);
                "9"
            },
    }
}

/// The decimal text of `n`.
pub fn decimal_string(n: u64) -> (r: String)
    ensures
        r@ == decimal(n as nat),
    decreases n,
{
    if n < 10 {
        String::from_str(digit_str(n))
    } else {
        let mut s = decimal_string(n / 10);
        s.append(digit_str(n % 10));
        s
    }
}

/// A request ready to send.
#[derive(Clone, Debug)]
pub struct RequestDescription {
    pub method: Method,
    /// The full URL, query included.
    pub url: String,
    /// Header names and values, in the order they are sent.
    pub headers: Vec<(String, String)>,
    pub body: Option<Vec<u8>>,
}

/// Header names and values as character sequences.
pub open spec fn headers_view(headers: Seq<(String, String)>) -> Seq<(Seq<char>, Seq<char>)> {
    headers.map_values(|h: (String, String)| (h.0@, h.1@))
}

/// Why composing a URL stopped: the text grew past what the URL calls take.
pub open spec fn url_too_long_message() -> Seq<char> {
    "URL text is too long"@
}

/// Why composing a URL stopped: the URL cannot take path segments.
pub open spec fn url_cannot_be_base_message() -> Seq<char> {
    "URL cannot be a base"@
}

/// Why composing a URL stopped: the URL cannot take a query.
pub open spec fn url_no_query_message() -> Seq<char> {
    "URL cannot take a query"@
}

/// A composed URL, or the text of the error that stopped its composition,
/// with the pair `name=value` appended to its query.
pub open spec fn with_query_pair(url: Result<Seq<char>, Seq<char>>, name: Seq<char>, value: Seq<
    char,
>) -> Result<Seq<char>, Seq<char>> {
    match url {
        Err(m) => Err(m),
        Ok(u) => if u.len() > URL_TEXT_LIMIT || name.len() > URL_TEXT_LIMIT || value.len()
            > URL_TEXT_LIMIT {
            Err(url_too_long_message())
        } else {
            match url_append_pair_of(u, name, value) {
                Some(x) => Ok(x),
                None => Err(url_no_query_message()),
            }
        },
    }
}

/// Appends `name=value` to the query of `url`.
fn add_query_pair(url: &String, name: &str, value: &str) -> (r: Result<String, Error>)
    ensures
        match with_query_pair(Ok(url@), name@, value@) {
            Ok(u) => r matches Ok(x) && x@ == u,
            Err(m) => r matches Err(e) && e@ == ErrorView::UrlParse(m),
        },
{
    if url.as_str().unicode_len() > URL_TEXT_LIMIT || name.unicode_len() > URL_TEXT_LIMIT
        || value.unicode_len() > URL_TEXT_LIMIT {
        return Err(Error::UrlParse(String::from_str("URL text is too long")));
    }
    match append_query_pair(url.as_str(), name, value) {
        Some(u) => Ok(u),
        None => Err(Error::UrlParse(String::from_str("URL cannot take a query"))),
    }
}

/// The client of one container of a storage account.
pub struct ContainerClient {
    /// The account's service endpoint, an absolute URL.
    pub endpoint: String,
    pub container_name: String,
    pub credential: AuthorizationToken,
}

impl ContainerClient {
    pub fn new(endpoint: String, container_name: String, credential: AuthorizationToken) -> (r:
        ContainerClient)
        ensures
            r == (ContainerClient { endpoint, container_name, credential }),
    {
        ContainerClient { endpoint, container_name, credential }
    }

    /// The container's URL: the parsed endpoint with the container's name
    /// pushed as a path segment, or the text of the error that stopped it.
    pub open spec fn url_spec(&self) -> Result<Seq<char>, Seq<char>> {
        match url_parse_of(self.endpoint@) {
            Err(m) => Err(m),
            Ok(base) => if base.len() > URL_TEXT_LIMIT || self.container_name@.len()
                > URL_TEXT_LIMIT {
                Err(url_too_long_message())
            } else {
                match url_push_segment_of(base, self.container_name@) {
                    Some(u) => Ok(u),
                    None => Err(url_cannot_be_base_message()),
                }
            },
        }
    }

    /// The path that requests on the container sign.
    pub open spec fn resource_path(&self) -> Seq<char> {
        seq!['/'] + self.container_name@
    }

    /// Composes the container's URL.
    pub fn url_with_segments(&self) -> (r: Result<String, Error>)
        ensures
            match self.url_spec() {
                Ok(u) => r matches Ok(s) && s@ == u,
                Err(m) => r matches Err(e) && e@ == ErrorView::UrlParse(m),
            },
    {
        match parse_url(self.endpoint.as_str()) {
            Err(m) => Err(Error::UrlParse(m)),
            Ok(base) => {
                if base.as_str().unicode_len() > URL_TEXT_LIMIT
                    || self.container_name.as_str().unicode_len() > URL_TEXT_LIMIT {
                    return Err(Error::UrlParse(String::from_str("URL text is too long")));
                }
                match push_segment(base.as_str(), self.container_name.as_str()) {
                    Some(u) => Ok(u),
                    None => Err(Error::UrlParse(String::from_str("URL cannot be a base"))),
                }
            },
        }
    }

    /// The resource path of the container.
    pub fn resource_path_string(&self) -> (r: String)
        ensures
            r@ == self.resource_path(),
    {
        let mut path = String::from_str("/");
        proof {
            reveal_strlit("/");
        }
        path.append(self.container_name.as_str());
        path
    }

    /// A request for the container's access policy.
    pub fn get_acl(&self) -> (r: GetACLBuilder<'_>)
        ensures
            r.container_client == self,
            r.client_request_id is None,
            r.timeout is None,
            r.lease_id is None,
    {
        GetACLBuilder::new(self)
    }
}

/// A header that is sent only where its value is set.
pub open spec fn optional_header(name: Seq<char>, value: Option<String>) -> Seq<
    (Seq<char>, Seq<char>),
> {
    match value {
        Some(v) => seq![(name, v@)],
        None => Seq::empty(),
    }
}

/// The fluent builder of a container access-policy request.
pub struct GetACLBuilder<'a> {
    pub container_client: &'a ContainerClient,
    pub client_request_id: Option<String>,
    /// The server-side timeout, in seconds.
    pub timeout: Option<u64>,
    pub lease_id: Option<String>,
}

impl<'a> GetACLBuilder<'a> {
    pub fn new(container_client: &'a ContainerClient) -> (r: GetACLBuilder<'a>)
        ensures
            r.container_client == container_client,
            r.client_request_id is None,
            r.timeout is None,
            r.lease_id is None,
    {
        GetACLBuilder { container_client, client_request_id: None, timeout: None, lease_id: None }
    }

    /// The headers of the request: the optional ones that are set, then the
    /// date and the authorization value.
    pub open spec fn headers_spec(&self, timestamp: Seq<char>) -> Seq<(Seq<char>, Seq<char>)> {
        optional_header("x-ms-client-request-id"@, self.client_request_id) + optional_header(
            "x-ms-lease-id"@,
            self.lease_id,
        ) + seq![
            ("x-ms-date"@, timestamp),
            (
                "authorization"@,
                self.container_client.credential.signature_of(
                    Method::Get,
                    self.container_client.resource_path(),
                    timestamp,
                ),
            ),
        ]
    }

    /// Sets the tracing id sent in `x-ms-client-request-id`.
    pub fn client_request_id(self, client_request_id: String) -> (r: GetACLBuilder<'a>)
        ensures
            r == (GetACLBuilder { client_request_id: Some(client_request_id), ..self }),
    {
        GetACLBuilder { client_request_id: Some(client_request_id), ..self }
    }

    /// Sets the server-side timeout, in seconds.
    pub fn timeout(self, timeout: u64) -> (r: GetACLBuilder<'a>)
        ensures
            r == (GetACLBuilder { timeout: Some(timeout), ..self }),
    {
        GetACLBuilder { timeout: Some(timeout), ..self }
    }

    /// Sets the lease the request is made under, sent in `x-ms-lease-id`.
    pub fn lease_id(self, lease_id: String) -> (r: GetACLBuilder<'a>)
        ensures
            r == (GetACLBuilder { lease_id: Some(lease_id), ..self }),
    {
        GetACLBuilder { lease_id: Some(lease_id), ..self }
    }

    /// Builds and signs the request, sends it once through `transport`, and
    /// decodes the response.
    pub fn execute<T: Transport>(self, transport: &T, timestamp: &str) -> (r: Result<
        GetACLResponse,
        Error,
    >)
        ensures
            match self.url_spec() {
                Err(m) => r matches Err(e) && e@ == ErrorView::UrlParse(m),
                Ok(_) => (r matches Err(Error::Transport(_))) || exists|resp: RawResponse|
                    acl_outcome(resp) == acl_result_view(r),
            },
    {
        let request = match self.prepare(timestamp) {
            Ok(req) => req,
            Err(e) => {
                return Err(e);
            },
        };
        match transport.send(&request) {
            Ok(response) => GetACLResponse::from_response(response),
            Err(message) => Err(Error::Transport(message)),
        }
    }

    /// Header names are unique within a request, whichever optional
    /// parameters are set.
    pub proof fn lemma_header_names_unique(&self, timestamp: Seq<char>)
        ensures
            forall|i: int, j: int|
                0 <= i < j < self.headers_spec(timestamp).len() ==> (#[trigger] self.headers_spec(
                    timestamp,
                )[i]).0 != (#[trigger] self.headers_spec(timestamp)[j]).0,
    {
        reveal_strlit("x-ms-client-request-id");
        reveal_strlit("x-ms-lease-id");
        reveal_strlit("x-ms-date");
        reveal_strlit("authorization");
        let names = seq![
            "x-ms-client-request-id"@,
            "x-ms-lease-id"@,
            "x-ms-date"@,
            "authorization"@,
        ];
        assert(names[1][5] != names[3][5]);
        assert(names[0].len() != names[1].len());
        assert(names[0].len() != names[2].len());
        assert(names[0].len() != names[3].len());
        assert(names[1].len() != names[2].len());
        assert(names[2].len() != names[3].len());
        let h = self.headers_spec(timestamp);
        assert forall|i: int, j: int| 0 <= i < j < h.len() implies (#[trigger] h[i]).0 != (
        #[trigger] h[j]).0 by {
            assert(h[i].0 == names[0] || h[i].0 == names[1] || h[i].0 == names[2] || h[i].0 == names[3]);
        }
    }

    /// The request's URL: the container's URL with the query that selects the
    /// operation and, where set, the server-side timeout; or the text of the
    /// error that stopped its composition.
    pub open spec fn url_spec(&self) -> Result<Seq<char>, Seq<char>> {
        let selected = with_query_pair(
            with_query_pair(self.container_client.url_spec(), "restype"@, "container"@),
            "comp"@,
            "acl"@,
        );
        match self.timeout {
            Some(t) => with_query_pair(selected, "timeout"@, decimal(t as nat)),
            None => selected,
        }
    }

    /// Builds and signs the request, or fails where the URL does not compose.
    pub fn prepare(&self, timestamp: &str) -> (r: Result<RequestDescription, Error>)
        ensures
            match self.url_spec() {
                Ok(u) => r matches Ok(req) && req.method == Method::Get && req.url@ == u
                    && headers_view(req.headers@) == self.headers_spec(timestamp@) && req.body
                    is None,
                Err(m) => r matches Err(e) && e@ == ErrorView::UrlParse(m),
            },
    {
        let base = match self.container_client.url_with_segments() {
            Ok(u) => u,
            Err(e) => {
                return Err(e);
            },
        };
        let with_type = match add_query_pair(&base, "restype", "container") {
            Ok(u) => u,
            Err(e) => {
                return Err(e);
            },
        };
        let selected = match add_query_pair(&with_type, "comp", "acl") {
            Ok(u) => u,
            Err(e) => {
                return Err(e);
            },
        };
        let url = match self.timeout {
            Some(t) => {
                let digits = decimal_string(t);
                match add_query_pair(&selected, "timeout", digits.as_str()) {
                    Ok(u) => u,
                    Err(e) => {
                        return Err(e);
                    },
                }
            },
            None => selected,
        };
        let client = self.container_client;
        let path = client.resource_path_string();
        let signature = match client.credential.sign(Method::Get, path.as_str(), timestamp) {
            Ok(s) => s,
            Err(e) => {
                return Err(e);
            },
        };
        let mut headers: Vec<(String, String)> = Vec::new();
        match &self.client_request_id {
            Some(id) => {
                headers.push((String::from_str("x-ms-client-request-id"), id.clone()));
            },
            None => {},
        }
        match &self.lease_id {
            Some(id) => {
                headers.push((String::from_str("x-ms-lease-id"), id.clone()));
            },
            None => {},
        }
        headers.push((String::from_str("x-ms-date"), String::from_str(timestamp)));
        headers.push((String::from_str("authorization"), signature));
        assert(headers_view(headers@) =~= self.headers_spec(timestamp@));
        Ok(RequestDescription { method: Method::Get, url, headers, body: None })
    }
}

} // verus!
