//! The routing rules of the plugin services: which stream paths can be
//! subscribed to, which channel a query's frame is published on, which
//! resource a path names, and how a resource error maps to an HTTP status.
use vstd::prelude::*;
use vstd::string::{to_string_from_display_ensures, StrSliceExecFns, StringExecFns};

verus! {

#[verifier::external_type_specification]
#[verifier::external_body]
pub struct ExHttpError(http::Error);

/// Whether two strings hold the same characters.
pub fn same_text(a: &str, b: &str) -> (r: bool)
    ensures
        r == (a@ == b@),
{
    let n = a.unicode_len();
    if n != b.unicode_len() {
        return false;
    }
    let mut i: usize = 0;
    while i < n
        invariant
            n == a@.len(),
            n == b@.len(),
            i <= n,
            forall|j: int| 0 <= j < i ==> a@[j] == b@[j],
        decreases n - i,
    {
        if a.get_char(i) != b.get_char(i) {
            return false;
        }
        i = i + 1;
    }
    assert(a@ =~= b@);
    true
}

/// The one stream path that can be subscribed to.
pub open spec fn stream_path() -> Seq<char> {
    "stream"@
}

/// The answer to a subscription request.
#[derive(Clone, Copy, Debug, PartialEq, Eq, Structural)]
pub enum SubscribeStatus {
    /// The path names the stream: subscription accepted.
    Accepted,
    /// No stream under that path.
    NotFound,
}

/// Accepts a subscription to the path `stream` and to no other.
pub fn subscribe_status(path: &str) -> (r: SubscribeStatus)
    ensures
        r == (if path@ == stream_path() {
            SubscribeStatus::Accepted
        } else {
            SubscribeStatus::NotFound
        }),
{
    if same_text(path, "stream") {
        SubscribeStatus::Accepted
    } else {
        SubscribeStatus::NotFound
    }
}

/// The channel of the stream of data source `uid`.
pub open spec fn stream_channel_spec(uid: Seq<char>) -> Seq<char> {
    "ds/"@ + uid + "/stream"@
}

/// The channel that a query's frame is published on: the data source's
/// stream channel when the request names a data source and the query asks for
/// the path `stream`, no channel otherwise.
pub fn query_channel(uid: Option<&str>, path: Option<&str>) -> (r: Option<String>)
    ensures
        r is Some <==> (uid is Some && path is Some && path->Some_0@ == stream_path()),
        r is Some ==> r->Some_0@ == stream_channel_spec(uid->Some_0@),
{
    match (uid, path) {
        (Some(u), Some(p)) => {
            if same_text(p, "stream") {
                let mut c = String::from_str("ds/");
                c.append(u);
                c.append("/stream");
                Some(c)
            } else {
                None
            }
        },
        _ => None,
    }
}

/// A query whose frame could not be built, named by its reference id.
pub struct QueryError {
    ref_id: String,
}

impl QueryError {
    /// The reference id of the failed query.
    pub closed spec fn ref_id_spec(&self) -> Seq<char> {
        self.ref_id@
    }

    /// The error of the query with reference id `ref_id`.
    pub fn new(ref_id: String) -> (r: Self)
        ensures
            r.ref_id_spec() == ref_id@,
    {
        QueryError { ref_id }
    }

    /// The reference id of the failed query, which lets the host line the
    /// error up with its query.
    pub fn ref_id(self) -> (r: String)
        ensures
            r@ == self.ref_id_spec(),
    {
        self.ref_id
    }
}

/// The resources that can be called.
#[derive(Clone, Copy, Debug, PartialEq, Eq, Structural)]
pub enum ResourceRoute {
    /// `/echo`: the request body comes back as the response.
    Echo,
    /// `/count`: the call counter, then every later count as a stream.
    Count,
}

/// Why a resource call failed.
pub enum ResourceError {
    /// Building the HTTP response failed.
    Http(http::Error),
    /// No resource under the requested path.
    NotFound,
}

/// The resource that a request path names.
pub fn resource_route(path: &str) -> (r: Result<ResourceRoute, ResourceError>)
    ensures
        path@ == "/echo"@ ==> r == Ok::<ResourceRoute, ResourceError>(ResourceRoute::Echo),
        path@ == "/count"@ ==> r == Ok::<ResourceRoute, ResourceError>(ResourceRoute::Count),
        path@ != "/echo"@ && path@ != "/count"@ ==> r is Err && r->Err_0 is NotFound,
{
    proof {
        reveal_strlit("/echo");
        reveal_strlit("/count");
        assert("/echo"@[1] != "/count"@[1]);
    }
    if same_text(path, "/echo") {
        Ok(ResourceRoute::Echo)
    } else if same_text(path, "/count") {
        Ok(ResourceRoute::Count)
    } else {
        Err(ResourceError::NotFound)
    }
}

/// The decimal digits of `n` as ASCII bytes, most significant first, with no
/// leading zeros.
pub open spec fn decimal(n: nat) -> Seq<u8>
    decreases n,
{
    if n < 10 {
        seq![(48 + n) as u8]
    } else {
        decimal(n / 10).push((48 + n % 10) as u8)
    }
}

/// The body that reports a count: its decimal digits in ASCII.
pub fn count_body(n: usize) -> (r: Vec<u8>)
    ensures
        r@ == decimal(n as nat),
    decreases n,
{
    if n < 10 {
        let mut v: Vec<u8> = Vec::new();
        v.push(48u8 + n as u8);
        v
    } else {
        let mut v = count_body(n / 10);
        v.push(48u8 + (n % 10) as u8);
        v
    }
}

impl ResourceError {
    /// The HTTP status that reports this error.
    pub open spec fn status_spec(&self) -> u16 {
        match self {
            ResourceError::Http(_) => 500,
            ResourceError::NotFound => 404,
        }
    }

    /// The HTTP status that reports this error: 500 when the response could
    /// not be built, 404 for an unknown path.
    pub fn status(&self) -> (r: u16)
        ensures
            r == self.status_spec(),
    {
        match self {
            ResourceError::Http(_) => 500,
            ResourceError::NotFound => 404,
        }
    }

    /// The text of the response body that reports this error: `Not found`,
    /// or `HTTP error: ` followed by the HTTP error's own text.
    pub fn message(&self) -> (r: String)
        ensures
            match self {
                ResourceError::NotFound => r@ == "Not found"@,
                ResourceError::Http(e) => exists|t: String|
                    to_string_from_display_ensures::<http::Error>(e, t) && r@ == "HTTP error: "@ + t@,
            },
    {
        match self {
            ResourceError::NotFound => String::from_str("Not found"),
            ResourceError::Http(e) => {
                let t = e.to_string();
                let mut r = String::from_str("HTTP error: ");
                r.append(t.as_str());
                r
            },
        }
    }
}

} // verus!
