//! Requests to the storage backend: how one is addressed, and what its
//! response means.

use vstd::prelude::*;
use crate::endpoint::{join_text, join_url, url_joined, ParsedUrl};

verus! {

/// How a storage partition is named.
#[derive(Debug)]
pub enum ObjectIdFrom {
    /// By the name from which the backend derives its identifier.
    Name(String),
    /// By its identifier, in hexadecimal.
    Hex(String),
}

/// A request to a storage partition, without its address.
#[derive(Debug)]
pub struct DurableRequest {
    /// The kind of partition that is addressed.
    pub binding: String,
    /// The partition.
    pub id: ObjectIdFrom,
    /// Whether the backend may send the request again after a failure.
    pub retry: bool,
    /// What the partition is to read.
    pub body: Vec<u8>,
}

/// The storage backend as seen by the aggregator.
#[derive(Debug)]
pub struct Do {
    url: ParsedUrl,
    retry: bool,
}

/// A request to the storage backend that is being put together.
#[derive(Debug)]
pub struct RequestBuilder {
    /// The address of the backend.
    pub base: String,
    /// The path of the operation, below the prefix of the backend.
    pub path: String,
    pub request: DurableRequest,
}

impl Do {
    /// The address of the backend.
    pub closed spec fn url(&self) -> ParsedUrl {
        self.url
    }

    /// Whether requests are marked as safe to send again.
    pub closed spec fn retries(&self) -> bool {
        self.retry
    }

    /// A backend at the given address, whose requests are not sent again.
    pub fn new(url: ParsedUrl) -> (r: Do)
        ensures
            r.url() == url,
            !r.retries(),
    {
        Do { url, retry: false }
    }

    /// The same backend, with requests that may be sent again.
    pub fn with_retry(self) -> (r: Do)
        ensures
            r.url() == self.url(),
            r.retries(),
    {
        Do { url: self.url, retry: true }
    }

    /// Begins a request to the partition of a given name.
    pub fn request(&self, binding: String, path: String, name: String) -> (r: RequestBuilder)
        ensures
            r.base@ == self.url().href@,
            r.path == path,
            r.request.binding == binding,
            r.request.id == ObjectIdFrom::Name(name),
            r.request.retry == self.retries(),
            r.request.body@.len() == 0,
    {
        RequestBuilder {
            base: self.url.href.clone(),
            path,
            request: DurableRequest {
                binding,
                id: ObjectIdFrom::Name(name),
                retry: self.retry,
                body: Vec::new(),
            },
        }
    }

    /// Begins a request to the partition of a given identifier.
    pub fn request_with_id(&self, binding: String, path: String, object_id: ObjectIdFrom) -> (r:
        RequestBuilder)
        ensures
            r.base@ == self.url().href@,
            r.path == path,
            r.request.binding == binding,
            r.request.id == object_id,
            r.request.retry == self.retries(),
            r.request.body@.len() == 0,
    {
        RequestBuilder {
            base: self.url.href.clone(),
            path,
            request: DurableRequest { binding, id: object_id, retry: self.retry, body: Vec::new() },
        }
    }
}

/// The prefix of every path of the storage backend.
pub open spec fn do_path_prefix() -> Seq<char> {
    "/do"@
}

/// A response of the storage backend, or of a peer.
#[derive(Debug)]
pub struct HttpResponse {
    pub status: u16,
    /// Whether the response says that its body is a problem document.
    pub is_problem: bool,
    pub body: Vec<u8>,
}

/// Why a request to the storage backend came to nothing.
#[derive(Debug)]
pub enum Error {
    /// The body of a response could not be read as what was expected.
    Serde,
    /// The request could not be sent, or no response arrived.
    Reqwest,
    /// The backend answered with a status that is no success.
    Http { status: u16, body: Vec<u8> },
}

/// Whether a status says that a request succeeded.
pub open spec fn is_success(status: u16) -> bool {
    200 <= status < 300
}

impl RequestBuilder {
    /// The same request with a body.
    pub fn with_body(self, payload: Vec<u8>) -> (r: RequestBuilder)
        ensures
            r.base == self.base,
            r.path == self.path,
            r.request.binding == self.request.binding,
            r.request.id == self.request.id,
            r.request.retry == self.request.retry,
            r.request.body == payload,
    {
        let RequestBuilder { base, path, request } = self;
        let DurableRequest { binding, id, retry, body: _ } = request;
        RequestBuilder { base, path, request: DurableRequest { binding, id, retry, body: payload } }
    }

    /// The address to which the request is posted: the path of the
    /// operation, below the prefix of the backend, resolved against the
    /// address of the backend. `None` where they do not make an address.
    pub fn target(&self) -> (r: Option<String>)
        ensures
            r.is_some() == url_joined(self.base@, do_path_prefix() + self.path@).is_some(),
            r.is_some() ==> r.unwrap()@ == url_joined(
                self.base@,
                do_path_prefix() + self.path@,
            ).unwrap(),
    {
        let reference = join_text("/do", self.path.as_str());
        join_url(self.base.as_str(), reference.as_str())
    }

    /// What the response to this request means: its body, where the status
    /// says success; else the status and the body as an error.
    pub fn receive(response: HttpResponse) -> (r: Result<Vec<u8>, Error>)
        ensures
            match r {
                Ok(body) => is_success(response.status) && body == response.body,
                Err(e) => !is_success(response.status) && e == (Error::Http {
                    status: response.status,
                    body: response.body,
                }),
            },
    {
        if 200 <= response.status && response.status < 300 {
            Ok(response.body)
        } else {
            Err(Error::Http { status: response.status, body: response.body })
        }
    }
}

/// What came of sending a request.
#[derive(Debug)]
pub enum Sent {
    /// The request could not be sent, or no response arrived in time.
    TransportError,
    /// A response arrived.
    Response(HttpResponse),
}

/// What the gateway does with what came of a request.
#[derive(Debug)]
pub enum Disposition {
    /// Hands the body of the response to the submitter.
    Deliver(Vec<u8>),
    /// Hands an abort of the protocol to the submitter; the problem
    /// document is in the body.
    Abort(Vec<u8>),
    /// Sends the request again.
    Retry,
    /// Hands an error that is no abort to the submitter.
    Other,
}

/// How an outcome is disposed of: a transport error is an error; a success
/// is delivered; a client error with a problem document is an abort; a
/// server error is tried again where the request allows it; everything else
/// is an error.
pub open spec fn disposition_of(sent: Sent, retry: bool) -> Disposition {
    match sent {
        Sent::TransportError => Disposition::Other,
        Sent::Response(response) => if is_success(response.status) {
            Disposition::Deliver(response.body)
        } else if 400 <= response.status < 500 && response.is_problem {
            Disposition::Abort(response.body)
        } else if 500 <= response.status < 600 && retry {
            Disposition::Retry
        } else {
            Disposition::Other
        },
    }
}

/// Decides what to do with what came of a request.
pub fn dispose(sent: Sent, retry: bool) -> (r: Disposition)
    ensures
        r == disposition_of(sent, retry),
{
    match sent {
        Sent::TransportError => Disposition::Other,
        Sent::Response(response) => {
            let status = response.status;
            if 200 <= status && status < 300 {
                Disposition::Deliver(response.body)
            } else if 400 <= status && status < 500 && response.is_problem {
                Disposition::Abort(response.body)
            } else if 500 <= status && status < 600 && retry {
                Disposition::Retry
            } else {
                Disposition::Other
            }
        },
    }
}

} // verus!
