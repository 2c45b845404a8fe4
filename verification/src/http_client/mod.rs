//! What the client asks of whatever carries its HTTP requests.

use vstd::prelude::*;
use crate::datatype::error::Error;
use crate::datatype::method::Method;
use crate::datatype::url::Url;

pub use self::test_client::TestHttpClient;

pub mod test_client;

verus! {

/// One request, ready to be sent.
#[derive(Clone, Debug, PartialEq, Eq)]
pub struct HttpRequest {
    pub method: Method,
    pub url: Url,
    pub body: Option<Vec<u8>>,
}

/// What a request holds, as plain values.
pub struct HttpRequestView {
    pub method: Method,
    pub url: Seq<char>,
    pub body: Option<Seq<u8>>,
}

impl View for HttpRequest {
    type V = HttpRequestView;

    open spec fn view(&self) -> HttpRequestView {
        HttpRequestView {
            method: self.method,
            url: self.url@,
            body: match self.body {
                Some(bytes) => Some(bytes@),
                None => None,
            },
        }
    }
}

/// The body of the answer, or why there is none.
pub type HttpResponse = Result<Vec<u8>, Error>;

/// Something that can carry a request to a server and bring back the answer.
/// Nothing is promised of an implementation: callers deal with every answer.
pub trait HttpClient {
    /// Sends the request and waits for the answer.
    fn send_request(&mut self, req: HttpRequest) -> HttpResponse;

    /// Whether this client only plays back answers and never reaches a server.
    fn is_testing(&self) -> bool;
}

} // verus!
