use vstd::prelude::*;
use vstd::string::StringSliceAdditionalSpecFns;
use crate::datatype::error::Error;
use crate::http_client::{HttpClient, HttpRequest, HttpResponse};

verus! {

/// A client that never reaches a server: it answers each request with the
/// last of the replies it still holds, and with an error once it holds none.
pub struct TestHttpClient {
    replies: Vec<String>,
}

impl TestHttpClient {
    /// The replies that are still to be given; the last one comes first.
    pub closed spec fn replies(&self) -> Seq<Seq<char>> {
        self.replies@.map_values(|s: String| s@)
    }

    /// A client without replies: every request fails.
    pub fn new() -> (client: TestHttpClient)
        ensures
            client.replies() == Seq::<Seq<char>>::empty(),
    {
        let client = TestHttpClient { replies: Vec::new() };
        assert(client.replies() =~= Seq::<Seq<char>>::empty());
        client
    }

    /// A client that gives these replies, the last one first.
    pub fn from(replies: Vec<String>) -> (client: TestHttpClient)
        ensures
            client.replies() == replies@.map_values(|s: String| s@),
    {
        TestHttpClient { replies }
    }

    /// How many replies are left.
    pub fn remaining(&self) -> (n: usize)
        ensures
            n == self.replies().len(),
    {
        self.replies.len()
    }
}

impl HttpClient for TestHttpClient {
    /// Gives the last reply as the body of the answer and forgets it; with no
    /// reply left, fails with the address that was asked for.
    fn send_request(&mut self, req: HttpRequest) -> (response: HttpResponse)
        ensures
            old(self).replies().len() > 0 ==> {
                &&& final(self).replies() == old(self).replies().drop_last()
                &&& response matches Ok(body)
                &&& body@ == vstd::utf8::encode_utf8(old(self).replies().last())
            },
            old(self).replies().len() == 0 ==> {
                &&& final(self).replies() == old(self).replies()
                &&& response matches Err(Error::ClientError(url))
                &&& url@ == req.url@
            },
    {
        match self.replies.pop() {
            Some(body) => {
                assert(self.replies() =~= old(self).replies().drop_last());
                Ok(body.as_str().as_bytes_vec())
            },
            None => Err(Error::ClientError(req.url.to_string())),
        }
    }

    fn is_testing(&self) -> (testing: bool)
        ensures
            testing,
    {
        true
    }
}

} // verus!
