//! Requests and responses as values: method, URI, headers and body bytes.
//!
//! A request is built once and then only read. A response gets its status and
//! headers at once, and its body as a sequence of chunks in arrival order.

use vstd::prelude::*;

verus! {

/// The header list as pairs of character sequences.
pub open spec fn header_views(headers: Seq<(String, String)>) -> Seq<(Seq<char>, Seq<char>)> {
    headers.map_values(|h: (String, String)| (h.0@, h.1@))
}

/// The chunk list as byte sequences.
pub open spec fn chunk_views(chunks: Seq<Vec<u8>>) -> Seq<Seq<u8>> {
    chunks.map_values(|c: Vec<u8>| c@)
}

/// All chunks joined, first chunk first.
pub open spec fn concat(chunks: Seq<Seq<u8>>) -> Seq<u8>
    decreases chunks.len(),
{
    if chunks.len() == 0 {
        Seq::empty()
    } else {
        concat(chunks.drop_last()) + chunks.last()
    }
}

/// The mathematical model of a request.
pub struct RequestView {
    pub method: Seq<char>,
    pub uri: Seq<char>,
    pub headers: Seq<(Seq<char>, Seq<char>)>,
    pub body: Option<Seq<u8>>,
}

/// A request: built once, then only read.
#[derive(Debug)]
pub struct Request {
    method: String,
    uri: String,
    headers: Vec<(String, String)>,
    body: Option<Vec<u8>>,
}

impl View for Request {
    type V = RequestView;

    closed spec fn view(&self) -> RequestView {
        RequestView {
            method: self.method@,
            uri: self.uri@,
            headers: header_views(self.headers@),
            body: match self.body {
                Some(bytes) => Some(bytes@),
                None => None,
            },
        }
    }
}

impl Request {
    pub fn new(
        method: String,
        uri: String,
        headers: Vec<(String, String)>,
        body: Option<Vec<u8>>,
    ) -> (r: Request)
        ensures
            r@.method == method@,
            r@.uri == uri@,
            r@.headers == header_views(headers@),
            r@.body == (match body {
                Some(bytes) => Some(bytes@),
                None => None,
            }),
    {
        Request { method, uri, headers, body }
    }

    pub fn method(&self) -> (m: &str)
        ensures
            m@ == self@.method,
    {
        self.method.as_str()
    }

    pub fn uri(&self) -> (u: &str)
        ensures
            u@ == self@.uri,
    {
        self.uri.as_str()
    }

    pub fn headers(&self) -> (h: &Vec<(String, String)>)
        ensures
            header_views(h@) == self@.headers,
    {
        &self.headers
    }

    pub fn body(&self) -> (b: Option<&Vec<u8>>)
        ensures
            b is Some <==> self@.body is Some,
            b is Some ==> self@.body == Some(b->Some_0@),
    {
        self.body.as_ref()
    }

    pub fn has_body(&self) -> (b: bool)
        ensures
            b == self@.body is Some,
    {
        self.body.is_some()
    }
}

/// The mathematical model of a response.
pub struct ResponseView {
    pub status: u16,
    pub headers: Seq<(Seq<char>, Seq<char>)>,
    pub chunks: Seq<Seq<u8>>,
}

impl ResponseView {
    /// The body: all chunks joined in arrival order.
    pub open spec fn body(self) -> Seq<u8> {
        concat(self.chunks)
    }
}

/// A response: status, headers and the body chunks in arrival order.
#[derive(Debug)]
pub struct Response {
    status: u16,
    headers: Vec<(String, String)>,
    chunks: Vec<Vec<u8>>,
}

impl View for Response {
    type V = ResponseView;

    closed spec fn view(&self) -> ResponseView {
        ResponseView {
            status: self.status,
            headers: header_views(self.headers@),
            chunks: chunk_views(self.chunks@),
        }
    }
}

impl Response {
    pub fn new(status: u16, headers: Vec<(String, String)>, chunks: Vec<Vec<u8>>) -> (r: Response)
        ensures
            r@ == (ResponseView {
                status,
                headers: header_views(headers@),
                chunks: chunk_views(chunks@),
            }),
    {
        Response { status, headers, chunks }
    }

    pub fn status(&self) -> (s: u16)
        ensures
            s == self@.status,
    {
        self.status
    }

    pub fn headers(&self) -> (h: &Vec<(String, String)>)
        ensures
            header_views(h@) == self@.headers,
    {
        &self.headers
    }

    pub fn chunks(&self) -> (c: &Vec<Vec<u8>>)
        ensures
            chunk_views(c@) == self@.chunks,
    {
        &self.chunks
    }

    pub fn chunk_count(&self) -> (n: usize)
        ensures
            n == self@.chunks.len(),
    {
        self.chunks.len()
    }

    /// The whole body: the bytes of every chunk, in arrival order.
    pub fn body(&self) -> (bytes: Vec<u8>)
        ensures
            bytes@ == self@.body(),
    {
        let mut out: Vec<u8> = Vec::new();
        let mut i: usize = 0;
        while i < self.chunks.len()
            invariant
                i <= self.chunks.len(),
                out@ == concat(chunk_views(self.chunks@).take(i as int)),
            decreases self.chunks.len() - i,
        {
            let chunk = &self.chunks[i];
            let ghost done = out@;
            let mut j: usize = 0;
            while j < chunk.len()
                invariant
                    j <= chunk.len(),
                    out@ == done + chunk@.take(j as int),
                decreases chunk.len() - j,
            {
                out.push(chunk[j]);
                proof {
                    assert(chunk@.take(j + 1) == chunk@.take(j as int).push(chunk@[j as int]));
                }
                j = j + 1;
            }
            proof {
                let views = chunk_views(self.chunks@);
                assert(chunk@.take(chunk.len() as int) == chunk@);
                assert(views.take(i + 1).drop_last() == views.take(i as int));
                assert(views.take(i + 1).last() == chunk@);
            }
            i = i + 1;
        }
        proof {
            let views = chunk_views(self.chunks@);
            assert(views.take(self.chunks.len() as int) == views);
        }
        out
    }
}

/// Joining chunks keeps every byte: the body is as long as its chunks together,
/// and a body of no chunks is empty.
pub proof fn law_concat_push(chunks: Seq<Seq<u8>>, last: Seq<u8>)
    ensures
        concat(chunks.push(last)) == concat(chunks) + last,
        concat(Seq::<Seq<u8>>::empty()) == Seq::<u8>::empty(),
        concat(chunks.push(last)).len() == concat(chunks).len() + last.len(),
{
    assert(chunks.push(last).drop_last() == chunks);
}

} // verus!
