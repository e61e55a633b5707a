//! The head of an HTTP request, as `httparse` reads it.

use vstd::prelude::*;
use crate::text::str_eq;

verus! {

/// One header of a request.
#[derive(Debug, PartialEq, Eq)]
pub struct HeaderLine {
    pub name: String,
    pub value: Vec<u8>,
}

/// What was read of the head of a request. A head that breaks off in the
/// middle is read as far as it goes: the method and the path are there if
/// they were complete.
#[derive(Debug, PartialEq, Eq)]
pub struct RequestHead {
    pub method: Option<String>,
    pub path: Option<String>,
    pub headers: Vec<HeaderLine>,
}

/// The mathematical content of a [`RequestHead`]; a header is a name and a
/// value.
pub ghost struct RequestHeadView {
    pub method: Option<Seq<char>>,
    pub path: Option<Seq<char>>,
    pub headers: Seq<(Seq<char>, Seq<u8>)>,
}

impl View for HeaderLine {
    type V = (Seq<char>, Seq<u8>);

    open spec fn view(&self) -> (Seq<char>, Seq<u8>) {
        (self.name@, self.value@)
    }
}

/// The headers as names and values.
pub open spec fn headers_view(headers: Seq<HeaderLine>) -> Seq<(Seq<char>, Seq<u8>)> {
    Seq::new(headers.len(), |i: int| headers[i]@)
}

impl View for RequestHead {
    type V = RequestHeadView;

    open spec fn view(&self) -> RequestHeadView {
        RequestHeadView {
            method: self.method.deep_view(),
            path: self.path.deep_view(),
            headers: headers_view(self.headers@),
        }
    }
}

/// `httparse::Error`, of which the verifier sees nothing.
#[verifier::external_type_specification]
#[verifier::external_body]
pub struct ExHttpError(httparse::Error);

/// What `httparse::Request::parse` leaves in a request over `slots` empty
/// headers once it has read `input`: the method, the path and the headers
/// that the request holds then, whether the head was complete or broke off.
/// None where it reports an error.
pub uninterp spec fn parsed_request(input: Seq<u8>, slots: nat) -> Option<RequestHeadView>;

/// Calls `httparse::Request::parse` on a new request over `slots` empty
/// headers and copies the method, the path and the headers out of the
/// request.
///
/// Trusted: the outcome depends on the input and on the number of headers
/// alone. Nothing is claimed of what is read from which input.
#[verifier::external_body]
fn parse_request(input: &[u8], slots: usize) -> (r: Result<RequestHead, httparse::Error>)
    ensures
        match r {
            Ok(head) => parsed_request(input@, slots as nat) == Some(head@),
            Err(_) => parsed_request(input@, slots as nat) is None,
        },
{
    let mut headers = vec![httparse::EMPTY_HEADER; slots];
    let mut request = httparse::Request::new(&mut headers);
    request.parse(input)?;
    Ok(
        RequestHead {
            method: request.method.map(str::to_owned),
            path: request.path.map(str::to_owned),
            headers: request.headers.iter().map(
                |h| HeaderLine { name: h.name.to_owned(), value: h.value.to_vec() },
            ).collect(),
        },
    )
}

/// The value of the last of `headers` that is called `name`.
pub open spec fn last_value(headers: Seq<(Seq<char>, Seq<u8>)>, name: Seq<char>) -> Option<
    Seq<u8>,
>
    decreases headers.len(),
{
    if headers.len() == 0 {
        None
    } else if headers.last().0 == name {
        Some(headers.last().1)
    } else {
        last_value(headers.drop_last(), name)
    }
}

/// A value that is found under a name belongs to a header of that name.
pub proof fn lemma_last_value_is_header(headers: Seq<(Seq<char>, Seq<u8>)>, name: Seq<char>)
    requires
        last_value(headers, name) is Some,
    ensures
        exists|i: int|
            0 <= i < headers.len() && #[trigger] headers[i] == (name, last_value(headers, name)->0),
    decreases headers.len(),
{
    if headers.last().0 == name {
        assert(headers[headers.len() - 1] == (name, last_value(headers, name)->0));
    } else {
        let init = headers.drop_last();
        lemma_last_value_is_header(init, name);
        let i = choose|i: int|
            0 <= i < init.len() && #[trigger] init[i] == (name, last_value(init, name)->0);
        assert(headers[i] == init[i]);
    }
}

impl RequestHead {
    /// Reads the head of a request with room for `slots` headers; `None`
    /// where the input is no request, or has more headers.
    pub fn parse(input: &[u8], slots: usize) -> (r: Option<RequestHead>)
        ensures
            match r {
                Some(head) => parsed_request(input@, slots as nat) == Some(head@),
                None => parsed_request(input@, slots as nat) is None,
            },
    {
        match parse_request(input, slots) {
            Ok(head) => Some(head),
            Err(_) => None,
        }
    }

    /// The value of the last header that is called `name`.
    pub fn header(&self, name: &str) -> (r: Option<&Vec<u8>>)
        ensures
            match r {
                Some(v) => last_value(self@.headers, name@) == Some(v@),
                None => last_value(self@.headers, name@) is None,
            },
    {
        let ghost all = self@.headers;
        let mut found: Option<&Vec<u8>> = None;
        let mut i: usize = 0;
        assert(all.take(0) =~= Seq::empty());
        while i < self.headers.len()
            invariant
                i <= self.headers.len(),
                all == headers_view(self.headers@),
                match found {
                    Some(v) => last_value(all.take(i as int), name@) == Some(v@),
                    None => last_value(all.take(i as int), name@) is None,
                },
            decreases self.headers.len() - i,
        {
            assert(all.take(i + 1).drop_last() =~= all.take(i as int));
            assert(all.take(i + 1).last() == self.headers@[i as int]@);
            if str_eq(self.headers[i].name.as_str(), name) {
                found = Some(&self.headers[i].value);
            }
            i += 1;
        }
        assert(all.take(i as int) =~= all);
        found
    }
}

} // verus!
