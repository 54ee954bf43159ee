use std::collections::BTreeMap;

use vstd::prelude::*;

use crate::error::WebKitError;

verus! {

/// Request metadata for a `WKURLSchemeTask`.
#[derive(Debug, Clone, PartialEq, Eq)]
pub struct UrlSchemeRequest {
    /// The requested URL.
    pub url: String,
    /// The HTTP method.
    pub method: String,
    /// The request headers, by name.
    pub headers: BTreeMap<String, String>,
}

impl Default for UrlSchemeRequest {
    /// A request with an empty URL and method and no headers.
    fn default() -> (request: Self)
        ensures
            request.url@.len() == 0,
            request.method@.len() == 0,
            request.headers@ == Map::<String, String>::empty(),
    {
        UrlSchemeRequest { url: String::new(), method: String::new(), headers: BTreeMap::new() }
    }
}

/// What a header map holds, by the text of each name: the value text of each header.
/// `String` names are ordered, and so told apart, by their text.
pub uninterp spec fn header_texts(headers: BTreeMap<String, String>) -> Map<Seq<char>, Seq<char>>;

/// A header map that holds nothing.
///
/// Calls `BTreeMap::new`, which std documents as making an empty map.
#[verifier::external_body]
fn empty_headers() -> (headers: BTreeMap<String, String>)
    ensures
        header_texts(headers).dom() == Set::<Seq<char>>::empty(),
        headers@.dom() == Set::<String>::empty(),
{
    BTreeMap::new()
}

/// Sets the header `name` to `value`.
///
/// Calls `BTreeMap::insert`, which std documents as adding the entry, or, where an
/// entry with an equal key (for `String`, the same text) is present, updating its
/// value; the old value it returns is dropped.
#[verifier::external_body]
fn insert_header(headers: &mut BTreeMap<String, String>, name: String, value: String)
    ensures
        header_texts(*final(headers)) == header_texts(*old(headers)).insert(name@, value@),
{
    headers.insert(name, value);
}

/// Response metadata sent back to a `WKURLSchemeTask`.
#[derive(Debug, Clone, PartialEq, Eq)]
pub struct UrlSchemeResponse {
    /// The URL the response is for.
    pub url: String,
    /// The MIME type of the body.
    pub mime_type: String,
    /// The text encoding of the body, if any.
    pub text_encoding_name: Option<String>,
    /// The HTTP status code.
    pub status_code: i64,
    /// The response headers, by name.
    pub headers: BTreeMap<String, String>,
}

impl UrlSchemeResponse {
    /// A `200` response for `url` with the given MIME type, no text encoding and no
    /// headers.
    #[must_use]
    pub fn new(url: &str, mime_type: &str) -> (response: Self)
        ensures
            response.url@ == url@,
            response.mime_type@ == mime_type@,
            response.text_encoding_name is None,
            response.status_code == 200,
            response.headers@ == Map::<String, String>::empty(),
            header_texts(response.headers) == Map::<Seq<char>, Seq<char>>::empty(),
    {
        UrlSchemeResponse {
            url: String::from_str(url),
            mime_type: String::from_str(mime_type),
            text_encoding_name: None,
            status_code: 200,
            headers: empty_headers(),
        }
    }

    /// Sets the text encoding name, all else kept.
    #[must_use]
    pub fn with_text_encoding_name(self, text_encoding_name: &str) -> (response: Self)
        ensures
            response == (UrlSchemeResponse { text_encoding_name: response.text_encoding_name, ..self }),
            response.text_encoding_name matches Some(name) && name@ == text_encoding_name@,
    {
        UrlSchemeResponse {
            text_encoding_name: Some(String::from_str(text_encoding_name)),
            ..self
        }
    }

    /// Sets the status code, all else kept.
    #[must_use]
    pub fn with_status_code(self, status_code: i64) -> (response: Self)
        ensures
            response == (UrlSchemeResponse { status_code, ..self }),
    {
        UrlSchemeResponse { status_code, ..self }
    }

    /// Sets the header `name` to `value`, replacing an earlier value of that header;
    /// all else is kept.
    #[must_use]
    pub fn with_header(self, name: &str, value: &str) -> (response: Self)
        ensures
            response == (UrlSchemeResponse { headers: response.headers, ..self }),
            header_texts(response.headers) == header_texts(self.headers).insert(name@, value@),
    {
        let mut response = self;
        insert_header(&mut response.headers, String::from_str(name), String::from_str(value));
        response
    }
}

/// The calls that answer a `WKURLSchemeTask` with a response and a body, in order:
/// send the response, send the body unless it is empty, finish; the first failing call
/// ends the answer with its error.
#[derive(Debug)]
pub enum UrlSchemeRespondStep {
    /// Send the response metadata.
    SendResponse,
    /// Send the body bytes.
    SendData,
    /// Mark the task finished.
    Finish,
    /// The answer is over, with its result.
    Done(Result<(), WebKitError>),
}

/// The step after `step` once its call completed with `outcome`, for a body that is
/// empty or not.
pub open spec fn respond_next(
    step: UrlSchemeRespondStep,
    outcome: Result<(), WebKitError>,
    body_is_empty: bool,
) -> UrlSchemeRespondStep {
    match outcome {
        Err(e) => UrlSchemeRespondStep::Done(Err(e)),
        Ok(_) => match step {
            UrlSchemeRespondStep::SendResponse => if body_is_empty {
                UrlSchemeRespondStep::Finish
            } else {
                UrlSchemeRespondStep::SendData
            },
            UrlSchemeRespondStep::SendData => UrlSchemeRespondStep::Finish,
            UrlSchemeRespondStep::Finish => UrlSchemeRespondStep::Done(Ok(())),
            UrlSchemeRespondStep::Done(r) => UrlSchemeRespondStep::Done(r),
        },
    }
}

impl UrlSchemeRespondStep {
    /// The first call of an answer: sending the response.
    #[must_use]
    pub fn start() -> (step: Self)
        ensures
            step is SendResponse,
    {
        UrlSchemeRespondStep::SendResponse
    }

    /// The step after this one, whose call completed with `outcome`.
    #[must_use]
    pub fn next(self, outcome: Result<(), WebKitError>, body_is_empty: bool) -> (step: Self)
        requires
            !(self is Done),
        ensures
            step == respond_next(self, outcome, body_is_empty),
    {
        match outcome {
            Err(e) => UrlSchemeRespondStep::Done(Err(e)),
            Ok(()) => match self {
                UrlSchemeRespondStep::SendResponse => if body_is_empty {
                    UrlSchemeRespondStep::Finish
                } else {
                    UrlSchemeRespondStep::SendData
                },
                UrlSchemeRespondStep::SendData => UrlSchemeRespondStep::Finish,
                UrlSchemeRespondStep::Finish => UrlSchemeRespondStep::Done(Ok(())),
                UrlSchemeRespondStep::Done(r) => UrlSchemeRespondStep::Done(r),
            },
        }
    }
}

/// When every call succeeds, an answer with a body sends the response, the body and the
/// finish, in that order, and ends `Ok`; an answer with an empty body skips the body.
/// A failing call ends the answer with that call's error, whatever the step.
pub proof fn lemma_respond_sequence(body_is_empty: bool, step: UrlSchemeRespondStep, e: WebKitError)
    ensures
        !body_is_empty ==> respond_next(UrlSchemeRespondStep::SendResponse, Ok(()), body_is_empty)
            is SendData,
        body_is_empty ==> respond_next(UrlSchemeRespondStep::SendResponse, Ok(()), body_is_empty)
            is Finish,
        respond_next(UrlSchemeRespondStep::SendData, Ok(()), body_is_empty) is Finish,
        respond_next(UrlSchemeRespondStep::Finish, Ok(()), body_is_empty)
            == UrlSchemeRespondStep::Done(Ok(())),
        respond_next(step, Err(e), body_is_empty) == UrlSchemeRespondStep::Done(Err(e)),
{
}

} // verus!
