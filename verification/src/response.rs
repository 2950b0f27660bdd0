use vstd::prelude::*;
use crate::validation::ValidationErrors;

verus! {

/// The JSON envelope of an answer: each part is left out where it is `None`.
#[derive(Debug, Clone, PartialEq)]
pub struct ResponseToUserEnd<T> {
    /// Reported as `type`.
    pub response_type: Option<String>,
    pub message: Option<String>,
    /// The failed checks of a request body, by field.
    pub validation_errors_by_field: Option<ValidationErrors>,
    pub data: Option<T>,
}

impl<T> Default for ResponseToUserEnd<T> {
    fn default() -> (r: Self)
        ensures
            r == (ResponseToUserEnd::<T> {
                response_type: None,
                message: None,
                validation_errors_by_field: None,
                data: None,
            }),
    {
        ResponseToUserEnd { response_type: None, message: None, validation_errors_by_field: None, data: None }
    }
}

/// `b` carries the message `msg` and nothing else.
pub open spec fn only_message<T>(b: ResponseToUserEnd<T>, msg: Seq<char>) -> bool {
    &&& b.response_type is None
    &&& b.message matches Some(m) && m@ == msg
    &&& b.validation_errors_by_field is None
    &&& b.data is None
}

/// `b` carries the message `msg` and the data `d` and nothing else.
pub open spec fn message_with_data<T>(b: ResponseToUserEnd<T>, msg: Seq<char>, d: T) -> bool {
    &&& b.response_type is None
    &&& b.message matches Some(m) && m@ == msg
    &&& b.validation_errors_by_field is None
    &&& b.data == Some(d)
}

impl<T> ResponseToUserEnd<T> {
    /// An envelope with the message `msg` alone.
    pub fn only_this_message(msg: &str) -> (r: Self)
        ensures
            only_message(r, msg@),
    {
        let mut preself = Self::default();
        preself.message = Some(msg.to_owned());
        preself
    }

    /// Puts `data` into the envelope and hands the envelope back.
    pub fn with_data(&mut self, data: T) -> (r: &mut Self)
        ensures
            *r == (ResponseToUserEnd { data: Some(data), ..*old(self) }),
            *final(self) == *final(r),
    {
        self.data = Some(data);
        self
    }
}

/// The body of an answer.
#[derive(Debug, Clone, PartialEq)]
pub enum ReplyBody<T> {
    /// Plain text.
    Text(String),
    /// The JSON envelope.
    Json(ResponseToUserEnd<T>),
    /// The value itself as JSON.
    Raw(T),
}

/// An answer to a request: an HTTP status and a body.
#[derive(Debug, Clone, PartialEq)]
pub struct Reply<T> {
    pub status: u16,
    pub body: ReplyBody<T>,
}

/// `r` is the text `text` with status `status`.
pub open spec fn is_text_reply<T>(r: Reply<T>, status: u16, text: Seq<char>) -> bool {
    &&& r.status == status
    &&& r.body matches ReplyBody::Text(t) && t@ == text
}

/// `r` is an envelope with the message `msg` alone, with status `status`.
pub open spec fn is_message_reply<T>(r: Reply<T>, status: u16, msg: Seq<char>) -> bool {
    &&& r.status == status
    &&& r.body matches ReplyBody::Json(b) && only_message(b, msg)
}

/// `r` is an envelope with the message `msg` and the data `d`, with status `status`.
pub open spec fn is_data_reply<T>(r: Reply<T>, status: u16, msg: Seq<char>, d: T) -> bool {
    &&& r.status == status
    &&& r.body matches ReplyBody::Json(b) && message_with_data(b, msg, d)
}

/// A text answer.
pub fn text_reply<T>(status: u16, text: &str) -> (r: Reply<T>)
    ensures
        is_text_reply(r, status, text@),
{
    Reply { status, body: ReplyBody::Text(text.to_owned()) }
}

/// An envelope answer with a message alone.
pub fn message_reply<T>(status: u16, msg: &str) -> (r: Reply<T>)
    ensures
        is_message_reply(r, status, msg@),
{
    Reply { status, body: ReplyBody::Json(ResponseToUserEnd::only_this_message(msg)) }
}

/// An envelope answer with a message and data.
pub fn data_reply<T>(status: u16, msg: &str, data: T) -> (r: Reply<T>)
    ensures
        is_data_reply(r, status, msg@, data),
{
    let mut envelope = ResponseToUserEnd::only_this_message(msg);
    envelope.with_data(data);
    Reply { status, body: ReplyBody::Json(envelope) }
}

} // verus!
