//! The data objects exchanged with the API: what a request carries and what a
//! response brings back.
//!
//! | Endpoint     | Request object      | Response object        |
//! |:-------------|:--------------------|:-----------------------|
//! | `/send` v3   | [`SimpleMessage`]   | [`MessageObject`]      |
//! | `/send` v3.1 | [`SendEmailParams`] | [`SendResponseObject`] |

pub mod message;
pub mod request;
pub mod responses;
pub mod string_map;

pub use message::{
    Attachment, Message, MessageBuilder, MessageProperty, NameAndEmail, SimpleMessage, Track,
};
pub use request::{SendEmailParams, SenderQuery};
pub use responses::{
    EmailType, MessageObject, ResponseError, ResponseStatus, SendResponseObject, Sender, Status,
};
pub use string_map::StringMap;

use vstd::prelude::*;

verus! {

/// An object that the API hands back in the payload of a response.
pub trait ResponseObject: Sized {
    /// The object as an item of a payload.
    spec fn item(self) -> ResponseItem;

    /// Wraps the object as an item of a payload.
    fn into_item(self) -> (item: ResponseItem)
        ensures
            item == self.item(),
    ;
}

/// An object that carries the parameters of a request. Which endpoint it is
/// meant for is found out by asking for the shape that the endpoint takes.
pub trait RequestObject {
    /// The object as a message for API v3, if it is one.
    spec fn simple_message(&self) -> Option<SimpleMessage>;

    /// The object as a batch for API v3.1, if it is one.
    spec fn send_email_params(&self) -> Option<SendEmailParams>;

    /// Hands out the object as a message for API v3, if it is one.
    fn as_simple_message(&self) -> (message: Option<&SimpleMessage>)
        ensures
            match message {
                Some(m) => self.simple_message() == Some(*m),
                None => self.simple_message() is None,
            },
    ;

    /// Hands out the object as a batch for API v3.1, if it is one.
    fn as_send_email_params(&self) -> (params: Option<&SendEmailParams>)
        ensures
            match params {
                Some(p) => self.send_email_params() == Some(*p),
                None => self.send_email_params() is None,
            },
    ;
}

/// One item of the payload of a response: the shapes that the endpoints
/// answer with.
#[derive(Debug)]
pub enum ResponseItem {
    /// What API v3.1 answers for one message of a batch.
    Send(SendResponseObject),
    /// What API v3 answers for one accepted recipient.
    Message(MessageObject),
}

/// The payload of a response.
pub type ObjectType = Vec<ResponseItem>;

/// What a call of the API brought back: the status code of the HTTP response
/// and, if the call succeeded, the items that the body held.
#[derive(Debug)]
pub struct Response {
    pub status_code: u16,
    pub payload: Option<ObjectType>,
}

impl ResponseObject for SendResponseObject {
    open spec fn item(self) -> ResponseItem {
        ResponseItem::Send(self)
    }

    fn into_item(self) -> (item: ResponseItem) {
        ResponseItem::Send(self)
    }
}

impl ResponseObject for MessageObject {
    open spec fn item(self) -> ResponseItem {
        ResponseItem::Message(self)
    }

    fn into_item(self) -> (item: ResponseItem) {
        ResponseItem::Message(self)
    }
}

impl RequestObject for SimpleMessage {
    open spec fn simple_message(&self) -> Option<SimpleMessage> {
        Some(*self)
    }

    open spec fn send_email_params(&self) -> Option<SendEmailParams> {
        None
    }

    fn as_simple_message(&self) -> (message: Option<&SimpleMessage>) {
        Some(self)
    }

    fn as_send_email_params(&self) -> (params: Option<&SendEmailParams>) {
        None
    }
}

impl RequestObject for SendEmailParams {
    open spec fn simple_message(&self) -> Option<SimpleMessage> {
        None
    }

    open spec fn send_email_params(&self) -> Option<SendEmailParams> {
        Some(*self)
    }

    fn as_simple_message(&self) -> (message: Option<&SimpleMessage>) {
        None
    }

    fn as_send_email_params(&self) -> (params: Option<&SendEmailParams>) {
        Some(self)
    }
}

} // verus!
