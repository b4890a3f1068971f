//! The objects that the API answers with.

use crate::json::{
    as_object, as_text, find_member, member, same_text, text_value, Json, Mismatch,
};
use crate::wire::{
    opt_read_from, opt_readable, req_read_from, req_readable, take, take_opt, FromJson,
    RoundTrip, ToJson,
};
use serde_json::Value;
use vstd::prelude::*;
use vstd::string::StringExecFns;

verus! {

/// What became of one message of a batch.
#[derive(Debug, Clone, Copy, PartialEq, Eq, Structural)]
pub enum ResponseStatus {
    /// The message was accepted.
    Success,
    /// The message was refused.
    Error,
}

impl ResponseStatus {
    /// The word that stands for the value on the wire.
    pub open spec fn word(self) -> Seq<char> {
        match self {
            ResponseStatus::Success => "success"@,
            ResponseStatus::Error => "error"@,
        }
    }
}

impl FromJson for ResponseStatus {
    /// A string that holds the word of one of the values.
    open spec fn readable(document: Json) -> bool {
        &&& document matches Json::Text(t)
        &&& {
            ||| t == "success"@
            ||| t == "error"@
        }
    }

    open spec fn read_from(&self, document: Json) -> bool {
        document == Json::Text(self.word())
    }

    fn from_json(value: &Value) -> (outcome: Result<ResponseStatus, Mismatch>) {
        match as_text(value) {
            Some(t) => if same_text(t, "success") {
                Ok(ResponseStatus::Success)
            } else if same_text(t, "error") {
                Ok(ResponseStatus::Error)
            } else {
                Err(Mismatch)
            },
            None => Err(Mismatch),
        }
    }
}

/// One reason for which a message of a batch was refused.
#[derive(Debug)]
pub struct ResponseError {
    pub error_identifier: String,
    pub error_code: String,
    pub status_code: i64,
    pub error_message: String,
    pub error_related_to: Vec<String>,
}

impl FromJson for ResponseError {
    /// An object with strings under `ErrorIdentifier`, `ErrorCode` and
    /// `ErrorMessage`, an integer under `StatusCode` and a list of strings under
    /// `ErrorRelatedTo`.
    open spec fn readable(document: Json) -> bool {
        &&& document matches Json::Object(o)
        &&& req_readable::<String>(member(o, "ErrorIdentifier"@))
        &&& req_readable::<String>(member(o, "ErrorCode"@))
        &&& req_readable::<i64>(member(o, "StatusCode"@))
        &&& req_readable::<String>(member(o, "ErrorMessage"@))
        &&& req_readable::<Vec<String>>(member(o, "ErrorRelatedTo"@))
    }

    /// Each field is what the member of its name reads as.
    open spec fn read_from(&self, document: Json) -> bool {
        &&& document matches Json::Object(o)
        &&& req_read_from(self.error_identifier, member(o, "ErrorIdentifier"@))
        &&& req_read_from(self.error_code, member(o, "ErrorCode"@))
        &&& req_read_from(self.status_code, member(o, "StatusCode"@))
        &&& req_read_from(self.error_message, member(o, "ErrorMessage"@))
        &&& req_read_from(self.error_related_to, member(o, "ErrorRelatedTo"@))
    }

    fn from_json(value: &Value) -> (outcome: Result<ResponseError, Mismatch>) {
        let o = match as_object(value) {
            Some(o) => o,
            None => { return Err(Mismatch); },
        };
        let error_identifier = take::<String>(find_member(o, "ErrorIdentifier"))?;
        let error_code = take::<String>(find_member(o, "ErrorCode"))?;
        let status_code = take::<i64>(find_member(o, "StatusCode"))?;
        let error_message = take::<String>(find_member(o, "ErrorMessage"))?;
        let error_related_to = take::<Vec<String>>(find_member(o, "ErrorRelatedTo"))?;
        Ok(
            ResponseError {
                error_identifier,
                error_code,
                status_code,
                error_message,
                error_related_to,
            },
        )
    }
}

/// What the API tells of one accepted recipient. With API v3.1 it stands in
/// the lists of a [`SendResponseObject`]; with API v3 it is the item of the
/// answer itself.
#[derive(Debug)]
pub struct MessageObject {
    pub email: Option<String>,
    pub message_uuid: Option<String>,
    pub message_id: Option<i64>,
    pub message_href: Option<String>,
}

impl FromJson for MessageObject {
    /// An object in which `Email`, `MessageUUID` and `MessageHref` are strings and
    /// `MessageID` is an integer, where they are there.
    open spec fn readable(document: Json) -> bool {
        &&& document matches Json::Object(o)
        &&& opt_readable::<String>(member(o, "Email"@))
        &&& opt_readable::<String>(member(o, "MessageUUID"@))
        &&& opt_readable::<i64>(member(o, "MessageID"@))
        &&& opt_readable::<String>(member(o, "MessageHref"@))
    }

    /// Each field is what the member of its name reads as; a field whose member
    /// is missing is not set.
    open spec fn read_from(&self, document: Json) -> bool {
        &&& document matches Json::Object(o)
        &&& opt_read_from(self.email, member(o, "Email"@))
        &&& opt_read_from(self.message_uuid, member(o, "MessageUUID"@))
        &&& opt_read_from(self.message_id, member(o, "MessageID"@))
        &&& opt_read_from(self.message_href, member(o, "MessageHref"@))
    }

    fn from_json(value: &Value) -> (outcome: Result<MessageObject, Mismatch>) {
        let o = match as_object(value) {
            Some(o) => o,
            None => { return Err(Mismatch); },
        };
        let email = take_opt::<String>(find_member(o, "Email"))?;
        let message_uuid = take_opt::<String>(find_member(o, "MessageUUID"))?;
        let message_id = take_opt::<i64>(find_member(o, "MessageID"))?;
        let message_href = take_opt::<String>(find_member(o, "MessageHref"))?;
        Ok(MessageObject { email, message_uuid, message_id, message_href })
    }
}

/// What the `send` endpoint of API v3.1 answers for one message of a batch.
#[derive(Debug)]
pub struct SendResponseObject {
    pub status: ResponseStatus,
    pub errors: Option<Vec<ResponseError>>,
    pub to: Option<Vec<MessageObject>>,
    pub cc: Option<Vec<MessageObject>>,
    pub bcc: Option<Vec<MessageObject>>,
}

impl FromJson for SendResponseObject {
    /// An object with a status under `Status`; `Errors`, `To`, `Cc` and `Bcc` are
    /// lists where they are there.
    open spec fn readable(document: Json) -> bool {
        &&& document matches Json::Object(o)
        &&& req_readable::<ResponseStatus>(member(o, "Status"@))
        &&& opt_readable::<Vec<ResponseError>>(member(o, "Errors"@))
        &&& opt_readable::<Vec<MessageObject>>(member(o, "To"@))
        &&& opt_readable::<Vec<MessageObject>>(member(o, "Cc"@))
        &&& opt_readable::<Vec<MessageObject>>(member(o, "Bcc"@))
    }

    /// Each field is what the member of its name reads as; a field whose member
    /// is missing is not set.
    open spec fn read_from(&self, document: Json) -> bool {
        &&& document matches Json::Object(o)
        &&& req_read_from(self.status, member(o, "Status"@))
        &&& opt_read_from(self.errors, member(o, "Errors"@))
        &&& opt_read_from(self.to, member(o, "To"@))
        &&& opt_read_from(self.cc, member(o, "Cc"@))
        &&& opt_read_from(self.bcc, member(o, "Bcc"@))
    }

    fn from_json(value: &Value) -> (outcome: Result<SendResponseObject, Mismatch>) {
        let o = match as_object(value) {
            Some(o) => o,
            None => { return Err(Mismatch); },
        };
        let status = take::<ResponseStatus>(find_member(o, "Status"))?;
        let errors = take_opt::<Vec<ResponseError>>(find_member(o, "Errors"))?;
        let to = take_opt::<Vec<MessageObject>>(find_member(o, "To"))?;
        let cc = take_opt::<Vec<MessageObject>>(find_member(o, "Cc"))?;
        let bcc = take_opt::<Vec<MessageObject>>(find_member(o, "Bcc"))?;
        Ok(SendResponseObject { status, errors, to, cc, bcc })
    }
}

/// The kind of mail that a sender is used for.
#[derive(Debug, Clone, Copy, PartialEq, Eq, Structural)]
pub enum EmailType {
    /// Mail sent one by one, on an event.
    Transactional,
    /// Mail sent to many at once.
    Bulk,
    /// Not known.
    Unknown,
}

impl EmailType {
    /// The word that stands for the value on the wire.
    pub open spec fn word(self) -> Seq<char> {
        match self {
            EmailType::Transactional => "transactional"@,
            EmailType::Bulk => "bulk"@,
            EmailType::Unknown => "unknown"@,
        }
    }
}

impl Default for EmailType {
    /// The kind is not known unless it is given.
    fn default() -> (value: EmailType)
        ensures
            value == EmailType::Unknown,
    {
        EmailType::Unknown
    }
}

impl ToJson for EmailType {
    /// A string that holds the word of the value.
    open spec fn wire(&self) -> Json {
        Json::Text(self.word())
    }

    fn to_json(&self) -> (value: Value) {
        match self {
            EmailType::Transactional => text_value(String::from_str("transactional")),
            EmailType::Bulk => text_value(String::from_str("bulk")),
            EmailType::Unknown => text_value(String::from_str("unknown")),
        }
    }
}

impl FromJson for EmailType {
    /// A string that holds the word of one of the values.
    open spec fn readable(document: Json) -> bool {
        &&& document matches Json::Text(t)
        &&& {
            ||| t == "transactional"@
            ||| t == "bulk"@
            ||| t == "unknown"@
        }
    }

    open spec fn read_from(&self, document: Json) -> bool {
        document == Json::Text(self.word())
    }

    fn from_json(value: &Value) -> (outcome: Result<EmailType, Mismatch>) {
        match as_text(value) {
            Some(t) => if same_text(t, "transactional") {
                Ok(EmailType::Transactional)
            } else if same_text(t, "bulk") {
                Ok(EmailType::Bulk)
            } else if same_text(t, "unknown") {
                Ok(EmailType::Unknown)
            } else {
                Err(Mismatch)
            },
            None => Err(Mismatch),
        }
    }
}

impl RoundTrip for EmailType {
    proof fn lemma_reads_back(&self) {
    }
}

/// The state of a sender.
#[derive(Debug, Clone, Copy, PartialEq, Eq, Structural)]
pub enum Status {
    /// Not validated yet.
    Inactive,
    /// Validated and in use.
    Active,
    /// Removed.
    Deleted,
}

impl Status {
    /// The word that stands for the value on the wire.
    pub open spec fn word(self) -> Seq<char> {
        match self {
            Status::Inactive => "Inactive"@,
            Status::Active => "Active"@,
            Status::Deleted => "Deleted"@,
        }
    }
}

impl Default for Status {
    /// A sender is active unless told otherwise.
    fn default() -> (value: Status)
        ensures
            value == Status::Active,
    {
        Status::Active
    }
}

impl ToJson for Status {
    /// A string that holds the word of the value.
    open spec fn wire(&self) -> Json {
        Json::Text(self.word())
    }

    fn to_json(&self) -> (value: Value) {
        match self {
            Status::Inactive => text_value(String::from_str("Inactive")),
            Status::Active => text_value(String::from_str("Active")),
            Status::Deleted => text_value(String::from_str("Deleted")),
        }
    }
}

impl FromJson for Status {
    /// A string that holds the word of one of the values.
    open spec fn readable(document: Json) -> bool {
        &&& document matches Json::Text(t)
        &&& {
            ||| t == "Inactive"@
            ||| t == "Active"@
            ||| t == "Deleted"@
        }
    }

    open spec fn read_from(&self, document: Json) -> bool {
        document == Json::Text(self.word())
    }

    fn from_json(value: &Value) -> (outcome: Result<Status, Mismatch>) {
        match as_text(value) {
            Some(t) => if same_text(t, "Inactive") {
                Ok(Status::Inactive)
            } else if same_text(t, "Active") {
                Ok(Status::Active)
            } else if same_text(t, "Deleted") {
                Ok(Status::Deleted)
            } else {
                Err(Mismatch)
            },
            None => Err(Mismatch),
        }
    }
}

impl RoundTrip for Status {
    proof fn lemma_reads_back(&self) {
    }
}

/// A sender address or domain of an account.
#[derive(Debug, Clone)]
pub struct Sender {
    pub email_type: EmailType,
    pub is_default_sender: bool,
    pub name: String,
    pub created_at: String,
    pub dns_id: i64,
    pub email: String,
    pub filename: String,
    pub id: i64,
    pub status: Status,
}

impl Default for Sender {
    /// A sender with empty texts and zero identifiers, of unknown kind, active
    /// and not the default one.
    fn default() -> (sender: Sender)
        ensures
            sender.email_type == EmailType::Unknown,
            !sender.is_default_sender,
            sender.name@ == Seq::<char>::empty(),
            sender.created_at@ == Seq::<char>::empty(),
            sender.dns_id == 0,
            sender.email@ == Seq::<char>::empty(),
            sender.filename@ == Seq::<char>::empty(),
            sender.id == 0,
            sender.status == Status::Active,
    {
        Sender {
            email_type: EmailType::Unknown,
            is_default_sender: false,
            name: String::new(),
            created_at: String::new(),
            dns_id: 0,
            email: String::new(),
            filename: String::new(),
            id: 0,
            status: Status::Active,
        }
    }
}

impl FromJson for Sender {
    /// An object that has every member of a sender, each of the type of its
    /// field.
    open spec fn readable(document: Json) -> bool {
        &&& document matches Json::Object(o)
        &&& req_readable::<EmailType>(member(o, "EmailType"@))
        &&& req_readable::<bool>(member(o, "IsDefaultSender"@))
        &&& req_readable::<String>(member(o, "Name"@))
        &&& req_readable::<String>(member(o, "CreatedAt"@))
        &&& req_readable::<i64>(member(o, "DNSID"@))
        &&& req_readable::<String>(member(o, "Email"@))
        &&& req_readable::<String>(member(o, "Filename"@))
        &&& req_readable::<i64>(member(o, "ID"@))
        &&& req_readable::<Status>(member(o, "Status"@))
    }

    /// Each field is what the member of its name reads as.
    open spec fn read_from(&self, document: Json) -> bool {
        &&& document matches Json::Object(o)
        &&& req_read_from(self.email_type, member(o, "EmailType"@))
        &&& req_read_from(self.is_default_sender, member(o, "IsDefaultSender"@))
        &&& req_read_from(self.name, member(o, "Name"@))
        &&& req_read_from(self.created_at, member(o, "CreatedAt"@))
        &&& req_read_from(self.dns_id, member(o, "DNSID"@))
        &&& req_read_from(self.email, member(o, "Email"@))
        &&& req_read_from(self.filename, member(o, "Filename"@))
        &&& req_read_from(self.id, member(o, "ID"@))
        &&& req_read_from(self.status, member(o, "Status"@))
    }

    fn from_json(value: &Value) -> (outcome: Result<Sender, Mismatch>) {
        let o = match as_object(value) {
            Some(o) => o,
            None => { return Err(Mismatch); },
        };
        let email_type = take::<EmailType>(find_member(o, "EmailType"))?;
        let is_default_sender = take::<bool>(find_member(o, "IsDefaultSender"))?;
        let name = take::<String>(find_member(o, "Name"))?;
        let created_at = take::<String>(find_member(o, "CreatedAt"))?;
        let dns_id = take::<i64>(find_member(o, "DNSID"))?;
        let email = take::<String>(find_member(o, "Email"))?;
        let filename = take::<String>(find_member(o, "Filename"))?;
        let id = take::<i64>(find_member(o, "ID"))?;
        let status = take::<Status>(find_member(o, "Status"))?;
        Ok(
            Sender {
                email_type,
                is_default_sender,
                name,
                created_at,
                dns_id,
                email,
                filename,
                id,
                status,
            },
        )
    }
}

} // verus!
