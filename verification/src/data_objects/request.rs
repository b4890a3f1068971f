//! The parameters of the requests.

use crate::data_objects::message::{Message, MessageProperty};
use crate::json::{
    as_object, find_member, json_of, lemma_member_is_key, lemma_with_member,
    lemma_with_member_no_null, member, new_object, no_null_members, object_value, with_member,
    Json, Members, Mismatch,
};
use crate::wire::{
    lemma_opt_reads_back, opt_read_from, opt_readable, opt_wire, put, put_opt, req_read_from,
    req_readable, take, take_opt, FromJson, RoundTrip, ToJson,
};
use serde_json::Value;
use vstd::prelude::*;

verus! {

/// The parameters of the `send` endpoint of API v3.1: a batch of messages,
/// the properties they share, and two switches for the whole batch.
#[derive(Debug)]
pub struct SendEmailParams {
    pub sandbox_mode: Option<bool>,
    pub advance_error_handling: Option<bool>,
    pub globals: Option<MessageProperty>,
    pub messages: Vec<Message>,
}

impl SendEmailParams {
    /// The members of the object that stands for the batch when it is sent
    /// with the given sandbox switch: one for each field that is set, under the
    /// name that the API gives it.
    pub open spec fn members_in(self, sandbox_mode: Option<bool>) -> Members {
        let o = Members::empty();
        let o = with_member(o, "SandboxMode"@, opt_wire(sandbox_mode));
        let o = with_member(o, "AdvanceErrorHandling"@, opt_wire(self.advance_error_handling));
        let o = with_member(o, "Globals"@, opt_wire(self.globals));
        let o = with_member(o, "Messages"@, Some(self.messages.wire()));
        o
    }

    /// The members of the object that stands for the batch as it is.
    pub open spec fn members(self) -> Members {
        self.members_in(self.sandbox_mode)
    }

    /// Writes the batch as it is sent with the given sandbox switch, which
    /// takes the place of the batch's own.
    pub fn to_json_in(&self, sandbox_mode: Option<bool>) -> (value: Value)
        ensures
            json_of(value) == Json::Object(self.members_in(sandbox_mode)),
    {
        let mut o = new_object();
        put_opt(&mut o, "SandboxMode", &sandbox_mode);
        put_opt(&mut o, "AdvanceErrorHandling", &self.advance_error_handling);
        put_opt(&mut o, "Globals", &self.globals);
        put(&mut o, "Messages", &self.messages);
        object_value(o)
    }

    /// Each member of the object of the batch reads as the document of its field,
    /// and as missing where the field is not set.
    pub proof fn lemma_members_read(self)
        ensures
            member(self.members(), "SandboxMode"@) == opt_wire(self.sandbox_mode),
            member(self.members(), "AdvanceErrorHandling"@) == opt_wire(
                self.advance_error_handling,
            ),
            member(self.members(), "Globals"@) == opt_wire(self.globals),
            member(self.members(), "Messages"@) == Some(self.messages.wire()),
    {
        reveal_strlit("SandboxMode");
        reveal_strlit("AdvanceErrorHandling");
        reveal_strlit("Globals");
        reveal_strlit("Messages");
        assert("SandboxMode"@.len() == 11);
        assert("AdvanceErrorHandling"@.len() == 20);
        assert("Globals"@.len() == 7);
        assert("Messages"@.len() == 8);
        let o = Members::empty();
        let o = lemma_with_member(o, "SandboxMode"@, opt_wire(self.sandbox_mode));
        let o = lemma_with_member(
            o,
            "AdvanceErrorHandling"@,
            opt_wire(self.advance_error_handling),
        );
        let o = lemma_with_member(o, "Globals"@, opt_wire(self.globals));
        let o = lemma_with_member(o, "Messages"@, Some(self.messages.wire()));
    }

    /// No member of the object of the batch is `null`.
    pub proof fn lemma_no_null_members(self)
        ensures
            no_null_members(self.members()),
    {
        let o = Members::empty();
        assert(no_null_members(o)) by {
            reveal(no_null_members);
        }
        let o = lemma_with_member_no_null(o, "SandboxMode"@, opt_wire(self.sandbox_mode));
        let o = lemma_with_member_no_null(
            o,
            "AdvanceErrorHandling"@,
            opt_wire(self.advance_error_handling),
        );
        let o = lemma_with_member_no_null(o, "Globals"@, opt_wire(self.globals));
        let o = lemma_with_member_no_null(o, "Messages"@, Some(self.messages.wire()));
    }

    /// The object of the batch has a member exactly for each field that is set.
    pub proof fn lemma_members_follow_fields(self)
        ensures
            self.members().contains_key("SandboxMode"@) <==> self.sandbox_mode is Some,
            self.members().contains_key("AdvanceErrorHandling"@)
                <==> self.advance_error_handling is Some,
            self.members().contains_key("Globals"@) <==> self.globals is Some,
            self.members().contains_key("Messages"@),
    {
        self.lemma_members_read();
        self.lemma_no_null_members();
        lemma_member_is_key(self.members(), "SandboxMode"@);
        lemma_member_is_key(self.members(), "AdvanceErrorHandling"@);
        lemma_member_is_key(self.members(), "Globals"@);
        lemma_member_is_key(self.members(), "Messages"@);
    }

    /// Whether only the mandatory fields of the batch are set.
    pub open spec fn is_minimal(self) -> bool {
        &&& self.sandbox_mode is None
        &&& self.advance_error_handling is None
        &&& self.globals is None
    }

    /// Where only the mandatory fields are set, the object has their members
    /// and nothing else.
    pub proof fn lemma_minimal_members(self)
        requires
            self.is_minimal(),
        ensures
            self.members() == Members::empty()
                .insert("Messages"@, self.messages.wire()),
    {
        reveal(with_member);
    }

    /// Whether an object has the mandatory members of the batch, each readable,
    /// and no other member that belongs to a field.
    pub open spec fn has_mandatory_members_only(object: Members) -> bool {
        &&& req_readable::<Vec<Message>>(member(object, "Messages"@))
        &&& !object.contains_key("SandboxMode"@)
        &&& !object.contains_key("AdvanceErrorHandling"@)
        &&& !object.contains_key("Globals"@)
    }

    /// An object with the mandatory members and no other member that belongs
    /// to a field is readable, and what is read from it is minimal.
    pub proof fn lemma_mandatory_members_suffice(self, object: Members)
        requires
            Self::has_mandatory_members_only(object),
        ensures
            Self::readable(Json::Object(object)),
            self.read_from(Json::Object(object)) ==> self.is_minimal(),
    {
        reveal(member);
    }
}

impl ToJson for SendEmailParams {
    /// An object with the list `Messages` and one member for each switch or
    /// shared property that is set.
    open spec fn wire(&self) -> Json {
        Json::Object(self.members())
    }

    fn to_json(&self) -> (value: Value) {
        self.to_json_in(self.sandbox_mode)
    }
}

impl FromJson for SendEmailParams {
    /// An object with a list of messages under `Messages`; every other member of
    /// a known name follows the schema of its field.
    open spec fn readable(document: Json) -> bool {
        &&& document matches Json::Object(o)
        &&& opt_readable::<bool>(member(o, "SandboxMode"@))
        &&& opt_readable::<bool>(member(o, "AdvanceErrorHandling"@))
        &&& opt_readable::<MessageProperty>(member(o, "Globals"@))
        &&& req_readable::<Vec<Message>>(member(o, "Messages"@))
    }

    /// Each field is what the member of its name reads as; a field whose member
    /// is missing is not set.
    open spec fn read_from(&self, document: Json) -> bool {
        &&& document matches Json::Object(o)
        &&& opt_read_from(self.sandbox_mode, member(o, "SandboxMode"@))
        &&& opt_read_from(self.advance_error_handling, member(o, "AdvanceErrorHandling"@))
        &&& opt_read_from(self.globals, member(o, "Globals"@))
        &&& req_read_from(self.messages, member(o, "Messages"@))
    }

    fn from_json(value: &Value) -> (outcome: Result<SendEmailParams, Mismatch>) {
        let o = match as_object(value) {
            Some(o) => o,
            None => { return Err(Mismatch); },
        };
        let sandbox_mode = take_opt::<bool>(find_member(o, "SandboxMode"))?;
        let advance_error_handling = take_opt::<bool>(find_member(o, "AdvanceErrorHandling"))?;
        let globals = take_opt::<MessageProperty>(find_member(o, "Globals"))?;
        let messages = take::<Vec<Message>>(find_member(o, "Messages"))?;
        Ok(SendEmailParams { sandbox_mode, advance_error_handling, globals, messages })
    }
}

impl RoundTrip for SendEmailParams {
    proof fn lemma_reads_back(&self) {
        self.lemma_members_read();
        lemma_opt_reads_back(self.sandbox_mode);
        lemma_opt_reads_back(self.advance_error_handling);
        lemma_opt_reads_back(self.globals);
        self.messages.lemma_reads_back();
    }
}

/// The filters of a query for the senders of an account.
#[derive(Debug, Clone)]
pub struct SenderQuery {
    pub dns_id: Option<i64>,
    pub domain: Option<String>,
    pub email: Option<String>,
    pub is_domain_sender: Option<bool>,
    pub local_part: Option<String>,
    pub show_deleted: Option<bool>,
    pub status: Option<String>,
    pub limit: Option<u16>,
    pub offset: Option<u16>,
    pub count_only: Option<bool>,
    pub sort: Option<String>,
}

impl Default for SenderQuery {
    /// A query without filters.
    fn default() -> (query: SenderQuery)
        ensures
            query.dns_id is None,
            query.domain is None,
            query.email is None,
            query.is_domain_sender is None,
            query.local_part is None,
            query.show_deleted is None,
            query.status is None,
            query.limit is None,
            query.offset is None,
            query.count_only is None,
            query.sort is None,
    {
        SenderQuery {
            dns_id: None,
            domain: None,
            email: None,
            is_domain_sender: None,
            local_part: None,
            show_deleted: None,
            status: None,
            limit: None,
            offset: None,
            count_only: None,
            sort: None,
        }
    }
}

impl SenderQuery {
    /// The members of the object that stands for a query: one for each field
    /// that is set, under the name that the API gives it.
    pub open spec fn members(self) -> Members {
        let o = Members::empty();
        let o = with_member(o, "DnsID"@, opt_wire(self.dns_id));
        let o = with_member(o, "Domain"@, opt_wire(self.domain));
        let o = with_member(o, "Email"@, opt_wire(self.email));
        let o = with_member(o, "IsDomainSender"@, opt_wire(self.is_domain_sender));
        let o = with_member(o, "LocalPart"@, opt_wire(self.local_part));
        let o = with_member(o, "ShowDeleted"@, opt_wire(self.show_deleted));
        let o = with_member(o, "Status"@, opt_wire(self.status));
        let o = with_member(o, "Limit"@, opt_wire(self.limit));
        let o = with_member(o, "Offset"@, opt_wire(self.offset));
        let o = with_member(o, "CountOnly"@, opt_wire(self.count_only));
        let o = with_member(o, "Sort"@, opt_wire(self.sort));
        o
    }
}

impl ToJson for SenderQuery {
    /// An object with one member for each filter that is set.
    open spec fn wire(&self) -> Json {
        Json::Object(self.members())
    }

    fn to_json(&self) -> (value: Value) {
        let mut o = new_object();
        put_opt(&mut o, "DnsID", &self.dns_id);
        put_opt(&mut o, "Domain", &self.domain);
        put_opt(&mut o, "Email", &self.email);
        put_opt(&mut o, "IsDomainSender", &self.is_domain_sender);
        put_opt(&mut o, "LocalPart", &self.local_part);
        put_opt(&mut o, "ShowDeleted", &self.show_deleted);
        put_opt(&mut o, "Status", &self.status);
        put_opt(&mut o, "Limit", &self.limit);
        put_opt(&mut o, "Offset", &self.offset);
        put_opt(&mut o, "CountOnly", &self.count_only);
        put_opt(&mut o, "Sort", &self.sort);
        object_value(o)
    }
}

} // verus!
