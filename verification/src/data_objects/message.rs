//! The objects that describe an email: the structured message of API v3.1,
//! the flat message of API v3, and their parts.

use crate::data_objects::string_map::StringMap;
use crate::json::{
    as_object, as_text, find_member, lemma_member_is_key, lemma_with_member,
    lemma_with_member_no_null, member, new_object, no_null_members, object_value, same_text,
    text_value, with_member, Json, Members, Mismatch,
};
use crate::text::{opt_str, opt_text};
use crate::wire::{
    lemma_opt_reads_back, opt_read_from, opt_readable, opt_wire, put, put_opt, req_read_from,
    req_readable, take, take_opt, FromJson, RoundTrip, ToJson,
};
use serde_json::Value;
use vstd::prelude::*;
use vstd::string::StringExecFns;

verus! {

/// `names::Generator::default().next()`: a name drawn at random from the
/// generator's built-in word lists. With those lists the generator always
/// yields a name, an adjective and a noun with a hyphen between them, so the
/// name is never empty; which name it is is not determined.
#[verifier::external_body]
fn random_name() -> (name: Option<String>)
    ensures
        name is Some,
        name->0@.len() > 0,
        name->0@.contains('-'),
{
    names::Generator::default().next()
}

/// An email address with the display name and the template variables that go
/// with it.
#[derive(Debug)]
pub struct NameAndEmail {
    pub email: String,
    pub name: Option<String>,
    pub vars: Option<String>,
}

impl NameAndEmail {
    /// Whether the contact is the placeholder made from the word `random`:
    /// the word as the name, the word at `mail.com` as the address, no
    /// variables.
    pub open spec fn is_placeholder_of(self, random: Seq<char>) -> bool {
        &&& self.email@ == random + "@mail.com"@
        &&& opt_text(self.name) == Some(random)
        &&& self.vars is None
    }

    /// Whether the contact is the placeholder made from some word of the kind
    /// that is drawn: not empty, and with a hyphen in it.
    pub open spec fn is_placeholder(self) -> bool {
        exists|random: Seq<char>|
            random.len() > 0 && random.contains('-') && self.is_placeholder_of(random)
    }

    /// Whether the contact has the given address and display name, and no
    /// variables.
    pub open spec fn is_contact(self, email: Seq<char>, name: Option<Seq<char>>) -> bool {
        &&& self.email@ == email
        &&& opt_text(self.name) == name
        &&& self.vars is None
    }

    /// A contact with the given address and, if any, display name.
    pub fn new(email: &str, name: Option<&str>) -> (contact: NameAndEmail)
        ensures
            contact.is_contact(email@, opt_str(name)),
    {
        NameAndEmail {
            email: String::from_str(email),
            name: match name {
                Some(n) => Some(String::from_str(n)),
                None => None,
            },
            vars: None,
        }
    }

    /// The placeholder contact made from the word `random`.
    pub fn placeholder(random: &str) -> (contact: NameAndEmail)
        ensures
            contact.is_placeholder_of(random@),
    {
        let mut email = String::from_str(random);
        email.append("@mail.com");
        NameAndEmail { email, name: Some(String::from_str(random)), vars: None }
    }
}

/// The placeholder follows the word it is made from: different words give
/// different names and different addresses.
pub proof fn lemma_placeholder_follows_word(
    first: NameAndEmail,
    second: NameAndEmail,
    first_word: Seq<char>,
    second_word: Seq<char>,
)
    requires
        first.is_placeholder_of(first_word),
        second.is_placeholder_of(second_word),
        first_word != second_word,
    ensures
        opt_text(first.name) != opt_text(second.name),
        first.email@ != second.email@,
{
    let suffix = "@mail.com"@;
    if first.email@ == second.email@ {
        assert((first_word + suffix).len() == (second_word + suffix).len());
        assert((first_word + suffix).subrange(0, first_word.len() as int) =~= first_word);
        assert((second_word + suffix).subrange(0, second_word.len() as int) =~= second_word);
    }
}

impl Default for NameAndEmail {
    /// A placeholder contact made from a word drawn at random: a pseudo-random
    /// pair of name and address.
    fn default() -> (contact: NameAndEmail)
        ensures
            contact.is_placeholder(),
    {
        let random = random_name().unwrap();
        let contact = NameAndEmail::placeholder(random.as_str());
        assert(random@.len() > 0 && random@.contains('-'));
        assert(contact.is_placeholder_of(random@));
        contact
    }
}

impl NameAndEmail {
    /// The members of the object that stands for a contact: one for each field
    /// that is set, under the name that the API gives it.
    pub open spec fn members(self) -> Members {
        let o = Members::empty();
        let o = with_member(o, "Email"@, Some(self.email.wire()));
        let o = with_member(o, "Name"@, opt_wire(self.name));
        let o = with_member(o, "Vars"@, opt_wire(self.vars));
        o
    }

    /// Each member of the object of a contact reads as the document of its field,
    /// and as missing where the field is not set.
    pub proof fn lemma_members_read(self)
        ensures
            member(self.members(), "Email"@) == Some(self.email.wire()),
            member(self.members(), "Name"@) == opt_wire(self.name),
            member(self.members(), "Vars"@) == opt_wire(self.vars),
    {
        reveal_strlit("Email");
        reveal_strlit("Name");
        reveal_strlit("Vars");
        assert("Email"@.len() == 5);
        assert("Name"@.len() == 4 && "Name"@[0] == 'N');
        assert("Vars"@.len() == 4 && "Vars"@[0] == 'V');
        let o = Members::empty();
        let o = lemma_with_member(o, "Email"@, Some(self.email.wire()));
        let o = lemma_with_member(o, "Name"@, opt_wire(self.name));
        let o = lemma_with_member(o, "Vars"@, opt_wire(self.vars));
    }

    /// No member of the object of a contact is `null`.
    pub proof fn lemma_no_null_members(self)
        ensures
            no_null_members(self.members()),
    {
        let o = Members::empty();
        assert(no_null_members(o)) by {
            reveal(no_null_members);
        }
        let o = lemma_with_member_no_null(o, "Email"@, Some(self.email.wire()));
        let o = lemma_with_member_no_null(o, "Name"@, opt_wire(self.name));
        let o = lemma_with_member_no_null(o, "Vars"@, opt_wire(self.vars));
    }

    /// The object of a contact has a member exactly for each field that is set.
    pub proof fn lemma_members_follow_fields(self)
        ensures
            self.members().contains_key("Email"@),
            self.members().contains_key("Name"@) <==> self.name is Some,
            self.members().contains_key("Vars"@) <==> self.vars is Some,
    {
        self.lemma_members_read();
        self.lemma_no_null_members();
        lemma_member_is_key(self.members(), "Email"@);
        lemma_member_is_key(self.members(), "Name"@);
        lemma_member_is_key(self.members(), "Vars"@);
    }

    /// Whether only the mandatory fields of a contact are set.
    pub open spec fn is_minimal(self) -> bool {
        &&& self.name is None
        &&& self.vars is None
    }

    /// Where only the mandatory fields are set, the object has their members
    /// and nothing else.
    pub proof fn lemma_minimal_members(self)
        requires
            self.is_minimal(),
        ensures
            self.members() == Members::empty()
                .insert("Email"@, self.email.wire()),
    {
        reveal(with_member);
    }

    /// Whether an object has the mandatory members of a contact, each readable,
    /// and no other member that belongs to a field.
    pub open spec fn has_mandatory_members_only(object: Members) -> bool {
        &&& req_readable::<String>(member(object, "Email"@))
        &&& !object.contains_key("Name"@)
        &&& !object.contains_key("Vars"@)
    }

    /// An object with the mandatory members and no other member that belongs
    /// to a field is readable, and what is read from it is minimal.
    pub proof fn lemma_mandatory_members_suffice(self, object: Members)
        requires
            Self::has_mandatory_members_only(object),
        ensures
            Self::readable(Json::Object(object)),
            self.read_from(Json::Object(object)) ==> self.is_minimal(),
    {
        reveal(member);
    }
}

impl ToJson for NameAndEmail {
    /// An object with the address under `Email` and, where they are set, the
    /// name under `Name` and the variables under `Vars`.
    open spec fn wire(&self) -> Json {
        Json::Object(self.members())
    }

    fn to_json(&self) -> (value: Value) {
        let mut o = new_object();
        put(&mut o, "Email", &self.email);
        put_opt(&mut o, "Name", &self.name);
        put_opt(&mut o, "Vars", &self.vars);
        object_value(o)
    }
}

impl FromJson for NameAndEmail {
    /// An object with a string under `Email`; `Name` and `Vars` are strings where
    /// they are there.
    open spec fn readable(document: Json) -> bool {
        &&& document matches Json::Object(o)
        &&& req_readable::<String>(member(o, "Email"@))
        &&& opt_readable::<String>(member(o, "Name"@))
        &&& opt_readable::<String>(member(o, "Vars"@))
    }

    /// Each field is what the member of its name reads as.
    open spec fn read_from(&self, document: Json) -> bool {
        &&& document matches Json::Object(o)
        &&& req_read_from(self.email, member(o, "Email"@))
        &&& opt_read_from(self.name, member(o, "Name"@))
        &&& opt_read_from(self.vars, member(o, "Vars"@))
    }

    fn from_json(value: &Value) -> (outcome: Result<NameAndEmail, Mismatch>) {
        let o = match as_object(value) {
            Some(o) => o,
            None => { return Err(Mismatch); },
        };
        let email = take::<String>(find_member(o, "Email"))?;
        let name = take_opt::<String>(find_member(o, "Name"))?;
        let vars = take_opt::<String>(find_member(o, "Vars"))?;
        Ok(NameAndEmail { email, name, vars })
    }
}

impl RoundTrip for NameAndEmail {
    proof fn lemma_reads_back(&self) {
        self.lemma_members_read();
        self.email.lemma_reads_back();
        lemma_opt_reads_back(self.name);
        lemma_opt_reads_back(self.vars);
    }
}

/// A file attached to a message: its name, its MIME type and its content in
/// Base64. Nothing about the content is checked here.
#[derive(Debug)]
pub struct Attachment {
    pub filename: String,
    pub content_type: String,
    pub base_64_content: String,
}

impl Attachment {
    /// The members of the object that stands for an attachment: one for each field
    /// that is set, under the name that the API gives it.
    pub open spec fn members(self) -> Members {
        let o = Members::empty();
        let o = with_member(o, "Filename"@, Some(self.filename.wire()));
        let o = with_member(o, "ContentType"@, Some(self.content_type.wire()));
        let o = with_member(o, "Base64Content"@, Some(self.base_64_content.wire()));
        o
    }

    /// Each member of the object of an attachment reads as the document of its field,
    /// and as missing where the field is not set.
    pub proof fn lemma_members_read(self)
        ensures
            member(self.members(), "Filename"@) == Some(self.filename.wire()),
            member(self.members(), "ContentType"@) == Some(self.content_type.wire()),
            member(self.members(), "Base64Content"@) == Some(self.base_64_content.wire()),
    {
        reveal_strlit("Filename");
        reveal_strlit("ContentType");
        reveal_strlit("Base64Content");
        assert("Filename"@.len() == 8);
        assert("ContentType"@.len() == 11);
        assert("Base64Content"@.len() == 13);
        let o = Members::empty();
        let o = lemma_with_member(o, "Filename"@, Some(self.filename.wire()));
        let o = lemma_with_member(o, "ContentType"@, Some(self.content_type.wire()));
        let o = lemma_with_member(o, "Base64Content"@, Some(self.base_64_content.wire()));
    }
}

impl ToJson for Attachment {
    /// An object with the members `Filename`, `ContentType` and `Base64Content`.
    open spec fn wire(&self) -> Json {
        Json::Object(self.members())
    }

    fn to_json(&self) -> (value: Value) {
        let mut o = new_object();
        put(&mut o, "Filename", &self.filename);
        put(&mut o, "ContentType", &self.content_type);
        put(&mut o, "Base64Content", &self.base_64_content);
        object_value(o)
    }
}

impl FromJson for Attachment {
    /// An object with strings under `Filename`, `ContentType` and
    /// `Base64Content`.
    open spec fn readable(document: Json) -> bool {
        &&& document matches Json::Object(o)
        &&& req_readable::<String>(member(o, "Filename"@))
        &&& req_readable::<String>(member(o, "ContentType"@))
        &&& req_readable::<String>(member(o, "Base64Content"@))
    }

    /// Each field is what the member of its name reads as.
    open spec fn read_from(&self, document: Json) -> bool {
        &&& document matches Json::Object(o)
        &&& req_read_from(self.filename, member(o, "Filename"@))
        &&& req_read_from(self.content_type, member(o, "ContentType"@))
        &&& req_read_from(self.base_64_content, member(o, "Base64Content"@))
    }

    fn from_json(value: &Value) -> (outcome: Result<Attachment, Mismatch>) {
        let o = match as_object(value) {
            Some(o) => o,
            None => { return Err(Mismatch); },
        };
        let filename = take::<String>(find_member(o, "Filename"))?;
        let content_type = take::<String>(find_member(o, "ContentType"))?;
        let base_64_content = take::<String>(find_member(o, "Base64Content"))?;
        Ok(Attachment { filename, content_type, base_64_content })
    }
}

impl RoundTrip for Attachment {
    proof fn lemma_reads_back(&self) {
        self.lemma_members_read();
        self.filename.lemma_reads_back();
        self.content_type.lemma_reads_back();
        self.base_64_content.lemma_reads_back();
    }
}

/// Whether opens or clicks of a message are tracked.
#[derive(Debug, Clone, Copy, PartialEq, Eq, Structural)]
pub enum Track {
    /// What the account is set to.
    AccountDefault,
    /// No tracking.
    Disabled,
    /// Tracking.
    Enabled,
}

impl Track {
    /// The word that stands for the value on the wire.
    pub open spec fn word(self) -> Seq<char> {
        match self {
            Track::AccountDefault => "account_default"@,
            Track::Disabled => "disabled"@,
            Track::Enabled => "enabled"@,
        }
    }
}

impl Default for Track {
    /// The setting of the account is the default.
    fn default() -> (value: Track)
        ensures
            value == Track::AccountDefault,
    {
        Track::AccountDefault
    }
}

impl ToJson for Track {
    /// A string that holds the word of the value.
    open spec fn wire(&self) -> Json {
        Json::Text(self.word())
    }

    fn to_json(&self) -> (value: Value) {
        match self {
            Track::AccountDefault => text_value(String::from_str("account_default")),
            Track::Disabled => text_value(String::from_str("disabled")),
            Track::Enabled => text_value(String::from_str("enabled")),
        }
    }
}

impl FromJson for Track {
    /// A string that holds the word of one of the values.
    open spec fn readable(document: Json) -> bool {
        &&& document matches Json::Text(t)
        &&& {
            ||| t == "account_default"@
            ||| t == "disabled"@
            ||| t == "enabled"@
        }
    }

    open spec fn read_from(&self, document: Json) -> bool {
        document == Json::Text(self.word())
    }

    fn from_json(value: &Value) -> (outcome: Result<Track, Mismatch>) {
        match as_text(value) {
            Some(t) => if same_text(t, "account_default") {
                Ok(Track::AccountDefault)
            } else if same_text(t, "disabled") {
                Ok(Track::Disabled)
            } else if same_text(t, "enabled") {
                Ok(Track::Enabled)
            } else {
                Err(Mismatch)
            },
            None => Err(Mismatch),
        }
    }
}

impl RoundTrip for Track {
    proof fn lemma_reads_back(&self) {
    }
}

/// A message for the `send` endpoint of API v3.1. Only the sender is
/// mandatory; a field that is not set is left out of the request.
#[derive(Debug)]
pub struct Message {
    pub from: NameAndEmail,
    pub sender: Option<NameAndEmail>,
    pub to: Option<Vec<NameAndEmail>>,
    pub cc: Option<Vec<NameAndEmail>>,
    pub bcc: Option<Vec<NameAndEmail>>,
    pub reply_to: Option<NameAndEmail>,
    pub subject: Option<String>,
    pub text_part: Option<String>,
    pub html_part: Option<String>,
    pub template_id: Option<u64>,
    pub template_language: Option<bool>,
    pub template_error_reporting: Option<NameAndEmail>,
    pub template_error_deliver: Option<bool>,
    pub attachments: Option<Vec<Attachment>>,
    pub inline_attachments: Option<Vec<Attachment>>,
    pub priority: Option<u8>,
    pub custom_campaign: Option<String>,
    pub deduplicate_campaign: Option<bool>,
    pub track_opens: Option<Track>,
    pub track_clicks: Option<Track>,
    pub custom_id: Option<String>,
    pub event_payload: Option<String>,
    pub url_tags: Option<String>,
    pub headers: Option<StringMap>,
    pub variables: Option<StringMap>,
}

impl Message {
    /// The members of the object that stands for a message: one for each field
    /// that is set, under the name that the API gives it.
    pub open spec fn members(self) -> Members {
        let o = Members::empty();
        let o = with_member(o, "From"@, Some(self.from.wire()));
        let o = with_member(o, "Sender"@, opt_wire(self.sender));
        let o = with_member(o, "To"@, opt_wire(self.to));
        let o = with_member(o, "Cc"@, opt_wire(self.cc));
        let o = with_member(o, "Bcc"@, opt_wire(self.bcc));
        let o = with_member(o, "ReplyTo"@, opt_wire(self.reply_to));
        let o = with_member(o, "Subject"@, opt_wire(self.subject));
        let o = with_member(o, "TextPart"@, opt_wire(self.text_part));
        let o = with_member(o, "HtmlPart"@, opt_wire(self.html_part));
        let o = with_member(o, "TemplateId"@, opt_wire(self.template_id));
        let o = with_member(o, "TemplateLanguage"@, opt_wire(self.template_language));
        let o = with_member(o, "TemplateErrorReporting"@, opt_wire(self.template_error_reporting));
        let o = with_member(o, "TemplateErrorDeliver"@, opt_wire(self.template_error_deliver));
        let o = with_member(o, "Attachments"@, opt_wire(self.attachments));
        let o = with_member(o, "InlineAttachments"@, opt_wire(self.inline_attachments));
        let o = with_member(o, "Priority"@, opt_wire(self.priority));
        let o = with_member(o, "CustomCampaign"@, opt_wire(self.custom_campaign));
        let o = with_member(o, "DeduplicateCampaign"@, opt_wire(self.deduplicate_campaign));
        let o = with_member(o, "TrackOpens"@, opt_wire(self.track_opens));
        let o = with_member(o, "TrackClicks"@, opt_wire(self.track_clicks));
        let o = with_member(o, "CustomID"@, opt_wire(self.custom_id));
        let o = with_member(o, "EventPayload"@, opt_wire(self.event_payload));
        let o = with_member(o, "URLTags"@, opt_wire(self.url_tags));
        let o = with_member(o, "Headers"@, opt_wire(self.headers));
        let o = with_member(o, "Variables"@, opt_wire(self.variables));
        o
    }

    /// Each member of the object of a message reads as the document of its field,
    /// and as missing where the field is not set.
    pub proof fn lemma_members_read(self)
        ensures
            member(self.members(), "From"@) == Some(self.from.wire()),
            member(self.members(), "Sender"@) == opt_wire(self.sender),
            member(self.members(), "To"@) == opt_wire(self.to),
            member(self.members(), "Cc"@) == opt_wire(self.cc),
            member(self.members(), "Bcc"@) == opt_wire(self.bcc),
            member(self.members(), "ReplyTo"@) == opt_wire(self.reply_to),
            member(self.members(), "Subject"@) == opt_wire(self.subject),
            member(self.members(), "TextPart"@) == opt_wire(self.text_part),
            member(self.members(), "HtmlPart"@) == opt_wire(self.html_part),
            member(self.members(), "TemplateId"@) == opt_wire(self.template_id),
            member(self.members(), "TemplateLanguage"@) == opt_wire(self.template_language),
            member(self.members(), "TemplateErrorReporting"@) == opt_wire(
                self.template_error_reporting,
            ),
            member(self.members(), "TemplateErrorDeliver"@) == opt_wire(
                self.template_error_deliver,
            ),
            member(self.members(), "Attachments"@) == opt_wire(self.attachments),
            member(self.members(), "InlineAttachments"@) == opt_wire(self.inline_attachments),
            member(self.members(), "Priority"@) == opt_wire(self.priority),
            member(self.members(), "CustomCampaign"@) == opt_wire(self.custom_campaign),
            member(self.members(), "DeduplicateCampaign"@) == opt_wire(self.deduplicate_campaign),
            member(self.members(), "TrackOpens"@) == opt_wire(self.track_opens),
            member(self.members(), "TrackClicks"@) == opt_wire(self.track_clicks),
            member(self.members(), "CustomID"@) == opt_wire(self.custom_id),
            member(self.members(), "EventPayload"@) == opt_wire(self.event_payload),
            member(self.members(), "URLTags"@) == opt_wire(self.url_tags),
            member(self.members(), "Headers"@) == opt_wire(self.headers),
            member(self.members(), "Variables"@) == opt_wire(self.variables),
    {
        reveal_strlit("From");
        reveal_strlit("Sender");
        reveal_strlit("To");
        reveal_strlit("Cc");
        reveal_strlit("Bcc");
        reveal_strlit("ReplyTo");
        reveal_strlit("Subject");
        reveal_strlit("TextPart");
        reveal_strlit("HtmlPart");
        reveal_strlit("TemplateId");
        reveal_strlit("TemplateLanguage");
        reveal_strlit("TemplateErrorReporting");
        reveal_strlit("TemplateErrorDeliver");
        reveal_strlit("Attachments");
        reveal_strlit("InlineAttachments");
        reveal_strlit("Priority");
        reveal_strlit("CustomCampaign");
        reveal_strlit("DeduplicateCampaign");
        reveal_strlit("TrackOpens");
        reveal_strlit("TrackClicks");
        reveal_strlit("CustomID");
        reveal_strlit("EventPayload");
        reveal_strlit("URLTags");
        reveal_strlit("Headers");
        reveal_strlit("Variables");
        assert("From"@.len() == 4);
        assert("Sender"@.len() == 6);
        assert("To"@.len() == 2 && "To"@[0] == 'T');
        assert("Cc"@.len() == 2 && "Cc"@[0] == 'C');
        assert("Bcc"@.len() == 3);
        assert("ReplyTo"@.len() == 7 && "ReplyTo"@[0] == 'R');
        assert("Subject"@.len() == 7 && "Subject"@[0] == 'S');
        assert("TextPart"@.len() == 8 && "TextPart"@[0] == 'T');
        assert("HtmlPart"@.len() == 8 && "HtmlPart"@[0] == 'H');
        assert("TemplateId"@.len() == 10 && "TemplateId"@[1] == 'e');
        assert("TemplateLanguage"@.len() == 16);
        assert("TemplateErrorReporting"@.len() == 22);
        assert("TemplateErrorDeliver"@.len() == 20);
        assert("Attachments"@.len() == 11 && "Attachments"@[0] == 'A');
        assert("InlineAttachments"@.len() == 17);
        assert("Priority"@.len() == 8 && "Priority"@[0] == 'P');
        assert("CustomCampaign"@.len() == 14);
        assert("DeduplicateCampaign"@.len() == 19);
        assert("TrackOpens"@.len() == 10 && "TrackOpens"@[1] == 'r');
        assert("TrackClicks"@.len() == 11 && "TrackClicks"@[0] == 'T');
        assert("CustomID"@.len() == 8 && "CustomID"@[0] == 'C');
        assert("EventPayload"@.len() == 12);
        assert("URLTags"@.len() == 7 && "URLTags"@[0] == 'U');
        assert("Headers"@.len() == 7 && "Headers"@[0] == 'H');
        assert("Variables"@.len() == 9);
        let o = Members::empty();
        let o = lemma_with_member(o, "From"@, Some(self.from.wire()));
        let o = lemma_with_member(o, "Sender"@, opt_wire(self.sender));
        let o = lemma_with_member(o, "To"@, opt_wire(self.to));
        let o = lemma_with_member(o, "Cc"@, opt_wire(self.cc));
        let o = lemma_with_member(o, "Bcc"@, opt_wire(self.bcc));
        let o = lemma_with_member(o, "ReplyTo"@, opt_wire(self.reply_to));
        let o = lemma_with_member(o, "Subject"@, opt_wire(self.subject));
        let o = lemma_with_member(o, "TextPart"@, opt_wire(self.text_part));
        let o = lemma_with_member(o, "HtmlPart"@, opt_wire(self.html_part));
        let o = lemma_with_member(o, "TemplateId"@, opt_wire(self.template_id));
        let o = lemma_with_member(o, "TemplateLanguage"@, opt_wire(self.template_language));
        let o = lemma_with_member(
            o,
            "TemplateErrorReporting"@,
            opt_wire(self.template_error_reporting),
        );
        let o = lemma_with_member(
            o,
            "TemplateErrorDeliver"@,
            opt_wire(self.template_error_deliver),
        );
        let o = lemma_with_member(o, "Attachments"@, opt_wire(self.attachments));
        let o = lemma_with_member(o, "InlineAttachments"@, opt_wire(self.inline_attachments));
        let o = lemma_with_member(o, "Priority"@, opt_wire(self.priority));
        let o = lemma_with_member(o, "CustomCampaign"@, opt_wire(self.custom_campaign));
        let o = lemma_with_member(o, "DeduplicateCampaign"@, opt_wire(self.deduplicate_campaign));
        let o = lemma_with_member(o, "TrackOpens"@, opt_wire(self.track_opens));
        let o = lemma_with_member(o, "TrackClicks"@, opt_wire(self.track_clicks));
        let o = lemma_with_member(o, "CustomID"@, opt_wire(self.custom_id));
        let o = lemma_with_member(o, "EventPayload"@, opt_wire(self.event_payload));
        let o = lemma_with_member(o, "URLTags"@, opt_wire(self.url_tags));
        let o = lemma_with_member(o, "Headers"@, opt_wire(self.headers));
        let o = lemma_with_member(o, "Variables"@, opt_wire(self.variables));
    }

    /// No member of the object of a message is `null`.
    pub proof fn lemma_no_null_members(self)
        ensures
            no_null_members(self.members()),
    {
        let o = Members::empty();
        assert(no_null_members(o)) by {
            reveal(no_null_members);
        }
        let o = lemma_with_member_no_null(o, "From"@, Some(self.from.wire()));
        let o = lemma_with_member_no_null(o, "Sender"@, opt_wire(self.sender));
        let o = lemma_with_member_no_null(o, "To"@, opt_wire(self.to));
        let o = lemma_with_member_no_null(o, "Cc"@, opt_wire(self.cc));
        let o = lemma_with_member_no_null(o, "Bcc"@, opt_wire(self.bcc));
        let o = lemma_with_member_no_null(o, "ReplyTo"@, opt_wire(self.reply_to));
        let o = lemma_with_member_no_null(o, "Subject"@, opt_wire(self.subject));
        let o = lemma_with_member_no_null(o, "TextPart"@, opt_wire(self.text_part));
        let o = lemma_with_member_no_null(o, "HtmlPart"@, opt_wire(self.html_part));
        let o = lemma_with_member_no_null(o, "TemplateId"@, opt_wire(self.template_id));
        let o = lemma_with_member_no_null(o, "TemplateLanguage"@, opt_wire(self.template_language));
        let o = lemma_with_member_no_null(
            o,
            "TemplateErrorReporting"@,
            opt_wire(self.template_error_reporting),
        );
        let o = lemma_with_member_no_null(
            o,
            "TemplateErrorDeliver"@,
            opt_wire(self.template_error_deliver),
        );
        let o = lemma_with_member_no_null(o, "Attachments"@, opt_wire(self.attachments));
        let o = lemma_with_member_no_null(
            o,
            "InlineAttachments"@,
            opt_wire(self.inline_attachments),
        );
        let o = lemma_with_member_no_null(o, "Priority"@, opt_wire(self.priority));
        let o = lemma_with_member_no_null(o, "CustomCampaign"@, opt_wire(self.custom_campaign));
        let o = lemma_with_member_no_null(
            o,
            "DeduplicateCampaign"@,
            opt_wire(self.deduplicate_campaign),
        );
        let o = lemma_with_member_no_null(o, "TrackOpens"@, opt_wire(self.track_opens));
        let o = lemma_with_member_no_null(o, "TrackClicks"@, opt_wire(self.track_clicks));
        let o = lemma_with_member_no_null(o, "CustomID"@, opt_wire(self.custom_id));
        let o = lemma_with_member_no_null(o, "EventPayload"@, opt_wire(self.event_payload));
        let o = lemma_with_member_no_null(o, "URLTags"@, opt_wire(self.url_tags));
        let o = lemma_with_member_no_null(o, "Headers"@, opt_wire(self.headers));
        let o = lemma_with_member_no_null(o, "Variables"@, opt_wire(self.variables));
    }

    /// The object of a message has a member exactly for each field that is set.
    pub proof fn lemma_members_follow_fields(self)
        ensures
            self.members().contains_key("From"@),
            self.members().contains_key("Sender"@) <==> self.sender is Some,
            self.members().contains_key("To"@) <==> self.to is Some,
            self.members().contains_key("Cc"@) <==> self.cc is Some,
            self.members().contains_key("Bcc"@) <==> self.bcc is Some,
            self.members().contains_key("ReplyTo"@) <==> self.reply_to is Some,
            self.members().contains_key("Subject"@) <==> self.subject is Some,
            self.members().contains_key("TextPart"@) <==> self.text_part is Some,
            self.members().contains_key("HtmlPart"@) <==> self.html_part is Some,
            self.members().contains_key("TemplateId"@) <==> self.template_id is Some,
            self.members().contains_key("TemplateLanguage"@) <==> self.template_language is Some,
            self.members().contains_key("TemplateErrorReporting"@)
                <==> self.template_error_reporting is Some,
            self.members().contains_key("TemplateErrorDeliver"@)
                <==> self.template_error_deliver is Some,
            self.members().contains_key("Attachments"@) <==> self.attachments is Some,
            self.members().contains_key("InlineAttachments"@) <==> self.inline_attachments is Some,
            self.members().contains_key("Priority"@) <==> self.priority is Some,
            self.members().contains_key("CustomCampaign"@) <==> self.custom_campaign is Some,
            self.members().contains_key("DeduplicateCampaign"@)
                <==> self.deduplicate_campaign is Some,
            self.members().contains_key("TrackOpens"@) <==> self.track_opens is Some,
            self.members().contains_key("TrackClicks"@) <==> self.track_clicks is Some,
            self.members().contains_key("CustomID"@) <==> self.custom_id is Some,
            self.members().contains_key("EventPayload"@) <==> self.event_payload is Some,
            self.members().contains_key("URLTags"@) <==> self.url_tags is Some,
            self.members().contains_key("Headers"@) <==> self.headers is Some,
            self.members().contains_key("Variables"@) <==> self.variables is Some,
    {
        self.lemma_members_read();
        self.lemma_no_null_members();
        lemma_member_is_key(self.members(), "From"@);
        lemma_member_is_key(self.members(), "Sender"@);
        lemma_member_is_key(self.members(), "To"@);
        lemma_member_is_key(self.members(), "Cc"@);
        lemma_member_is_key(self.members(), "Bcc"@);
        lemma_member_is_key(self.members(), "ReplyTo"@);
        lemma_member_is_key(self.members(), "Subject"@);
        lemma_member_is_key(self.members(), "TextPart"@);
        lemma_member_is_key(self.members(), "HtmlPart"@);
        lemma_member_is_key(self.members(), "TemplateId"@);
        lemma_member_is_key(self.members(), "TemplateLanguage"@);
        lemma_member_is_key(self.members(), "TemplateErrorReporting"@);
        lemma_member_is_key(self.members(), "TemplateErrorDeliver"@);
        lemma_member_is_key(self.members(), "Attachments"@);
        lemma_member_is_key(self.members(), "InlineAttachments"@);
        lemma_member_is_key(self.members(), "Priority"@);
        lemma_member_is_key(self.members(), "CustomCampaign"@);
        lemma_member_is_key(self.members(), "DeduplicateCampaign"@);
        lemma_member_is_key(self.members(), "TrackOpens"@);
        lemma_member_is_key(self.members(), "TrackClicks"@);
        lemma_member_is_key(self.members(), "CustomID"@);
        lemma_member_is_key(self.members(), "EventPayload"@);
        lemma_member_is_key(self.members(), "URLTags"@);
        lemma_member_is_key(self.members(), "Headers"@);
        lemma_member_is_key(self.members(), "Variables"@);
    }

    /// Whether only the mandatory fields of a message are set.
    pub open spec fn is_minimal(self) -> bool {
        &&& self.sender is None
        &&& self.to is None
        &&& self.cc is None
        &&& self.bcc is None
        &&& self.reply_to is None
        &&& self.subject is None
        &&& self.text_part is None
        &&& self.html_part is None
        &&& self.template_id is None
        &&& self.template_language is None
        &&& self.template_error_reporting is None
        &&& self.template_error_deliver is None
        &&& self.attachments is None
        &&& self.inline_attachments is None
        &&& self.priority is None
        &&& self.custom_campaign is None
        &&& self.deduplicate_campaign is None
        &&& self.track_opens is None
        &&& self.track_clicks is None
        &&& self.custom_id is None
        &&& self.event_payload is None
        &&& self.url_tags is None
        &&& self.headers is None
        &&& self.variables is None
    }

    /// Where only the mandatory fields are set, the object has their members
    /// and nothing else.
    pub proof fn lemma_minimal_members(self)
        requires
            self.is_minimal(),
        ensures
            self.members() == Members::empty()
                .insert("From"@, self.from.wire()),
    {
        reveal(with_member);
    }

    /// Whether an object has the mandatory members of a message, each readable,
    /// and no other member that belongs to a field.
    pub open spec fn has_mandatory_members_only(object: Members) -> bool {
        &&& req_readable::<NameAndEmail>(member(object, "From"@))
        &&& !object.contains_key("Sender"@)
        &&& !object.contains_key("To"@)
        &&& !object.contains_key("Cc"@)
        &&& !object.contains_key("Bcc"@)
        &&& !object.contains_key("ReplyTo"@)
        &&& !object.contains_key("Subject"@)
        &&& !object.contains_key("TextPart"@)
        &&& !object.contains_key("HtmlPart"@)
        &&& !object.contains_key("TemplateId"@)
        &&& !object.contains_key("TemplateLanguage"@)
        &&& !object.contains_key("TemplateErrorReporting"@)
        &&& !object.contains_key("TemplateErrorDeliver"@)
        &&& !object.contains_key("Attachments"@)
        &&& !object.contains_key("InlineAttachments"@)
        &&& !object.contains_key("Priority"@)
        &&& !object.contains_key("CustomCampaign"@)
        &&& !object.contains_key("DeduplicateCampaign"@)
        &&& !object.contains_key("TrackOpens"@)
        &&& !object.contains_key("TrackClicks"@)
        &&& !object.contains_key("CustomID"@)
        &&& !object.contains_key("EventPayload"@)
        &&& !object.contains_key("URLTags"@)
        &&& !object.contains_key("Headers"@)
        &&& !object.contains_key("Variables"@)
    }

    /// An object with the mandatory members and no other member that belongs
    /// to a field is readable, and what is read from it is minimal.
    pub proof fn lemma_mandatory_members_suffice(self, object: Members)
        requires
            Self::has_mandatory_members_only(object),
        ensures
            Self::readable(Json::Object(object)),
            self.read_from(Json::Object(object)) ==> self.is_minimal(),
    {
        reveal(member);
    }
}

impl ToJson for Message {
    /// An object with the sender under `From` and one member for each other
    /// field that is set.
    open spec fn wire(&self) -> Json {
        Json::Object(self.members())
    }

    fn to_json(&self) -> (value: Value) {
        let mut o = new_object();
        put(&mut o, "From", &self.from);
        put_opt(&mut o, "Sender", &self.sender);
        put_opt(&mut o, "To", &self.to);
        put_opt(&mut o, "Cc", &self.cc);
        put_opt(&mut o, "Bcc", &self.bcc);
        put_opt(&mut o, "ReplyTo", &self.reply_to);
        put_opt(&mut o, "Subject", &self.subject);
        put_opt(&mut o, "TextPart", &self.text_part);
        put_opt(&mut o, "HtmlPart", &self.html_part);
        put_opt(&mut o, "TemplateId", &self.template_id);
        put_opt(&mut o, "TemplateLanguage", &self.template_language);
        put_opt(&mut o, "TemplateErrorReporting", &self.template_error_reporting);
        put_opt(&mut o, "TemplateErrorDeliver", &self.template_error_deliver);
        put_opt(&mut o, "Attachments", &self.attachments);
        put_opt(&mut o, "InlineAttachments", &self.inline_attachments);
        put_opt(&mut o, "Priority", &self.priority);
        put_opt(&mut o, "CustomCampaign", &self.custom_campaign);
        put_opt(&mut o, "DeduplicateCampaign", &self.deduplicate_campaign);
        put_opt(&mut o, "TrackOpens", &self.track_opens);
        put_opt(&mut o, "TrackClicks", &self.track_clicks);
        put_opt(&mut o, "CustomID", &self.custom_id);
        put_opt(&mut o, "EventPayload", &self.event_payload);
        put_opt(&mut o, "URLTags", &self.url_tags);
        put_opt(&mut o, "Headers", &self.headers);
        put_opt(&mut o, "Variables", &self.variables);
        object_value(o)
    }
}

impl FromJson for Message {
    /// An object with a contact under `From`; every other member of a known
    /// name follows the schema of its field.
    open spec fn readable(document: Json) -> bool {
        &&& document matches Json::Object(o)
        &&& req_readable::<NameAndEmail>(member(o, "From"@))
        &&& opt_readable::<NameAndEmail>(member(o, "Sender"@))
        &&& opt_readable::<Vec<NameAndEmail>>(member(o, "To"@))
        &&& opt_readable::<Vec<NameAndEmail>>(member(o, "Cc"@))
        &&& opt_readable::<Vec<NameAndEmail>>(member(o, "Bcc"@))
        &&& opt_readable::<NameAndEmail>(member(o, "ReplyTo"@))
        &&& opt_readable::<String>(member(o, "Subject"@))
        &&& opt_readable::<String>(member(o, "TextPart"@))
        &&& opt_readable::<String>(member(o, "HtmlPart"@))
        &&& opt_readable::<u64>(member(o, "TemplateId"@))
        &&& opt_readable::<bool>(member(o, "TemplateLanguage"@))
        &&& opt_readable::<NameAndEmail>(member(o, "TemplateErrorReporting"@))
        &&& opt_readable::<bool>(member(o, "TemplateErrorDeliver"@))
        &&& opt_readable::<Vec<Attachment>>(member(o, "Attachments"@))
        &&& opt_readable::<Vec<Attachment>>(member(o, "InlineAttachments"@))
        &&& opt_readable::<u8>(member(o, "Priority"@))
        &&& opt_readable::<String>(member(o, "CustomCampaign"@))
        &&& opt_readable::<bool>(member(o, "DeduplicateCampaign"@))
        &&& opt_readable::<Track>(member(o, "TrackOpens"@))
        &&& opt_readable::<Track>(member(o, "TrackClicks"@))
        &&& opt_readable::<String>(member(o, "CustomID"@))
        &&& opt_readable::<String>(member(o, "EventPayload"@))
        &&& opt_readable::<String>(member(o, "URLTags"@))
        &&& opt_readable::<StringMap>(member(o, "Headers"@))
        &&& opt_readable::<StringMap>(member(o, "Variables"@))
    }

    /// Each field is what the member of its name reads as; a field whose member
    /// is missing is not set.
    open spec fn read_from(&self, document: Json) -> bool {
        &&& document matches Json::Object(o)
        &&& req_read_from(self.from, member(o, "From"@))
        &&& opt_read_from(self.sender, member(o, "Sender"@))
        &&& opt_read_from(self.to, member(o, "To"@))
        &&& opt_read_from(self.cc, member(o, "Cc"@))
        &&& opt_read_from(self.bcc, member(o, "Bcc"@))
        &&& opt_read_from(self.reply_to, member(o, "ReplyTo"@))
        &&& opt_read_from(self.subject, member(o, "Subject"@))
        &&& opt_read_from(self.text_part, member(o, "TextPart"@))
        &&& opt_read_from(self.html_part, member(o, "HtmlPart"@))
        &&& opt_read_from(self.template_id, member(o, "TemplateId"@))
        &&& opt_read_from(self.template_language, member(o, "TemplateLanguage"@))
        &&& opt_read_from(self.template_error_reporting, member(o, "TemplateErrorReporting"@))
        &&& opt_read_from(self.template_error_deliver, member(o, "TemplateErrorDeliver"@))
        &&& opt_read_from(self.attachments, member(o, "Attachments"@))
        &&& opt_read_from(self.inline_attachments, member(o, "InlineAttachments"@))
        &&& opt_read_from(self.priority, member(o, "Priority"@))
        &&& opt_read_from(self.custom_campaign, member(o, "CustomCampaign"@))
        &&& opt_read_from(self.deduplicate_campaign, member(o, "DeduplicateCampaign"@))
        &&& opt_read_from(self.track_opens, member(o, "TrackOpens"@))
        &&& opt_read_from(self.track_clicks, member(o, "TrackClicks"@))
        &&& opt_read_from(self.custom_id, member(o, "CustomID"@))
        &&& opt_read_from(self.event_payload, member(o, "EventPayload"@))
        &&& opt_read_from(self.url_tags, member(o, "URLTags"@))
        &&& opt_read_from(self.headers, member(o, "Headers"@))
        &&& opt_read_from(self.variables, member(o, "Variables"@))
    }

    fn from_json(value: &Value) -> (outcome: Result<Message, Mismatch>) {
        let o = match as_object(value) {
            Some(o) => o,
            None => { return Err(Mismatch); },
        };
        let from = take::<NameAndEmail>(find_member(o, "From"))?;
        let sender = take_opt::<NameAndEmail>(find_member(o, "Sender"))?;
        let to = take_opt::<Vec<NameAndEmail>>(find_member(o, "To"))?;
        let cc = take_opt::<Vec<NameAndEmail>>(find_member(o, "Cc"))?;
        let bcc = take_opt::<Vec<NameAndEmail>>(find_member(o, "Bcc"))?;
        let reply_to = take_opt::<NameAndEmail>(find_member(o, "ReplyTo"))?;
        let subject = take_opt::<String>(find_member(o, "Subject"))?;
        let text_part = take_opt::<String>(find_member(o, "TextPart"))?;
        let html_part = take_opt::<String>(find_member(o, "HtmlPart"))?;
        let template_id = take_opt::<u64>(find_member(o, "TemplateId"))?;
        let template_language = take_opt::<bool>(find_member(o, "TemplateLanguage"))?;
        let template_error_reporting = take_opt::<NameAndEmail>(
            find_member(o, "TemplateErrorReporting"),
        )?;
        let template_error_deliver = take_opt::<bool>(find_member(o, "TemplateErrorDeliver"))?;
        let attachments = take_opt::<Vec<Attachment>>(find_member(o, "Attachments"))?;
        let inline_attachments = take_opt::<Vec<Attachment>>(find_member(o, "InlineAttachments"))?;
        let priority = take_opt::<u8>(find_member(o, "Priority"))?;
        let custom_campaign = take_opt::<String>(find_member(o, "CustomCampaign"))?;
        let deduplicate_campaign = take_opt::<bool>(find_member(o, "DeduplicateCampaign"))?;
        let track_opens = take_opt::<Track>(find_member(o, "TrackOpens"))?;
        let track_clicks = take_opt::<Track>(find_member(o, "TrackClicks"))?;
        let custom_id = take_opt::<String>(find_member(o, "CustomID"))?;
        let event_payload = take_opt::<String>(find_member(o, "EventPayload"))?;
        let url_tags = take_opt::<String>(find_member(o, "URLTags"))?;
        let headers = take_opt::<StringMap>(find_member(o, "Headers"))?;
        let variables = take_opt::<StringMap>(find_member(o, "Variables"))?;
        Ok(
            Message {
                from,
                sender,
                to,
                cc,
                bcc,
                reply_to,
                subject,
                text_part,
                html_part,
                template_id,
                template_language,
                template_error_reporting,
                template_error_deliver,
                attachments,
                inline_attachments,
                priority,
                custom_campaign,
                deduplicate_campaign,
                track_opens,
                track_clicks,
                custom_id,
                event_payload,
                url_tags,
                headers,
                variables,
            },
        )
    }
}

impl RoundTrip for Message {
    proof fn lemma_reads_back(&self) {
        self.lemma_members_read();
        self.from.lemma_reads_back();
        lemma_opt_reads_back(self.sender);
        lemma_opt_reads_back(self.to);
        lemma_opt_reads_back(self.cc);
        lemma_opt_reads_back(self.bcc);
        lemma_opt_reads_back(self.reply_to);
        lemma_opt_reads_back(self.subject);
        lemma_opt_reads_back(self.text_part);
        lemma_opt_reads_back(self.html_part);
        lemma_opt_reads_back(self.template_id);
        lemma_opt_reads_back(self.template_language);
        lemma_opt_reads_back(self.template_error_reporting);
        lemma_opt_reads_back(self.template_error_deliver);
        lemma_opt_reads_back(self.attachments);
        lemma_opt_reads_back(self.inline_attachments);
        lemma_opt_reads_back(self.priority);
        lemma_opt_reads_back(self.custom_campaign);
        lemma_opt_reads_back(self.deduplicate_campaign);
        lemma_opt_reads_back(self.track_opens);
        lemma_opt_reads_back(self.track_clicks);
        lemma_opt_reads_back(self.custom_id);
        lemma_opt_reads_back(self.event_payload);
        lemma_opt_reads_back(self.url_tags);
        lemma_opt_reads_back(self.headers);
        lemma_opt_reads_back(self.variables);
    }
}

/// The properties that a batch gives to every message in it, unless a message
/// sets its own. None of them is mandatory.
#[derive(Debug)]
pub struct MessageProperty {
    pub from: Option<NameAndEmail>,
    pub sender: Option<NameAndEmail>,
    pub cc: Option<Vec<NameAndEmail>>,
    pub bcc: Option<Vec<NameAndEmail>>,
    pub reply_to: Option<NameAndEmail>,
    pub subject: Option<String>,
    pub text_part: Option<String>,
    pub html_part: Option<String>,
    pub template_id: Option<u64>,
    pub template_language: Option<bool>,
    pub template_error_reporting: Option<NameAndEmail>,
    pub template_error_deliver: Option<bool>,
    pub attachments: Option<Vec<Attachment>>,
    pub inline_attachments: Option<Vec<Attachment>>,
    pub priority: Option<u8>,
    pub custom_campaign: Option<String>,
    pub deduplicate_campaign: Option<bool>,
    pub track_opens: Option<Track>,
    pub track_clicks: Option<Track>,
    pub custom_id: Option<String>,
    pub event_payload: Option<String>,
    pub url_tags: Option<String>,
    pub headers: Option<StringMap>,
    pub variables: Option<StringMap>,
}

impl MessageProperty {
    /// The members of the object that stands for the shared properties: one for each field
    /// that is set, under the name that the API gives it.
    pub open spec fn members(self) -> Members {
        let o = Members::empty();
        let o = with_member(o, "From"@, opt_wire(self.from));
        let o = with_member(o, "Sender"@, opt_wire(self.sender));
        let o = with_member(o, "Cc"@, opt_wire(self.cc));
        let o = with_member(o, "Bcc"@, opt_wire(self.bcc));
        let o = with_member(o, "ReplyTo"@, opt_wire(self.reply_to));
        let o = with_member(o, "Subject"@, opt_wire(self.subject));
        let o = with_member(o, "TextPart"@, opt_wire(self.text_part));
        let o = with_member(o, "HtmlPart"@, opt_wire(self.html_part));
        let o = with_member(o, "TemplateId"@, opt_wire(self.template_id));
        let o = with_member(o, "TemplateLanguage"@, opt_wire(self.template_language));
        let o = with_member(o, "TemplateErrorReporting"@, opt_wire(self.template_error_reporting));
        let o = with_member(o, "TemplateErrorDeliver"@, opt_wire(self.template_error_deliver));
        let o = with_member(o, "Attachments"@, opt_wire(self.attachments));
        let o = with_member(o, "InlineAttachments"@, opt_wire(self.inline_attachments));
        let o = with_member(o, "Priority"@, opt_wire(self.priority));
        let o = with_member(o, "CustomCampaign"@, opt_wire(self.custom_campaign));
        let o = with_member(o, "DeduplicateCampaign"@, opt_wire(self.deduplicate_campaign));
        let o = with_member(o, "TrackOpens"@, opt_wire(self.track_opens));
        let o = with_member(o, "TrackClicks"@, opt_wire(self.track_clicks));
        let o = with_member(o, "CustomID"@, opt_wire(self.custom_id));
        let o = with_member(o, "EventPayload"@, opt_wire(self.event_payload));
        let o = with_member(o, "URLTags"@, opt_wire(self.url_tags));
        let o = with_member(o, "Headers"@, opt_wire(self.headers));
        let o = with_member(o, "Variables"@, opt_wire(self.variables));
        o
    }

    /// Each member of the object of the shared properties reads as the document of its field,
    /// and as missing where the field is not set.
    pub proof fn lemma_members_read(self)
        ensures
            member(self.members(), "From"@) == opt_wire(self.from),
            member(self.members(), "Sender"@) == opt_wire(self.sender),
            member(self.members(), "Cc"@) == opt_wire(self.cc),
            member(self.members(), "Bcc"@) == opt_wire(self.bcc),
            member(self.members(), "ReplyTo"@) == opt_wire(self.reply_to),
            member(self.members(), "Subject"@) == opt_wire(self.subject),
            member(self.members(), "TextPart"@) == opt_wire(self.text_part),
            member(self.members(), "HtmlPart"@) == opt_wire(self.html_part),
            member(self.members(), "TemplateId"@) == opt_wire(self.template_id),
            member(self.members(), "TemplateLanguage"@) == opt_wire(self.template_language),
            member(self.members(), "TemplateErrorReporting"@) == opt_wire(
                self.template_error_reporting,
            ),
            member(self.members(), "TemplateErrorDeliver"@) == opt_wire(
                self.template_error_deliver,
            ),
            member(self.members(), "Attachments"@) == opt_wire(self.attachments),
            member(self.members(), "InlineAttachments"@) == opt_wire(self.inline_attachments),
            member(self.members(), "Priority"@) == opt_wire(self.priority),
            member(self.members(), "CustomCampaign"@) == opt_wire(self.custom_campaign),
            member(self.members(), "DeduplicateCampaign"@) == opt_wire(self.deduplicate_campaign),
            member(self.members(), "TrackOpens"@) == opt_wire(self.track_opens),
            member(self.members(), "TrackClicks"@) == opt_wire(self.track_clicks),
            member(self.members(), "CustomID"@) == opt_wire(self.custom_id),
            member(self.members(), "EventPayload"@) == opt_wire(self.event_payload),
            member(self.members(), "URLTags"@) == opt_wire(self.url_tags),
            member(self.members(), "Headers"@) == opt_wire(self.headers),
            member(self.members(), "Variables"@) == opt_wire(self.variables),
    {
        reveal_strlit("From");
        reveal_strlit("Sender");
        reveal_strlit("Cc");
        reveal_strlit("Bcc");
        reveal_strlit("ReplyTo");
        reveal_strlit("Subject");
        reveal_strlit("TextPart");
        reveal_strlit("HtmlPart");
        reveal_strlit("TemplateId");
        reveal_strlit("TemplateLanguage");
        reveal_strlit("TemplateErrorReporting");
        reveal_strlit("TemplateErrorDeliver");
        reveal_strlit("Attachments");
        reveal_strlit("InlineAttachments");
        reveal_strlit("Priority");
        reveal_strlit("CustomCampaign");
        reveal_strlit("DeduplicateCampaign");
        reveal_strlit("TrackOpens");
        reveal_strlit("TrackClicks");
        reveal_strlit("CustomID");
        reveal_strlit("EventPayload");
        reveal_strlit("URLTags");
        reveal_strlit("Headers");
        reveal_strlit("Variables");
        assert("From"@.len() == 4);
        assert("Sender"@.len() == 6);
        assert("Cc"@.len() == 2);
        assert("Bcc"@.len() == 3);
        assert("ReplyTo"@.len() == 7 && "ReplyTo"@[0] == 'R');
        assert("Subject"@.len() == 7 && "Subject"@[0] == 'S');
        assert("TextPart"@.len() == 8 && "TextPart"@[0] == 'T');
        assert("HtmlPart"@.len() == 8 && "HtmlPart"@[0] == 'H');
        assert("TemplateId"@.len() == 10 && "TemplateId"@[1] == 'e');
        assert("TemplateLanguage"@.len() == 16);
        assert("TemplateErrorReporting"@.len() == 22);
        assert("TemplateErrorDeliver"@.len() == 20);
        assert("Attachments"@.len() == 11 && "Attachments"@[0] == 'A');
        assert("InlineAttachments"@.len() == 17);
        assert("Priority"@.len() == 8 && "Priority"@[0] == 'P');
        assert("CustomCampaign"@.len() == 14);
        assert("DeduplicateCampaign"@.len() == 19);
        assert("TrackOpens"@.len() == 10 && "TrackOpens"@[1] == 'r');
        assert("TrackClicks"@.len() == 11 && "TrackClicks"@[0] == 'T');
        assert("CustomID"@.len() == 8 && "CustomID"@[0] == 'C');
        assert("EventPayload"@.len() == 12);
        assert("URLTags"@.len() == 7 && "URLTags"@[0] == 'U');
        assert("Headers"@.len() == 7 && "Headers"@[0] == 'H');
        assert("Variables"@.len() == 9);
        let o = Members::empty();
        let o = lemma_with_member(o, "From"@, opt_wire(self.from));
        let o = lemma_with_member(o, "Sender"@, opt_wire(self.sender));
        let o = lemma_with_member(o, "Cc"@, opt_wire(self.cc));
        let o = lemma_with_member(o, "Bcc"@, opt_wire(self.bcc));
        let o = lemma_with_member(o, "ReplyTo"@, opt_wire(self.reply_to));
        let o = lemma_with_member(o, "Subject"@, opt_wire(self.subject));
        let o = lemma_with_member(o, "TextPart"@, opt_wire(self.text_part));
        let o = lemma_with_member(o, "HtmlPart"@, opt_wire(self.html_part));
        let o = lemma_with_member(o, "TemplateId"@, opt_wire(self.template_id));
        let o = lemma_with_member(o, "TemplateLanguage"@, opt_wire(self.template_language));
        let o = lemma_with_member(
            o,
            "TemplateErrorReporting"@,
            opt_wire(self.template_error_reporting),
        );
        let o = lemma_with_member(
            o,
            "TemplateErrorDeliver"@,
            opt_wire(self.template_error_deliver),
        );
        let o = lemma_with_member(o, "Attachments"@, opt_wire(self.attachments));
        let o = lemma_with_member(o, "InlineAttachments"@, opt_wire(self.inline_attachments));
        let o = lemma_with_member(o, "Priority"@, opt_wire(self.priority));
        let o = lemma_with_member(o, "CustomCampaign"@, opt_wire(self.custom_campaign));
        let o = lemma_with_member(o, "DeduplicateCampaign"@, opt_wire(self.deduplicate_campaign));
        let o = lemma_with_member(o, "TrackOpens"@, opt_wire(self.track_opens));
        let o = lemma_with_member(o, "TrackClicks"@, opt_wire(self.track_clicks));
        let o = lemma_with_member(o, "CustomID"@, opt_wire(self.custom_id));
        let o = lemma_with_member(o, "EventPayload"@, opt_wire(self.event_payload));
        let o = lemma_with_member(o, "URLTags"@, opt_wire(self.url_tags));
        let o = lemma_with_member(o, "Headers"@, opt_wire(self.headers));
        let o = lemma_with_member(o, "Variables"@, opt_wire(self.variables));
    }

    /// No member of the object of the shared properties is `null`.
    pub proof fn lemma_no_null_members(self)
        ensures
            no_null_members(self.members()),
    {
        let o = Members::empty();
        assert(no_null_members(o)) by {
            reveal(no_null_members);
        }
        let o = lemma_with_member_no_null(o, "From"@, opt_wire(self.from));
        let o = lemma_with_member_no_null(o, "Sender"@, opt_wire(self.sender));
        let o = lemma_with_member_no_null(o, "Cc"@, opt_wire(self.cc));
        let o = lemma_with_member_no_null(o, "Bcc"@, opt_wire(self.bcc));
        let o = lemma_with_member_no_null(o, "ReplyTo"@, opt_wire(self.reply_to));
        let o = lemma_with_member_no_null(o, "Subject"@, opt_wire(self.subject));
        let o = lemma_with_member_no_null(o, "TextPart"@, opt_wire(self.text_part));
        let o = lemma_with_member_no_null(o, "HtmlPart"@, opt_wire(self.html_part));
        let o = lemma_with_member_no_null(o, "TemplateId"@, opt_wire(self.template_id));
        let o = lemma_with_member_no_null(o, "TemplateLanguage"@, opt_wire(self.template_language));
        let o = lemma_with_member_no_null(
            o,
            "TemplateErrorReporting"@,
            opt_wire(self.template_error_reporting),
        );
        let o = lemma_with_member_no_null(
            o,
            "TemplateErrorDeliver"@,
            opt_wire(self.template_error_deliver),
        );
        let o = lemma_with_member_no_null(o, "Attachments"@, opt_wire(self.attachments));
        let o = lemma_with_member_no_null(
            o,
            "InlineAttachments"@,
            opt_wire(self.inline_attachments),
        );
        let o = lemma_with_member_no_null(o, "Priority"@, opt_wire(self.priority));
        let o = lemma_with_member_no_null(o, "CustomCampaign"@, opt_wire(self.custom_campaign));
        let o = lemma_with_member_no_null(
            o,
            "DeduplicateCampaign"@,
            opt_wire(self.deduplicate_campaign),
        );
        let o = lemma_with_member_no_null(o, "TrackOpens"@, opt_wire(self.track_opens));
        let o = lemma_with_member_no_null(o, "TrackClicks"@, opt_wire(self.track_clicks));
        let o = lemma_with_member_no_null(o, "CustomID"@, opt_wire(self.custom_id));
        let o = lemma_with_member_no_null(o, "EventPayload"@, opt_wire(self.event_payload));
        let o = lemma_with_member_no_null(o, "URLTags"@, opt_wire(self.url_tags));
        let o = lemma_with_member_no_null(o, "Headers"@, opt_wire(self.headers));
        let o = lemma_with_member_no_null(o, "Variables"@, opt_wire(self.variables));
    }

    /// The object of the shared properties has a member exactly for each field that is set.
    pub proof fn lemma_members_follow_fields(self)
        ensures
            self.members().contains_key("From"@) <==> self.from is Some,
            self.members().contains_key("Sender"@) <==> self.sender is Some,
            self.members().contains_key("Cc"@) <==> self.cc is Some,
            self.members().contains_key("Bcc"@) <==> self.bcc is Some,
            self.members().contains_key("ReplyTo"@) <==> self.reply_to is Some,
            self.members().contains_key("Subject"@) <==> self.subject is Some,
            self.members().contains_key("TextPart"@) <==> self.text_part is Some,
            self.members().contains_key("HtmlPart"@) <==> self.html_part is Some,
            self.members().contains_key("TemplateId"@) <==> self.template_id is Some,
            self.members().contains_key("TemplateLanguage"@) <==> self.template_language is Some,
            self.members().contains_key("TemplateErrorReporting"@)
                <==> self.template_error_reporting is Some,
            self.members().contains_key("TemplateErrorDeliver"@)
                <==> self.template_error_deliver is Some,
            self.members().contains_key("Attachments"@) <==> self.attachments is Some,
            self.members().contains_key("InlineAttachments"@) <==> self.inline_attachments is Some,
            self.members().contains_key("Priority"@) <==> self.priority is Some,
            self.members().contains_key("CustomCampaign"@) <==> self.custom_campaign is Some,
            self.members().contains_key("DeduplicateCampaign"@)
                <==> self.deduplicate_campaign is Some,
            self.members().contains_key("TrackOpens"@) <==> self.track_opens is Some,
            self.members().contains_key("TrackClicks"@) <==> self.track_clicks is Some,
            self.members().contains_key("CustomID"@) <==> self.custom_id is Some,
            self.members().contains_key("EventPayload"@) <==> self.event_payload is Some,
            self.members().contains_key("URLTags"@) <==> self.url_tags is Some,
            self.members().contains_key("Headers"@) <==> self.headers is Some,
            self.members().contains_key("Variables"@) <==> self.variables is Some,
    {
        self.lemma_members_read();
        self.lemma_no_null_members();
        lemma_member_is_key(self.members(), "From"@);
        lemma_member_is_key(self.members(), "Sender"@);
        lemma_member_is_key(self.members(), "Cc"@);
        lemma_member_is_key(self.members(), "Bcc"@);
        lemma_member_is_key(self.members(), "ReplyTo"@);
        lemma_member_is_key(self.members(), "Subject"@);
        lemma_member_is_key(self.members(), "TextPart"@);
        lemma_member_is_key(self.members(), "HtmlPart"@);
        lemma_member_is_key(self.members(), "TemplateId"@);
        lemma_member_is_key(self.members(), "TemplateLanguage"@);
        lemma_member_is_key(self.members(), "TemplateErrorReporting"@);
        lemma_member_is_key(self.members(), "TemplateErrorDeliver"@);
        lemma_member_is_key(self.members(), "Attachments"@);
        lemma_member_is_key(self.members(), "InlineAttachments"@);
        lemma_member_is_key(self.members(), "Priority"@);
        lemma_member_is_key(self.members(), "CustomCampaign"@);
        lemma_member_is_key(self.members(), "DeduplicateCampaign"@);
        lemma_member_is_key(self.members(), "TrackOpens"@);
        lemma_member_is_key(self.members(), "TrackClicks"@);
        lemma_member_is_key(self.members(), "CustomID"@);
        lemma_member_is_key(self.members(), "EventPayload"@);
        lemma_member_is_key(self.members(), "URLTags"@);
        lemma_member_is_key(self.members(), "Headers"@);
        lemma_member_is_key(self.members(), "Variables"@);
    }

    /// Whether only the mandatory fields of the shared properties are set.
    pub open spec fn is_minimal(self) -> bool {
        &&& self.from is None
        &&& self.sender is None
        &&& self.cc is None
        &&& self.bcc is None
        &&& self.reply_to is None
        &&& self.subject is None
        &&& self.text_part is None
        &&& self.html_part is None
        &&& self.template_id is None
        &&& self.template_language is None
        &&& self.template_error_reporting is None
        &&& self.template_error_deliver is None
        &&& self.attachments is None
        &&& self.inline_attachments is None
        &&& self.priority is None
        &&& self.custom_campaign is None
        &&& self.deduplicate_campaign is None
        &&& self.track_opens is None
        &&& self.track_clicks is None
        &&& self.custom_id is None
        &&& self.event_payload is None
        &&& self.url_tags is None
        &&& self.headers is None
        &&& self.variables is None
    }

    /// Where only the mandatory fields are set, the object has their members
    /// and nothing else.
    pub proof fn lemma_minimal_members(self)
        requires
            self.is_minimal(),
        ensures
            self.members() == Members::empty(),
    {
        reveal(with_member);
    }

    /// Whether an object has the mandatory members of the shared properties, each readable,
    /// and no other member that belongs to a field.
    pub open spec fn has_mandatory_members_only(object: Members) -> bool {
        &&& !object.contains_key("From"@)
        &&& !object.contains_key("Sender"@)
        &&& !object.contains_key("Cc"@)
        &&& !object.contains_key("Bcc"@)
        &&& !object.contains_key("ReplyTo"@)
        &&& !object.contains_key("Subject"@)
        &&& !object.contains_key("TextPart"@)
        &&& !object.contains_key("HtmlPart"@)
        &&& !object.contains_key("TemplateId"@)
        &&& !object.contains_key("TemplateLanguage"@)
        &&& !object.contains_key("TemplateErrorReporting"@)
        &&& !object.contains_key("TemplateErrorDeliver"@)
        &&& !object.contains_key("Attachments"@)
        &&& !object.contains_key("InlineAttachments"@)
        &&& !object.contains_key("Priority"@)
        &&& !object.contains_key("CustomCampaign"@)
        &&& !object.contains_key("DeduplicateCampaign"@)
        &&& !object.contains_key("TrackOpens"@)
        &&& !object.contains_key("TrackClicks"@)
        &&& !object.contains_key("CustomID"@)
        &&& !object.contains_key("EventPayload"@)
        &&& !object.contains_key("URLTags"@)
        &&& !object.contains_key("Headers"@)
        &&& !object.contains_key("Variables"@)
    }

    /// An object with the mandatory members and no other member that belongs
    /// to a field is readable, and what is read from it is minimal.
    pub proof fn lemma_mandatory_members_suffice(self, object: Members)
        requires
            Self::has_mandatory_members_only(object),
        ensures
            Self::readable(Json::Object(object)),
            self.read_from(Json::Object(object)) ==> self.is_minimal(),
    {
        reveal(member);
    }
}

impl ToJson for MessageProperty {
    /// An object with one member for each field that is set.
    open spec fn wire(&self) -> Json {
        Json::Object(self.members())
    }

    fn to_json(&self) -> (value: Value) {
        let mut o = new_object();
        put_opt(&mut o, "From", &self.from);
        put_opt(&mut o, "Sender", &self.sender);
        put_opt(&mut o, "Cc", &self.cc);
        put_opt(&mut o, "Bcc", &self.bcc);
        put_opt(&mut o, "ReplyTo", &self.reply_to);
        put_opt(&mut o, "Subject", &self.subject);
        put_opt(&mut o, "TextPart", &self.text_part);
        put_opt(&mut o, "HtmlPart", &self.html_part);
        put_opt(&mut o, "TemplateId", &self.template_id);
        put_opt(&mut o, "TemplateLanguage", &self.template_language);
        put_opt(&mut o, "TemplateErrorReporting", &self.template_error_reporting);
        put_opt(&mut o, "TemplateErrorDeliver", &self.template_error_deliver);
        put_opt(&mut o, "Attachments", &self.attachments);
        put_opt(&mut o, "InlineAttachments", &self.inline_attachments);
        put_opt(&mut o, "Priority", &self.priority);
        put_opt(&mut o, "CustomCampaign", &self.custom_campaign);
        put_opt(&mut o, "DeduplicateCampaign", &self.deduplicate_campaign);
        put_opt(&mut o, "TrackOpens", &self.track_opens);
        put_opt(&mut o, "TrackClicks", &self.track_clicks);
        put_opt(&mut o, "CustomID", &self.custom_id);
        put_opt(&mut o, "EventPayload", &self.event_payload);
        put_opt(&mut o, "URLTags", &self.url_tags);
        put_opt(&mut o, "Headers", &self.headers);
        put_opt(&mut o, "Variables", &self.variables);
        object_value(o)
    }
}

impl FromJson for MessageProperty {
    /// An object in which every member of a known name follows the schema of its
    /// field.
    open spec fn readable(document: Json) -> bool {
        &&& document matches Json::Object(o)
        &&& opt_readable::<NameAndEmail>(member(o, "From"@))
        &&& opt_readable::<NameAndEmail>(member(o, "Sender"@))
        &&& opt_readable::<Vec<NameAndEmail>>(member(o, "Cc"@))
        &&& opt_readable::<Vec<NameAndEmail>>(member(o, "Bcc"@))
        &&& opt_readable::<NameAndEmail>(member(o, "ReplyTo"@))
        &&& opt_readable::<String>(member(o, "Subject"@))
        &&& opt_readable::<String>(member(o, "TextPart"@))
        &&& opt_readable::<String>(member(o, "HtmlPart"@))
        &&& opt_readable::<u64>(member(o, "TemplateId"@))
        &&& opt_readable::<bool>(member(o, "TemplateLanguage"@))
        &&& opt_readable::<NameAndEmail>(member(o, "TemplateErrorReporting"@))
        &&& opt_readable::<bool>(member(o, "TemplateErrorDeliver"@))
        &&& opt_readable::<Vec<Attachment>>(member(o, "Attachments"@))
        &&& opt_readable::<Vec<Attachment>>(member(o, "InlineAttachments"@))
        &&& opt_readable::<u8>(member(o, "Priority"@))
        &&& opt_readable::<String>(member(o, "CustomCampaign"@))
        &&& opt_readable::<bool>(member(o, "DeduplicateCampaign"@))
        &&& opt_readable::<Track>(member(o, "TrackOpens"@))
        &&& opt_readable::<Track>(member(o, "TrackClicks"@))
        &&& opt_readable::<String>(member(o, "CustomID"@))
        &&& opt_readable::<String>(member(o, "EventPayload"@))
        &&& opt_readable::<String>(member(o, "URLTags"@))
        &&& opt_readable::<StringMap>(member(o, "Headers"@))
        &&& opt_readable::<StringMap>(member(o, "Variables"@))
    }

    /// Each field is what the member of its name reads as; a field whose member
    /// is missing is not set.
    open spec fn read_from(&self, document: Json) -> bool {
        &&& document matches Json::Object(o)
        &&& opt_read_from(self.from, member(o, "From"@))
        &&& opt_read_from(self.sender, member(o, "Sender"@))
        &&& opt_read_from(self.cc, member(o, "Cc"@))
        &&& opt_read_from(self.bcc, member(o, "Bcc"@))
        &&& opt_read_from(self.reply_to, member(o, "ReplyTo"@))
        &&& opt_read_from(self.subject, member(o, "Subject"@))
        &&& opt_read_from(self.text_part, member(o, "TextPart"@))
        &&& opt_read_from(self.html_part, member(o, "HtmlPart"@))
        &&& opt_read_from(self.template_id, member(o, "TemplateId"@))
        &&& opt_read_from(self.template_language, member(o, "TemplateLanguage"@))
        &&& opt_read_from(self.template_error_reporting, member(o, "TemplateErrorReporting"@))
        &&& opt_read_from(self.template_error_deliver, member(o, "TemplateErrorDeliver"@))
        &&& opt_read_from(self.attachments, member(o, "Attachments"@))
        &&& opt_read_from(self.inline_attachments, member(o, "InlineAttachments"@))
        &&& opt_read_from(self.priority, member(o, "Priority"@))
        &&& opt_read_from(self.custom_campaign, member(o, "CustomCampaign"@))
        &&& opt_read_from(self.deduplicate_campaign, member(o, "DeduplicateCampaign"@))
        &&& opt_read_from(self.track_opens, member(o, "TrackOpens"@))
        &&& opt_read_from(self.track_clicks, member(o, "TrackClicks"@))
        &&& opt_read_from(self.custom_id, member(o, "CustomID"@))
        &&& opt_read_from(self.event_payload, member(o, "EventPayload"@))
        &&& opt_read_from(self.url_tags, member(o, "URLTags"@))
        &&& opt_read_from(self.headers, member(o, "Headers"@))
        &&& opt_read_from(self.variables, member(o, "Variables"@))
    }

    fn from_json(value: &Value) -> (outcome: Result<MessageProperty, Mismatch>) {
        let o = match as_object(value) {
            Some(o) => o,
            None => { return Err(Mismatch); },
        };
        let from = take_opt::<NameAndEmail>(find_member(o, "From"))?;
        let sender = take_opt::<NameAndEmail>(find_member(o, "Sender"))?;
        let cc = take_opt::<Vec<NameAndEmail>>(find_member(o, "Cc"))?;
        let bcc = take_opt::<Vec<NameAndEmail>>(find_member(o, "Bcc"))?;
        let reply_to = take_opt::<NameAndEmail>(find_member(o, "ReplyTo"))?;
        let subject = take_opt::<String>(find_member(o, "Subject"))?;
        let text_part = take_opt::<String>(find_member(o, "TextPart"))?;
        let html_part = take_opt::<String>(find_member(o, "HtmlPart"))?;
        let template_id = take_opt::<u64>(find_member(o, "TemplateId"))?;
        let template_language = take_opt::<bool>(find_member(o, "TemplateLanguage"))?;
        let template_error_reporting = take_opt::<NameAndEmail>(
            find_member(o, "TemplateErrorReporting"),
        )?;
        let template_error_deliver = take_opt::<bool>(find_member(o, "TemplateErrorDeliver"))?;
        let attachments = take_opt::<Vec<Attachment>>(find_member(o, "Attachments"))?;
        let inline_attachments = take_opt::<Vec<Attachment>>(find_member(o, "InlineAttachments"))?;
        let priority = take_opt::<u8>(find_member(o, "Priority"))?;
        let custom_campaign = take_opt::<String>(find_member(o, "CustomCampaign"))?;
        let deduplicate_campaign = take_opt::<bool>(find_member(o, "DeduplicateCampaign"))?;
        let track_opens = take_opt::<Track>(find_member(o, "TrackOpens"))?;
        let track_clicks = take_opt::<Track>(find_member(o, "TrackClicks"))?;
        let custom_id = take_opt::<String>(find_member(o, "CustomID"))?;
        let event_payload = take_opt::<String>(find_member(o, "EventPayload"))?;
        let url_tags = take_opt::<String>(find_member(o, "URLTags"))?;
        let headers = take_opt::<StringMap>(find_member(o, "Headers"))?;
        let variables = take_opt::<StringMap>(find_member(o, "Variables"))?;
        Ok(
            MessageProperty {
                from,
                sender,
                cc,
                bcc,
                reply_to,
                subject,
                text_part,
                html_part,
                template_id,
                template_language,
                template_error_reporting,
                template_error_deliver,
                attachments,
                inline_attachments,
                priority,
                custom_campaign,
                deduplicate_campaign,
                track_opens,
                track_clicks,
                custom_id,
                event_payload,
                url_tags,
                headers,
                variables,
            },
        )
    }
}

impl RoundTrip for MessageProperty {
    proof fn lemma_reads_back(&self) {
        self.lemma_members_read();
        lemma_opt_reads_back(self.from);
        lemma_opt_reads_back(self.sender);
        lemma_opt_reads_back(self.cc);
        lemma_opt_reads_back(self.bcc);
        lemma_opt_reads_back(self.reply_to);
        lemma_opt_reads_back(self.subject);
        lemma_opt_reads_back(self.text_part);
        lemma_opt_reads_back(self.html_part);
        lemma_opt_reads_back(self.template_id);
        lemma_opt_reads_back(self.template_language);
        lemma_opt_reads_back(self.template_error_reporting);
        lemma_opt_reads_back(self.template_error_deliver);
        lemma_opt_reads_back(self.attachments);
        lemma_opt_reads_back(self.inline_attachments);
        lemma_opt_reads_back(self.priority);
        lemma_opt_reads_back(self.custom_campaign);
        lemma_opt_reads_back(self.deduplicate_campaign);
        lemma_opt_reads_back(self.track_opens);
        lemma_opt_reads_back(self.track_clicks);
        lemma_opt_reads_back(self.custom_id);
        lemma_opt_reads_back(self.event_payload);
        lemma_opt_reads_back(self.url_tags);
        lemma_opt_reads_back(self.headers);
        lemma_opt_reads_back(self.variables);
    }
}

/// A message for the `send` endpoint of API v3: one flat object, with the
/// recipients of each kind joined in one string.
#[derive(Debug)]
pub struct SimpleMessage {
    pub from_email: String,
    pub from_name: String,
    pub sender: Option<bool>,
    pub recipients: Vec<NameAndEmail>,
    pub to: Option<String>,
    pub cc: Option<String>,
    pub bcc: Option<String>,
    pub subject: Option<String>,
    pub text_part: Option<String>,
    pub html_part: Option<String>,
    pub attachments: Option<Vec<Attachment>>,
    pub inline_attachments: Option<Vec<Attachment>>,
    pub event_payload: Option<String>,
    pub vars: Option<String>,
}

impl Default for SimpleMessage {
    /// A message without content: empty sender, no recipients, nothing else set.
    fn default() -> (message: SimpleMessage)
        ensures
            message.from_email@ == Seq::<char>::empty(),
            message.from_name@ == Seq::<char>::empty(),
            message.recipients@ == Seq::<NameAndEmail>::empty(),
            message.sender is None,
            message.to is None,
            message.cc is None,
            message.bcc is None,
            message.subject is None,
            message.text_part is None,
            message.html_part is None,
            message.attachments is None,
            message.inline_attachments is None,
            message.event_payload is None,
            message.vars is None,
    {
        SimpleMessage {
            from_email: String::new(),
            from_name: String::new(),
            sender: None,
            recipients: Vec::new(),
            to: None,
            cc: None,
            bcc: None,
            subject: None,
            text_part: None,
            html_part: None,
            attachments: None,
            inline_attachments: None,
            event_payload: None,
            vars: None,
        }
    }
}

impl SimpleMessage {
    /// The members of the object that stands for a flat message: one for each field
    /// that is set, under the name that the API gives it.
    pub open spec fn members(self) -> Members {
        let o = Members::empty();
        let o = with_member(o, "FromEmail"@, Some(self.from_email.wire()));
        let o = with_member(o, "FromName"@, Some(self.from_name.wire()));
        let o = with_member(o, "Sender"@, opt_wire(self.sender));
        let o = with_member(o, "Recipients"@, Some(self.recipients.wire()));
        let o = with_member(o, "To"@, opt_wire(self.to));
        let o = with_member(o, "Cc"@, opt_wire(self.cc));
        let o = with_member(o, "Bcc"@, opt_wire(self.bcc));
        let o = with_member(o, "Subject"@, opt_wire(self.subject));
        let o = with_member(o, "Text-part"@, opt_wire(self.text_part));
        let o = with_member(o, "Html-part"@, opt_wire(self.html_part));
        let o = with_member(o, "Attachments"@, opt_wire(self.attachments));
        let o = with_member(o, "InlineAttachments"@, opt_wire(self.inline_attachments));
        let o = with_member(o, "EventPayload"@, opt_wire(self.event_payload));
        let o = with_member(o, "Vars"@, opt_wire(self.vars));
        o
    }

    /// Each member of the object of a flat message reads as the document of its field,
    /// and as missing where the field is not set.
    pub proof fn lemma_members_read(self)
        ensures
            member(self.members(), "FromEmail"@) == Some(self.from_email.wire()),
            member(self.members(), "FromName"@) == Some(self.from_name.wire()),
            member(self.members(), "Sender"@) == opt_wire(self.sender),
            member(self.members(), "Recipients"@) == Some(self.recipients.wire()),
            member(self.members(), "To"@) == opt_wire(self.to),
            member(self.members(), "Cc"@) == opt_wire(self.cc),
            member(self.members(), "Bcc"@) == opt_wire(self.bcc),
            member(self.members(), "Subject"@) == opt_wire(self.subject),
            member(self.members(), "Text-part"@) == opt_wire(self.text_part),
            member(self.members(), "Html-part"@) == opt_wire(self.html_part),
            member(self.members(), "Attachments"@) == opt_wire(self.attachments),
            member(self.members(), "InlineAttachments"@) == opt_wire(self.inline_attachments),
            member(self.members(), "EventPayload"@) == opt_wire(self.event_payload),
            member(self.members(), "Vars"@) == opt_wire(self.vars),
    {
        reveal_strlit("FromEmail");
        reveal_strlit("FromName");
        reveal_strlit("Sender");
        reveal_strlit("Recipients");
        reveal_strlit("To");
        reveal_strlit("Cc");
        reveal_strlit("Bcc");
        reveal_strlit("Subject");
        reveal_strlit("Text-part");
        reveal_strlit("Html-part");
        reveal_strlit("Attachments");
        reveal_strlit("InlineAttachments");
        reveal_strlit("EventPayload");
        reveal_strlit("Vars");
        assert("FromEmail"@.len() == 9 && "FromEmail"@[0] == 'F');
        assert("FromName"@.len() == 8);
        assert("Sender"@.len() == 6);
        assert("Recipients"@.len() == 10);
        assert("To"@.len() == 2 && "To"@[0] == 'T');
        assert("Cc"@.len() == 2 && "Cc"@[0] == 'C');
        assert("Bcc"@.len() == 3);
        assert("Subject"@.len() == 7);
        assert("Text-part"@.len() == 9 && "Text-part"@[0] == 'T');
        assert("Html-part"@.len() == 9 && "Html-part"@[0] == 'H');
        assert("Attachments"@.len() == 11);
        assert("InlineAttachments"@.len() == 17);
        assert("EventPayload"@.len() == 12);
        assert("Vars"@.len() == 4);
        let o = Members::empty();
        let o = lemma_with_member(o, "FromEmail"@, Some(self.from_email.wire()));
        let o = lemma_with_member(o, "FromName"@, Some(self.from_name.wire()));
        let o = lemma_with_member(o, "Sender"@, opt_wire(self.sender));
        let o = lemma_with_member(o, "Recipients"@, Some(self.recipients.wire()));
        let o = lemma_with_member(o, "To"@, opt_wire(self.to));
        let o = lemma_with_member(o, "Cc"@, opt_wire(self.cc));
        let o = lemma_with_member(o, "Bcc"@, opt_wire(self.bcc));
        let o = lemma_with_member(o, "Subject"@, opt_wire(self.subject));
        let o = lemma_with_member(o, "Text-part"@, opt_wire(self.text_part));
        let o = lemma_with_member(o, "Html-part"@, opt_wire(self.html_part));
        let o = lemma_with_member(o, "Attachments"@, opt_wire(self.attachments));
        let o = lemma_with_member(o, "InlineAttachments"@, opt_wire(self.inline_attachments));
        let o = lemma_with_member(o, "EventPayload"@, opt_wire(self.event_payload));
        let o = lemma_with_member(o, "Vars"@, opt_wire(self.vars));
    }

    /// No member of the object of a flat message is `null`.
    pub proof fn lemma_no_null_members(self)
        ensures
            no_null_members(self.members()),
    {
        let o = Members::empty();
        assert(no_null_members(o)) by {
            reveal(no_null_members);
        }
        let o = lemma_with_member_no_null(o, "FromEmail"@, Some(self.from_email.wire()));
        let o = lemma_with_member_no_null(o, "FromName"@, Some(self.from_name.wire()));
        let o = lemma_with_member_no_null(o, "Sender"@, opt_wire(self.sender));
        let o = lemma_with_member_no_null(o, "Recipients"@, Some(self.recipients.wire()));
        let o = lemma_with_member_no_null(o, "To"@, opt_wire(self.to));
        let o = lemma_with_member_no_null(o, "Cc"@, opt_wire(self.cc));
        let o = lemma_with_member_no_null(o, "Bcc"@, opt_wire(self.bcc));
        let o = lemma_with_member_no_null(o, "Subject"@, opt_wire(self.subject));
        let o = lemma_with_member_no_null(o, "Text-part"@, opt_wire(self.text_part));
        let o = lemma_with_member_no_null(o, "Html-part"@, opt_wire(self.html_part));
        let o = lemma_with_member_no_null(o, "Attachments"@, opt_wire(self.attachments));
        let o = lemma_with_member_no_null(
            o,
            "InlineAttachments"@,
            opt_wire(self.inline_attachments),
        );
        let o = lemma_with_member_no_null(o, "EventPayload"@, opt_wire(self.event_payload));
        let o = lemma_with_member_no_null(o, "Vars"@, opt_wire(self.vars));
    }

    /// The object of a flat message has a member exactly for each field that is set.
    pub proof fn lemma_members_follow_fields(self)
        ensures
            self.members().contains_key("FromEmail"@),
            self.members().contains_key("FromName"@),
            self.members().contains_key("Sender"@) <==> self.sender is Some,
            self.members().contains_key("Recipients"@),
            self.members().contains_key("To"@) <==> self.to is Some,
            self.members().contains_key("Cc"@) <==> self.cc is Some,
            self.members().contains_key("Bcc"@) <==> self.bcc is Some,
            self.members().contains_key("Subject"@) <==> self.subject is Some,
            self.members().contains_key("Text-part"@) <==> self.text_part is Some,
            self.members().contains_key("Html-part"@) <==> self.html_part is Some,
            self.members().contains_key("Attachments"@) <==> self.attachments is Some,
            self.members().contains_key("InlineAttachments"@) <==> self.inline_attachments is Some,
            self.members().contains_key("EventPayload"@) <==> self.event_payload is Some,
            self.members().contains_key("Vars"@) <==> self.vars is Some,
    {
        self.lemma_members_read();
        self.lemma_no_null_members();
        lemma_member_is_key(self.members(), "FromEmail"@);
        lemma_member_is_key(self.members(), "FromName"@);
        lemma_member_is_key(self.members(), "Sender"@);
        lemma_member_is_key(self.members(), "Recipients"@);
        lemma_member_is_key(self.members(), "To"@);
        lemma_member_is_key(self.members(), "Cc"@);
        lemma_member_is_key(self.members(), "Bcc"@);
        lemma_member_is_key(self.members(), "Subject"@);
        lemma_member_is_key(self.members(), "Text-part"@);
        lemma_member_is_key(self.members(), "Html-part"@);
        lemma_member_is_key(self.members(), "Attachments"@);
        lemma_member_is_key(self.members(), "InlineAttachments"@);
        lemma_member_is_key(self.members(), "EventPayload"@);
        lemma_member_is_key(self.members(), "Vars"@);
    }

    /// Whether only the mandatory fields of a flat message are set.
    pub open spec fn is_minimal(self) -> bool {
        &&& self.sender is None
        &&& self.to is None
        &&& self.cc is None
        &&& self.bcc is None
        &&& self.subject is None
        &&& self.text_part is None
        &&& self.html_part is None
        &&& self.attachments is None
        &&& self.inline_attachments is None
        &&& self.event_payload is None
        &&& self.vars is None
    }

    /// Where only the mandatory fields are set, the object has their members
    /// and nothing else.
    pub proof fn lemma_minimal_members(self)
        requires
            self.is_minimal(),
        ensures
            self.members() == Members::empty()
                .insert("FromEmail"@, self.from_email.wire())
                .insert("FromName"@, self.from_name.wire())
                .insert("Recipients"@, self.recipients.wire()),
    {
        reveal(with_member);
    }

    /// Whether an object has the mandatory members of a flat message, each readable,
    /// and no other member that belongs to a field.
    pub open spec fn has_mandatory_members_only(object: Members) -> bool {
        &&& req_readable::<String>(member(object, "FromEmail"@))
        &&& req_readable::<String>(member(object, "FromName"@))
        &&& req_readable::<Vec<NameAndEmail>>(member(object, "Recipients"@))
        &&& !object.contains_key("Sender"@)
        &&& !object.contains_key("To"@)
        &&& !object.contains_key("Cc"@)
        &&& !object.contains_key("Bcc"@)
        &&& !object.contains_key("Subject"@)
        &&& !object.contains_key("Text-part"@)
        &&& !object.contains_key("Html-part"@)
        &&& !object.contains_key("Attachments"@)
        &&& !object.contains_key("InlineAttachments"@)
        &&& !object.contains_key("EventPayload"@)
        &&& !object.contains_key("Vars"@)
    }

    /// An object with the mandatory members and no other member that belongs
    /// to a field is readable, and what is read from it is minimal.
    pub proof fn lemma_mandatory_members_suffice(self, object: Members)
        requires
            Self::has_mandatory_members_only(object),
        ensures
            Self::readable(Json::Object(object)),
            self.read_from(Json::Object(object)) ==> self.is_minimal(),
    {
        reveal(member);
    }
}

impl ToJson for SimpleMessage {
    /// An object with the sender under `FromEmail` and `FromName`, the list
    /// `Recipients`, and one member for each other field that is set. The bodies
    /// go under `Text-part` and `Html-part`.
    open spec fn wire(&self) -> Json {
        Json::Object(self.members())
    }

    fn to_json(&self) -> (value: Value) {
        let mut o = new_object();
        put(&mut o, "FromEmail", &self.from_email);
        put(&mut o, "FromName", &self.from_name);
        put_opt(&mut o, "Sender", &self.sender);
        put(&mut o, "Recipients", &self.recipients);
        put_opt(&mut o, "To", &self.to);
        put_opt(&mut o, "Cc", &self.cc);
        put_opt(&mut o, "Bcc", &self.bcc);
        put_opt(&mut o, "Subject", &self.subject);
        put_opt(&mut o, "Text-part", &self.text_part);
        put_opt(&mut o, "Html-part", &self.html_part);
        put_opt(&mut o, "Attachments", &self.attachments);
        put_opt(&mut o, "InlineAttachments", &self.inline_attachments);
        put_opt(&mut o, "EventPayload", &self.event_payload);
        put_opt(&mut o, "Vars", &self.vars);
        object_value(o)
    }
}

impl FromJson for SimpleMessage {
    /// An object with strings under `FromEmail` and `FromName` and a list of
    /// contacts under `Recipients`; every other member of a known name follows
    /// the schema of its field.
    open spec fn readable(document: Json) -> bool {
        &&& document matches Json::Object(o)
        &&& req_readable::<String>(member(o, "FromEmail"@))
        &&& req_readable::<String>(member(o, "FromName"@))
        &&& opt_readable::<bool>(member(o, "Sender"@))
        &&& req_readable::<Vec<NameAndEmail>>(member(o, "Recipients"@))
        &&& opt_readable::<String>(member(o, "To"@))
        &&& opt_readable::<String>(member(o, "Cc"@))
        &&& opt_readable::<String>(member(o, "Bcc"@))
        &&& opt_readable::<String>(member(o, "Subject"@))
        &&& opt_readable::<String>(member(o, "Text-part"@))
        &&& opt_readable::<String>(member(o, "Html-part"@))
        &&& opt_readable::<Vec<Attachment>>(member(o, "Attachments"@))
        &&& opt_readable::<Vec<Attachment>>(member(o, "InlineAttachments"@))
        &&& opt_readable::<String>(member(o, "EventPayload"@))
        &&& opt_readable::<String>(member(o, "Vars"@))
    }

    /// Each field is what the member of its name reads as; a field whose member
    /// is missing is not set.
    open spec fn read_from(&self, document: Json) -> bool {
        &&& document matches Json::Object(o)
        &&& req_read_from(self.from_email, member(o, "FromEmail"@))
        &&& req_read_from(self.from_name, member(o, "FromName"@))
        &&& opt_read_from(self.sender, member(o, "Sender"@))
        &&& req_read_from(self.recipients, member(o, "Recipients"@))
        &&& opt_read_from(self.to, member(o, "To"@))
        &&& opt_read_from(self.cc, member(o, "Cc"@))
        &&& opt_read_from(self.bcc, member(o, "Bcc"@))
        &&& opt_read_from(self.subject, member(o, "Subject"@))
        &&& opt_read_from(self.text_part, member(o, "Text-part"@))
        &&& opt_read_from(self.html_part, member(o, "Html-part"@))
        &&& opt_read_from(self.attachments, member(o, "Attachments"@))
        &&& opt_read_from(self.inline_attachments, member(o, "InlineAttachments"@))
        &&& opt_read_from(self.event_payload, member(o, "EventPayload"@))
        &&& opt_read_from(self.vars, member(o, "Vars"@))
    }

    fn from_json(value: &Value) -> (outcome: Result<SimpleMessage, Mismatch>) {
        let o = match as_object(value) {
            Some(o) => o,
            None => { return Err(Mismatch); },
        };
        let from_email = take::<String>(find_member(o, "FromEmail"))?;
        let from_name = take::<String>(find_member(o, "FromName"))?;
        let sender = take_opt::<bool>(find_member(o, "Sender"))?;
        let recipients = take::<Vec<NameAndEmail>>(find_member(o, "Recipients"))?;
        let to = take_opt::<String>(find_member(o, "To"))?;
        let cc = take_opt::<String>(find_member(o, "Cc"))?;
        let bcc = take_opt::<String>(find_member(o, "Bcc"))?;
        let subject = take_opt::<String>(find_member(o, "Subject"))?;
        let text_part = take_opt::<String>(find_member(o, "Text-part"))?;
        let html_part = take_opt::<String>(find_member(o, "Html-part"))?;
        let attachments = take_opt::<Vec<Attachment>>(find_member(o, "Attachments"))?;
        let inline_attachments = take_opt::<Vec<Attachment>>(find_member(o, "InlineAttachments"))?;
        let event_payload = take_opt::<String>(find_member(o, "EventPayload"))?;
        let vars = take_opt::<String>(find_member(o, "Vars"))?;
        Ok(
            SimpleMessage {
                from_email,
                from_name,
                sender,
                recipients,
                to,
                cc,
                bcc,
                subject,
                text_part,
                html_part,
                attachments,
                inline_attachments,
                event_payload,
                vars,
            },
        )
    }
}

impl RoundTrip for SimpleMessage {
    proof fn lemma_reads_back(&self) {
        self.lemma_members_read();
        self.from_email.lemma_reads_back();
        self.from_name.lemma_reads_back();
        lemma_opt_reads_back(self.sender);
        self.recipients.lemma_reads_back();
        lemma_opt_reads_back(self.to);
        lemma_opt_reads_back(self.cc);
        lemma_opt_reads_back(self.bcc);
        lemma_opt_reads_back(self.subject);
        lemma_opt_reads_back(self.text_part);
        lemma_opt_reads_back(self.html_part);
        lemma_opt_reads_back(self.attachments);
        lemma_opt_reads_back(self.inline_attachments);
        lemma_opt_reads_back(self.event_payload);
        lemma_opt_reads_back(self.vars);
    }
}

/// Collects the fields of a [`Message`] one by one. A field that was never
/// given stays unset; a sender that was never given is replaced by a
/// placeholder when the message is built.
#[derive(Debug)]
pub struct MessageBuilder {
    pub from: Option<NameAndEmail>,
    pub sender: Option<NameAndEmail>,
    pub to: Option<Vec<NameAndEmail>>,
    pub cc: Option<Vec<NameAndEmail>>,
    pub bcc: Option<Vec<NameAndEmail>>,
    pub reply_to: Option<NameAndEmail>,
    pub subject: Option<String>,
    pub text_part: Option<String>,
    pub html_part: Option<String>,
    pub template_id: Option<u64>,
    pub template_language: Option<bool>,
    pub template_error_reporting: Option<NameAndEmail>,
    pub template_error_deliver: Option<bool>,
    pub attachments: Option<Vec<Attachment>>,
    pub inline_attachments: Option<Vec<Attachment>>,
    pub priority: Option<u8>,
    pub custom_campaign: Option<String>,
    pub deduplicate_campaign: Option<bool>,
    pub track_opens: Option<Track>,
    pub track_clicks: Option<Track>,
    pub custom_id: Option<String>,
    pub event_payload: Option<String>,
    pub url_tags: Option<String>,
    pub headers: Option<StringMap>,
    pub variables: Option<StringMap>,
}

impl Default for MessageBuilder {
    /// A builder in which nothing is set.
    fn default() -> (builder: MessageBuilder)
        ensures
            builder.from is None,
            builder.sender is None,
            builder.to is None,
            builder.cc is None,
            builder.bcc is None,
            builder.reply_to is None,
            builder.subject is None,
            builder.text_part is None,
            builder.html_part is None,
            builder.template_id is None,
            builder.template_language is None,
            builder.template_error_reporting is None,
            builder.template_error_deliver is None,
            builder.attachments is None,
            builder.inline_attachments is None,
            builder.priority is None,
            builder.custom_campaign is None,
            builder.deduplicate_campaign is None,
            builder.track_opens is None,
            builder.track_clicks is None,
            builder.custom_id is None,
            builder.event_payload is None,
            builder.url_tags is None,
            builder.headers is None,
            builder.variables is None,
    {
        MessageBuilder {
            from: None,
            sender: None,
            to: None,
            cc: None,
            bcc: None,
            reply_to: None,
            subject: None,
            text_part: None,
            html_part: None,
            template_id: None,
            template_language: None,
            template_error_reporting: None,
            template_error_deliver: None,
            attachments: None,
            inline_attachments: None,
            priority: None,
            custom_campaign: None,
            deduplicate_campaign: None,
            track_opens: None,
            track_clicks: None,
            custom_id: None,
            event_payload: None,
            url_tags: None,
            headers: None,
            variables: None,
        }
    }
}

impl MessageBuilder {
    /// Sets the sender.
    pub fn with_from(self, email: &str, name: Option<&str>) -> (builder: MessageBuilder)
        ensures
            builder.from matches Some(contact) && contact.is_contact(email@, opt_str(name)),
            builder == (MessageBuilder { from: builder.from, ..self }),
    {
        let mut builder = self;
        builder.from = Some(NameAndEmail::new(email, name));
        builder
    }

    /// Sets the recipients to the given contact, which is entered twice.
    pub fn with_to(self, email: &str, name: Option<&str>) -> (builder: MessageBuilder)
        ensures
            builder.to matches Some(list) && list.len() == 2 && list[0].is_contact(
                email@,
                opt_str(name),
            ) && list[1].is_contact(email@, opt_str(name)),
            builder == (MessageBuilder { to: builder.to, ..self }),
    {
        let mut list: Vec<NameAndEmail> = Vec::new();
        list.push(NameAndEmail::new(email, name));
        list.push(NameAndEmail::new(email, name));
        let mut builder = self;
        builder.to = Some(list);
        builder
    }

    /// Sets the plain-text body.
    pub fn with_text_body(self, body: &str) -> (builder: MessageBuilder)
        ensures
            builder.text_part matches Some(text) && text@ == body@,
            builder == (MessageBuilder { text_part: builder.text_part, ..self }),
    {
        let mut builder = self;
        builder.text_part = Some(String::from_str(body));
        builder
    }

    /// Builds the message: every field goes over as it is, and a sender that
    /// was never given becomes a placeholder made from a word drawn at random.
    pub fn build(self) -> (message: Message)
        ensures
            match self.from {
                Some(contact) => message.from == contact,
                None => message.from.is_placeholder(),
            },
            message.sender == self.sender,
            message.to == self.to,
            message.cc == self.cc,
            message.bcc == self.bcc,
            message.reply_to == self.reply_to,
            message.subject == self.subject,
            message.text_part == self.text_part,
            message.html_part == self.html_part,
            message.template_id == self.template_id,
            message.template_language == self.template_language,
            message.template_error_reporting == self.template_error_reporting,
            message.template_error_deliver == self.template_error_deliver,
            message.attachments == self.attachments,
            message.inline_attachments == self.inline_attachments,
            message.priority == self.priority,
            message.custom_campaign == self.custom_campaign,
            message.deduplicate_campaign == self.deduplicate_campaign,
            message.track_opens == self.track_opens,
            message.track_clicks == self.track_clicks,
            message.custom_id == self.custom_id,
            message.event_payload == self.event_payload,
            message.url_tags == self.url_tags,
            message.headers == self.headers,
            message.variables == self.variables,
    {
        Message {
            from: match self.from {
                Some(contact) => contact,
                None => NameAndEmail::default(),
            },
            sender: self.sender,
            to: self.to,
            cc: self.cc,
            bcc: self.bcc,
            reply_to: self.reply_to,
            subject: self.subject,
            text_part: self.text_part,
            html_part: self.html_part,
            template_id: self.template_id,
            template_language: self.template_language,
            template_error_reporting: self.template_error_reporting,
            template_error_deliver: self.template_error_deliver,
            attachments: self.attachments,
            inline_attachments: self.inline_attachments,
            priority: self.priority,
            custom_campaign: self.custom_campaign,
            deduplicate_campaign: self.deduplicate_campaign,
            track_opens: self.track_opens,
            track_clicks: self.track_clicks,
            custom_id: self.custom_id,
            event_payload: self.event_payload,
            url_tags: self.url_tags,
            headers: self.headers,
            variables: self.variables,
        }
    }
}

} // verus!
