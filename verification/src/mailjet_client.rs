//! The client: its configuration, the request that sends an email, and the
//! reading of what the server answered.
//!
//! The client does not talk to the network. [`MailjetClient::send_email`]
//! prepares the request to post; whoever holds the transport posts it and
//! hands the outcome to [`PreparedRequest::read_response`].

use crate::data_objects::{
    MessageObject, RequestObject, Response, ResponseItem, ResponseObject, SendEmailParams,
    SendResponseObject, SimpleMessage,
};
use crate::error::ClientError;
use crate::json::{
    as_array, as_object, documents, error_message, find_member, json_of, json_parsed, json_text,
    member, parse, print, Json, Mismatch,
};
use crate::mailjet_api::{ApiUrl, ApiVersion};
use crate::secret::Credential;
use crate::text::{describe_failure, failure_detail, opt_str};
use crate::wire::{FromJson, ToJson};
use reqwest_middleware::ClientWithMiddleware;
use serde_json::Value;
use vstd::prelude::*;
use vstd::string::StringExecFns;

verus! {

/// `reqwest_middleware::ClientWithMiddleware`, taken as it is: the client
/// carries its transport and never looks inside.
#[verifier::external_type_specification]
#[verifier::external_body]
pub struct ExClientWithMiddleware(reqwest_middleware::ClientWithMiddleware);

/// `reqwest::Error`, taken as it is: why a transport could not be built is
/// not looked into.
#[verifier::external_type_specification]
#[verifier::external_body]
pub struct ExTransportError(reqwest::Error);

/// The `User-Agent` that a transport was built to send with every request:
/// what `reqwest::ClientBuilder::user_agent` was given.
pub uninterp spec fn agent_of(transport: ClientWithMiddleware) -> Seq<char>;

/// Whether a transport was built to refuse plain HTTP: what
/// `reqwest::ClientBuilder::https_only` was given.
pub uninterp spec fn https_only_of(transport: ClientWithMiddleware) -> bool;

/// `reqwest::ClientBuilder` and `reqwest_middleware::ClientBuilder`: an HTTP
/// client that names itself `user_agent`, uses the platform's TLS, refuses
/// plain HTTP if `https_only` is set, and traces its requests. Whether the
/// client can be built depends on the machine, so nothing is promised of
/// success; a client that was built was built with the two settings given.
#[verifier::external_body]
fn build_transport(user_agent: &str, https_only: bool) -> (transport: Result<
    ClientWithMiddleware,
    reqwest::Error,
>)
    ensures
        transport matches Ok(t) ==> agent_of(t) == user_agent@,
        transport matches Ok(t) ==> https_only_of(t) == https_only,
{
    let client = reqwest::ClientBuilder::new()
        .user_agent(user_agent)
        .use_native_tls()
        .https_only(https_only)
        .build()?;
    Ok(
        reqwest_middleware::ClientBuilder::new(client)
            .with(reqwest_tracing::TracingMiddleware::default())
            .build(),
    )
}

/// The base URL of the API, used where none is given.
pub const DEFAULT_API_URL: &'static str = "https://api.mailjet.com";

/// The name under which the client introduces itself, used where none is
/// given.
pub const DEFAULT_USER_AGENT: &'static str = "mailjet_client/0.1.0";

/// The settings of a client as plain values.
pub struct ClientView {
    pub email_address: Option<Seq<char>>,
    pub email_name: Option<Seq<char>>,
    pub api_user: Seq<char>,
    pub api_key: Seq<char>,
    pub api_url: Seq<char>,
    pub api_version: ApiVersion,
    pub sandbox_mode: bool,
}

impl ClientView {
    /// The settings after the API version was changed.
    pub open spec fn use_api_version(self, version: ApiVersion) -> ClientView {
        ClientView { api_version: version, ..self }
    }

    /// The settings after sandbox mode was asked for: the legacy version has
    /// no sandbox, so there the settings stay as they are.
    pub open spec fn enable_sandbox_mode(self) -> ClientView {
        if self.api_version == ApiVersion::V3 {
            self
        } else {
            ClientView { sandbox_mode: true, ..self }
        }
    }

    /// The settings after sandbox mode was switched off.
    pub open spec fn disable_sandbox_mode(self) -> ClientView {
        ClientView { sandbox_mode: false, ..self }
    }

    /// The URL of the `send` endpoint: the base URL, a slash and the path of
    /// the endpoint for the selected version.
    pub open spec fn send_url(self) -> Seq<char> {
        self.api_url + "/"@ + ApiUrl::send_path(self.api_version)
    }

    /// The sandbox switch with which a batch is sent: on where the batch asks
    /// for a sandbox run itself, and the client's switch where the batch does
    /// not say or says no.
    pub open spec fn sandbox_for(self, own: Option<bool>) -> Option<bool> {
        match own {
            Some(true) => Some(true),
            _ => Some(self.sandbox_mode),
        }
    }

    /// Whether `request` is the request that sends `document` with these
    /// settings.
    pub open spec fn posts(self, request: PreparedRequest, document: Json) -> bool {
        &&& request.api_version == self.api_version
        &&& request.url@ == self.send_url()
        &&& request.body@ == json_text(document)
    }

    /// Whether `outcome` is what preparing a send comes to, for a request
    /// object that is the message `simple` or the batch `params`, if it is
    /// either.
    ///
    /// The selected version alone decides which shape is expected. With the
    /// legacy version a message is posted as it is; with the current version a
    /// batch is posted with the sandbox switch filled in. An object of the
    /// other shape is refused.
    pub open spec fn prepares(
        self,
        simple: Option<SimpleMessage>,
        params: Option<SendEmailParams>,
        outcome: Result<PreparedRequest, ClientError>,
    ) -> bool {
        match self.api_version {
            ApiVersion::V3 => match simple {
                Some(message) => outcome matches Ok(request) && self.posts(
                    request,
                    message.wire(),
                ),
                None => outcome matches Err(ClientError::BadRequest(detail)) && detail@
                    == "Wrong parameters for the request"@,
            },
            ApiVersion::V3_1 => match params {
                Some(batch) => outcome matches Ok(request) && self.posts(
                    request,
                    Json::Object(batch.members_in(self.sandbox_for(batch.sandbox_mode))),
                ),
                None => outcome matches Err(ClientError::UnknownError(detail)) && detail@
                    == "Invalid request"@,
            },
        }
    }
}

/// The version that a client is built with: the legacy one where none is
/// named, the named one otherwise, none where the name is unknown.
pub open spec fn chosen_version(name: Option<Seq<char>>) -> Option<ApiVersion> {
    match name {
        Some(n) => crate::mailjet_api::version_named(n),
        None => Some(ApiVersion::V3),
    }
}

/// The name under which a client introduces itself: the one given, or the
/// default where none is given.
pub open spec fn chosen_agent(user_agent: Option<Seq<char>>) -> Seq<char> {
    match user_agent {
        Some(agent) => agent,
        None => DEFAULT_USER_AGENT@,
    }
}

/// Whether a client refuses plain HTTP: as told, and yes where nothing is
/// told.
pub open spec fn chosen_https_only(force_https: Option<bool>) -> bool {
    match force_https {
        Some(force) => force,
        None => true,
    }
}

/// The two settings that the transport of a client is built with.
pub fn transport_settings<'a>(user_agent: Option<&'a str>, force_https: Option<bool>) -> (settings:
    (&'a str, bool))
    ensures
        settings.0@ == chosen_agent(opt_str(user_agent)),
        settings.1 == chosen_https_only(force_https),
{
    (
        match user_agent {
            Some(agent) => agent,
            None => DEFAULT_USER_AGENT,
        },
        match force_https {
            Some(force) => force,
            None => true,
        },
    )
}

/// The settings of a client that was just built from the given values.
pub open spec fn initial_view(
    api_user: Seq<char>,
    api_key: Seq<char>,
    email_address: Option<Seq<char>>,
    email_name: Option<Seq<char>>,
    api_url: Option<Seq<char>>,
    api_version: ApiVersion,
) -> ClientView {
    ClientView {
        email_address,
        email_name,
        api_user,
        api_key,
        api_url: match api_url {
            Some(url) => url,
            None => DEFAULT_API_URL@,
        },
        api_version,
        sandbox_mode: false,
    }
}

/// A request that is ready to be posted: a `POST` to `url` with `body` as its
/// JSON body, under HTTP Basic authentication with the client's credentials.
#[derive(Debug)]
pub struct PreparedRequest {
    /// The version of the API that the request is written for.
    pub api_version: ApiVersion,
    /// Where to post.
    pub url: String,
    /// What to post.
    pub body: String,
}

/// What became of a request that was posted.
#[derive(Debug)]
pub enum HttpOutcome {
    /// No response arrived (connection, TLS, timeout); the text says why.
    NoResponse(String),
    /// A response arrived, but its body could not be read; the text says why.
    UnreadableBody(String),
    /// A response arrived.
    Answer { status_code: u16, body: String },
}

/// The text that tells of a body that is JSON but not of the expected shape.
pub open spec fn schema_detail() -> Seq<char> {
    "the response does not follow the expected schema"@
}

/// Whether a status code tells of success: 200 with either version, and 201
/// as well with the legacy one.
pub open spec fn accepts(version: ApiVersion, status_code: u16) -> bool {
    status_code == 200 || (version == ApiVersion::V3 && status_code == 201)
}

/// The name of the list that a successful response carries.
pub open spec fn list_name(version: ApiVersion) -> Seq<char> {
    match version {
        ApiVersion::V3 => "Sent"@,
        ApiVersion::V3_1 => "Messages"@,
    }
}

/// The items of the list that a successful response carries, if the body is
/// an object with that list.
pub open spec fn payload_list(version: ApiVersion, document: Json) -> Option<Seq<Json>> {
    match document {
        Json::Object(o) => match member(o, list_name(version)) {
            Some(Json::List(items)) => Some(items),
            _ => None,
        },
        _ => None,
    }
}

/// Whether a document follows the schema of the items of a version.
pub open spec fn item_readable(version: ApiVersion, document: Json) -> bool {
    match version {
        ApiVersion::V3 => MessageObject::readable(document),
        ApiVersion::V3_1 => SendResponseObject::readable(document),
    }
}

/// Whether an item of a payload is what a document reads as with a version.
pub open spec fn item_read_from(version: ApiVersion, item: ResponseItem, document: Json) -> bool {
    match version {
        ApiVersion::V3 => item matches ResponseItem::Message(m) && m.read_from(document),
        ApiVersion::V3_1 => item matches ResponseItem::Send(s) && s.read_from(document),
    }
}

/// Whether every document of a sequence follows the schema of the items of a
/// version.
pub open spec fn items_readable(version: ApiVersion, items: Seq<Json>) -> bool {
    forall|k: int| 0 <= k < items.len() ==> item_readable(version, #[trigger] items[k])
}

/// Whether a payload is what a sequence of documents reads as, item by item.
pub open spec fn items_read_from(
    version: ApiVersion,
    payload: Seq<ResponseItem>,
    items: Seq<Json>,
) -> bool {
    &&& payload.len() == items.len()
    &&& forall|k: int|
        0 <= k < items.len() ==> item_read_from(version, #[trigger] payload[k], items[k])
}

/// Whether the body of a successful response follows the schema of a version.
pub open spec fn payload_readable(version: ApiVersion, document: Json) -> bool {
    payload_list(version, document) matches Some(items) && items_readable(version, items)
}

/// Whether `result` is the failure that tells of a body that does not follow
/// the schema: an unknown failure with the legacy version, a parse failure with
/// the current one, with `detail` as its diagnosis.
pub open spec fn is_schema_failure(
    version: ApiVersion,
    detail: Seq<char>,
    result: Result<Response, ClientError>,
) -> bool {
    match version {
        ApiVersion::V3 => result matches Err(ClientError::UnknownError(d)) && d@ == detail,
        ApiVersion::V3_1 => result matches Err(ClientError::ParseError(d)) && d@ == detail,
    }
}

/// Whether `result` is what the document in the body of a successful response
/// reads as: the response with its payload where the document follows the
/// schema, and a failure with a fixed text where it does not.
pub open spec fn reads_document(
    version: ApiVersion,
    status_code: u16,
    document: Json,
    result: Result<Response, ClientError>,
) -> bool {
    if payload_readable(version, document) {
        &&& result matches Ok(response)
        &&& response.status_code == status_code
        &&& response.payload matches Some(payload)
        &&& items_read_from(version, payload@, payload_list(version, document)->0)
    } else {
        is_schema_failure(version, schema_detail(), result)
    }
}

/// Whether `result` is what a successful response with the body `body` reads
/// as: what its document reads as where the body is JSON, and a failure with
/// the parser's description where it is not.
pub open spec fn reads_body(
    version: ApiVersion,
    status_code: u16,
    body: Seq<char>,
    result: Result<Response, ClientError>,
) -> bool {
    match json_parsed(body) {
        Ok(document) => reads_document(version, status_code, document, result),
        Err(reason) => is_schema_failure(version, reason, result),
    }
}

/// Whether `result` is what the outcome of a request reads as.
///
/// A request without a response is an external failure. A response whose body
/// cannot be read is an unknown failure. A response with a status that tells
/// of success is read as a payload. Status 400 is a bad request, and any other
/// status an unknown failure; both carry the status and the body.
pub open spec fn reads(
    version: ApiVersion,
    outcome: HttpOutcome,
    result: Result<Response, ClientError>,
) -> bool {
    match outcome {
        HttpOutcome::NoResponse(reason) => result matches Err(ClientError::ExternalError(detail))
            && detail@ == reason@,
        HttpOutcome::UnreadableBody(reason) => result matches Err(
            ClientError::UnknownError(detail),
        ) && detail@ == reason@,
        HttpOutcome::Answer { status_code, body } => if accepts(version, status_code) {
            reads_body(version, status_code, body@, result)
        } else if status_code == 400 {
            result matches Err(ClientError::BadRequest(detail)) && detail@ == failure_detail(
                status_code,
                body@,
            )
        } else {
            result matches Err(ClientError::UnknownError(detail)) && detail@ == failure_detail(
                status_code,
                body@,
            )
        },
    }
}

/// Reads the items of the list that a successful response carries: the list
/// `Sent` with the legacy version, the list `Messages` with the current one.
pub fn read_payload(version: ApiVersion, document: &Value) -> (outcome: Result<
    Vec<ResponseItem>,
    Mismatch,
>)
    ensures
        outcome is Ok <==> payload_readable(version, json_of(*document)),
        outcome matches Ok(payload) ==> items_read_from(
            version,
            payload@,
            payload_list(version, json_of(*document))->0,
        ),
{
    let o = match as_object(document) {
        Some(o) => o,
        None => { return Err(Mismatch); },
    };
    let found = match version {
        ApiVersion::V3 => find_member(o, "Sent"),
        ApiVersion::V3_1 => find_member(o, "Messages"),
    };
    let items = match found {
        Some(list) => match as_array(list) {
            Some(items) => items,
            None => { return Err(Mismatch); },
        },
        None => { return Err(Mismatch); },
    };
    let ghost docs = documents(items@);
    assert(payload_list(version, json_of(*document)) == Some(docs));
    let mut payload: Vec<ResponseItem> = Vec::new();
    let mut i: usize = 0;
    while i < items.len()
        invariant
            i <= items.len(),
            payload.len() == i,
            docs == documents(items@),
            payload_list(version, json_of(*document)) == Some(docs),
            forall|k: int| 0 <= k < i ==> item_readable(version, #[trigger] docs[k]),
            forall|k: int|
                0 <= k < i ==> item_read_from(version, #[trigger] payload[k], docs[k]),
        decreases items.len() - i,
    {
        let read = match version {
            ApiVersion::V3 => match MessageObject::from_json(&items[i]) {
                Ok(item) => Ok(item.into_item()),
                Err(e) => Err(e),
            },
            ApiVersion::V3_1 => match SendResponseObject::from_json(&items[i]) {
                Ok(item) => Ok(item.into_item()),
                Err(e) => Err(e),
            },
        };
        match read {
            Ok(item) => {
                payload.push(item);
            },
            Err(_) => {
                assert(!item_readable(version, docs[i as int]));
                assert(!items_readable(version, docs));
                return Err(Mismatch);
            },
        }
        i += 1;
    }
    assert(items_readable(version, docs));
    Ok(payload)
}

impl PreparedRequest {
    /// Reads what became of the request.
    pub fn read_response(&self, outcome: HttpOutcome) -> (result: Result<Response, ClientError>)
        ensures
            reads(self.api_version, outcome, result),
    {
        match outcome {
            HttpOutcome::NoResponse(reason) => Err(ClientError::ExternalError(reason)),
            HttpOutcome::UnreadableBody(reason) => Err(ClientError::UnknownError(reason)),
            HttpOutcome::Answer { status_code, body } => {
                let success = status_code == 200 || (self.api_version == ApiVersion::V3
                    && status_code == 201);
                if success {
                    read_body(self.api_version, status_code, body.as_str())
                } else if status_code == 400 {
                    Err(ClientError::BadRequest(describe_failure(status_code, body.as_str())))
                } else {
                    Err(ClientError::UnknownError(describe_failure(status_code, body.as_str())))
                }
            },
        }
    }
}

/// The failure that tells of a body that does not follow the schema: its kind
/// goes by the version.
pub fn schema_failure(version: ApiVersion, detail: String) -> (failure: Result<
    Response,
    ClientError,
>)
    ensures
        is_schema_failure(version, detail@, failure),
{
    match version {
        ApiVersion::V3 => Err(ClientError::UnknownError(detail)),
        ApiVersion::V3_1 => Err(ClientError::ParseError(detail)),
    }
}

/// Reads the document that the body of a successful response holds.
pub fn read_document(version: ApiVersion, status_code: u16, document: &Value) -> (result: Result<
    Response,
    ClientError,
>)
    ensures
        reads_document(version, status_code, json_of(*document), result),
{
    match read_payload(version, document) {
        Ok(payload) => Ok(Response { status_code, payload: Some(payload) }),
        Err(_) => schema_failure(
            version,
            String::from_str("the response does not follow the expected schema"),
        ),
    }
}

/// Reads the body of a successful response.
pub fn read_body(version: ApiVersion, status_code: u16, body: &str) -> (result: Result<
    Response,
    ClientError,
>)
    ensures
        reads_body(version, status_code, body@, result),
{
    match parse(body) {
        Ok(document) => read_document(version, status_code, &document),
        Err(error) => schema_failure(version, error_message(&error)),
    }
}

/// A client of the API: the transport, the credentials, the base URL, the
/// selected API version and the sandbox switch.
#[derive(Debug)]
pub struct MailjetClient {
    http_client: ClientWithMiddleware,
    /// The address that emails are sent from.
    pub email_address: Option<String>,
    /// The name that goes with that address.
    pub email_name: Option<String>,
    api_user: Credential,
    api_key: Credential,
    api_url: String,
    api_version: ApiVersion,
    sandbox_mode: bool,
}

impl View for MailjetClient {
    type V = ClientView;

    closed spec fn view(&self) -> ClientView {
        ClientView {
            email_address: match self.email_address {
                Some(a) => Some(a@),
                None => None,
            },
            email_name: match self.email_name {
                Some(n) => Some(n@),
                None => None,
            },
            api_user: self.api_user@,
            api_key: self.api_key@,
            api_url: self.api_url@,
            api_version: self.api_version,
            sandbox_mode: self.sandbox_mode,
        }
    }
}

/// An owned copy of an optional string slice.
fn owned(text: Option<&str>) -> (copy: Option<String>)
    ensures
        match copy {
            Some(c) => opt_str(text) == Some(c@),
            None => text is None,
        },
{
    match text {
        Some(t) => Some(String::from_str(t)),
        None => None,
    }
}

impl MailjetClient {
    /// The transport that the client holds.
    pub closed spec fn transport(&self) -> ClientWithMiddleware {
        self.http_client
    }

    /// Whether the transport of the client was built with the given settings.
    pub open spec fn transport_built_with(&self, user_agent: Seq<char>, https_only: bool) -> bool {
        &&& agent_of(self.transport()) == user_agent
        &&& https_only_of(self.transport()) == https_only
    }

    /// Whether `outcome` is what building a client from the given values
    /// comes to: a refusal where the version is unknown, and otherwise a
    /// client with these settings, around a transport built with the chosen
    /// user agent and HTTPS rule, or, where the transport could not be built,
    /// the failure that says so.
    pub open spec fn builds(
        api_user: Seq<char>,
        api_key: Seq<char>,
        email_address: Option<Seq<char>>,
        email_name: Option<Seq<char>>,
        user_agent: Option<Seq<char>>,
        api_url: Option<Seq<char>>,
        api_version: Option<Seq<char>>,
        force_https: Option<bool>,
        outcome: Result<MailjetClient, ClientError>,
    ) -> bool {
        match chosen_version(api_version) {
            None => outcome matches Err(ClientError::WrongApiVersion),
            Some(version) => match outcome {
                Ok(client) => {
                    &&& client@ == initial_view(
                        api_user,
                        api_key,
                        email_address,
                        email_name,
                        api_url,
                        version,
                    )
                    &&& client.transport_built_with(
                        chosen_agent(user_agent),
                        chosen_https_only(force_https),
                    )
                },
                Err(failure) => failure matches ClientError::HTTPClient,
            },
        }
    }

    /// Builds a client.
    ///
    /// `api_user` and `api_key` are the credentials of the account.
    /// `email_address` and `email_name` name the sender. `user_agent` is the
    /// name under which the client introduces itself. `api_url` is the base
    /// URL of the API and `api_version` the name of the version to speak;
    /// without one the legacy version is selected. `force_https` tells whether
    /// plain HTTP is refused, which it is unless told otherwise.
    pub fn new(
        api_user: Credential,
        api_key: Credential,
        email_address: Option<&str>,
        email_name: Option<&str>,
        user_agent: Option<&str>,
        api_url: Option<&str>,
        api_version: Option<&str>,
        force_https: Option<bool>,
    ) -> (outcome: Result<MailjetClient, ClientError>)
        ensures
            Self::builds(
                api_user@,
                api_key@,
                opt_str(email_address),
                opt_str(email_name),
                opt_str(user_agent),
                opt_str(api_url),
                opt_str(api_version),
                force_https,
                outcome,
            ),
    {
        let version = match api_version {
            Some(name) => ApiVersion::parse(name)?,
            None => ApiVersion::V3,
        };
        let settings = transport_settings(user_agent, force_https);
        let transport = build_transport(settings.0, settings.1);
        Self::from_transport(
            transport,
            api_user,
            api_key,
            email_address,
            email_name,
            api_url,
            version,
        )
    }

    /// Builds a client around a transport, if there is one: a transport that
    /// could not be built is a failure of the HTTP client.
    pub fn from_transport(
        transport: Result<ClientWithMiddleware, reqwest::Error>,
        api_user: Credential,
        api_key: Credential,
        email_address: Option<&str>,
        email_name: Option<&str>,
        api_url: Option<&str>,
        api_version: ApiVersion,
    ) -> (outcome: Result<MailjetClient, ClientError>)
        ensures
            match transport {
                Ok(http_client) => outcome matches Ok(client) && client.transport() == http_client
                    && client@ == initial_view(
                    api_user@,
                    api_key@,
                    opt_str(email_address),
                    opt_str(email_name),
                    opt_str(api_url),
                    api_version,
                ),
                Err(_) => outcome matches Err(ClientError::HTTPClient),
            },
    {
        match transport {
            Ok(http_client) => Ok(
                MailjetClient {
                    http_client,
                    email_address: owned(email_address),
                    email_name: owned(email_name),
                    api_user,
                    api_key,
                    api_url: match api_url {
                        Some(url) => String::from_str(url),
                        None => String::from_str(DEFAULT_API_URL),
                    },
                    api_version,
                    sandbox_mode: false,
                },
            ),
            Err(_) => Err(ClientError::HTTPClient),
        }
    }

    /// The transport that requests are posted with.
    pub fn http_client(&self) -> (transport: &ClientWithMiddleware)
        ensures
            *transport == self.transport(),
    {
        &self.http_client
    }

    /// The address that emails are sent from.
    pub fn email_address(&self) -> (address: Option<&str>)
        ensures
            opt_str(address) == self@.email_address,
    {
        match &self.email_address {
            Some(address) => Some(address.as_str()),
            None => None,
        }
    }

    /// The name that goes with the sender's address.
    pub fn email_name(&self) -> (name: Option<&str>)
        ensures
            opt_str(name) == self@.email_name,
    {
        match &self.email_name {
            Some(name) => Some(name.as_str()),
            None => None,
        }
    }

    /// The user token of the account.
    pub fn api_user(&self) -> (secret: &Credential)
        ensures
            secret@ == self@.api_user,
    {
        &self.api_user
    }

    /// The private token of the account.
    pub fn api_key(&self) -> (secret: &Credential)
        ensures
            secret@ == self@.api_key,
    {
        &self.api_key
    }

    /// The base URL of the API.
    pub fn api_url(&self) -> (url: &str)
        ensures
            url@ == self@.api_url,
    {
        self.api_url.as_str()
    }

    /// The selected version of the API.
    pub fn api_version(&self) -> (version: ApiVersion)
        ensures
            version == self@.api_version,
    {
        self.api_version
    }

    /// Whether sandbox mode is on.
    pub fn sandbox_mode(&self) -> (on: bool)
        ensures
            on == self@.sandbox_mode,
    {
        self.sandbox_mode
    }

    /// Selects the version of the API for every send from now on.
    pub fn use_api_version(&mut self, version: ApiVersion)
        ensures
            final(self)@ == old(self)@.use_api_version(version),
            final(self).transport() == old(self).transport(),
    {
        self.api_version = version;
    }

    /// Switches sandbox mode on, unless the legacy version is selected, which
    /// has no sandbox.
    pub fn enable_sandbox_mode(&mut self)
        ensures
            final(self)@ == old(self)@.enable_sandbox_mode(),
            final(self).transport() == old(self).transport(),
    {
        if self.api_version != ApiVersion::V3 {
            self.sandbox_mode = true;
        }
    }

    /// Switches sandbox mode off.
    pub fn disable_sandbox_mode(&mut self)
        ensures
            final(self)@ == old(self)@.disable_sandbox_mode(),
            final(self).transport() == old(self).transport(),
    {
        self.sandbox_mode = false;
    }

    /// The URL of the `send` endpoint for the selected version.
    pub fn send_url(&self) -> (url: String)
        ensures
            url@ == self@.send_url(),
    {
        let mut url = self.api_url.clone();
        url.append("/");
        url.append(ApiUrl::send(&self.api_version).as_str());
        url
    }

    /// The request that posts `body` to the `send` endpoint of the selected
    /// version.
    pub fn post_to_send(&self, body: String) -> (request: PreparedRequest)
        ensures
            request.api_version == self@.api_version,
            request.url@ == self@.send_url(),
            request.body@ == body@,
    {
        PreparedRequest { api_version: self.api_version, url: self.send_url(), body }
    }

    /// Prepares the request that sends an email.
    ///
    /// The selected version decides which shape of request object is
    /// expected: a [`SimpleMessage`] with the legacy version, a
    /// [`SendEmailParams`] with the current one.
    pub fn send_email<R: RequestObject>(&self, request: &R) -> (outcome: Result<
        PreparedRequest,
        ClientError,
    >)
        ensures
            self@.prepares(request.simple_message(), request.send_email_params(), outcome),
    {
        match self.api_version {
            ApiVersion::V3 => self.send_email_v3(request),
            ApiVersion::V3_1 => self.send_email_v3_1(request),
        }
    }

    /// Prepares the request that sends a batch with API v3.1. Unless the batch
    /// asks for a sandbox run itself, the client's switch says whether it is
    /// one.
    fn send_email_v3_1<R: RequestObject>(&self, request: &R) -> (outcome: Result<
        PreparedRequest,
        ClientError,
    >)
        requires
            self@.api_version == ApiVersion::V3_1,
        ensures
            self@.prepares(request.simple_message(), request.send_email_params(), outcome),
    {
        let params = match request.as_send_email_params() {
            Some(params) => params,
            None => {
                return Err(ClientError::UnknownError(String::from_str("Invalid request")));
            },
        };
        let sandbox_mode = match params.sandbox_mode {
            Some(true) => Some(true),
            _ => Some(self.sandbox_mode),
        };
        Ok(self.post_to_send(print(&params.to_json_in(sandbox_mode))))
    }

    /// Prepares the request that sends a message with API v3.
    fn send_email_v3<R: RequestObject>(&self, request: &R) -> (outcome: Result<
        PreparedRequest,
        ClientError,
    >)
        requires
            self@.api_version == ApiVersion::V3,
        ensures
            self@.prepares(request.simple_message(), request.send_email_params(), outcome),
    {
        let message = match request.as_simple_message() {
            Some(message) => message,
            None => {
                return Err(
                    ClientError::BadRequest(String::from_str("Wrong parameters for the request")),
                );
            },
        };
        Ok(self.post_to_send(print(&message.to_json())))
    }
}

/// A client that was built without naming a version speaks the legacy
/// version, and one that was built without saying more of its transport
/// introduces itself by the default name and refuses plain HTTP.
pub proof fn lemma_unnamed_version_is_legacy(
    api_user: Seq<char>,
    api_key: Seq<char>,
    email_address: Option<Seq<char>>,
    email_name: Option<Seq<char>>,
    user_agent: Option<Seq<char>>,
    api_url: Option<Seq<char>>,
    force_https: Option<bool>,
    outcome: Result<MailjetClient, ClientError>,
)
    requires
        MailjetClient::builds(
            api_user,
            api_key,
            email_address,
            email_name,
            user_agent,
            api_url,
            None,
            force_https,
            outcome,
        ),
    ensures
        outcome matches Ok(client) ==> client@.api_version == ApiVersion::V3,
        !(outcome matches Err(ClientError::WrongApiVersion)),
        outcome is Ok && user_agent is None && force_https is None
            ==> outcome->Ok_0.transport_built_with(DEFAULT_USER_AGENT@, true),
{
}

/// The selected version decides what a send posts and where.
///
/// With the legacy version a send succeeds exactly for a message of API v3,
/// which goes to `v3/send` below the base URL as it is. With the current
/// version it succeeds exactly for a batch of API v3.1, which goes to
/// `v3.1/send`. So the same client, switched from one version to the other,
/// never posts to the same URL twice.
pub proof fn lemma_version_selects_wire_path<R: RequestObject>(
    view: ClientView,
    request: R,
    legacy: Result<PreparedRequest, ClientError>,
    current: Result<PreparedRequest, ClientError>,
)
    requires
        view.use_api_version(ApiVersion::V3).prepares(
            request.simple_message(),
            request.send_email_params(),
            legacy,
        ),
        view.use_api_version(ApiVersion::V3_1).prepares(
            request.simple_message(),
            request.send_email_params(),
            current,
        ),
    ensures
        legacy is Ok <==> request.simple_message() is Some,
        current is Ok <==> request.send_email_params() is Some,
        legacy matches Ok(posted) ==> posted.url@ == view.api_url + "/v3/send"@ && posted.body@
            == json_text(request.simple_message()->0.wire()),
        current matches Ok(posted) ==> posted.url@ == view.api_url + "/v3.1/send"@ && posted.body@
            == json_text(
            Json::Object(
                request.send_email_params()->0.members_in(
                    view.sandbox_for(request.send_email_params()->0.sandbox_mode),
                ),
            ),
        ),
        legacy is Ok && current is Ok ==> legacy->Ok_0.url@ != current->Ok_0.url@,
{
    reveal_strlit("/");
    reveal_strlit("v3/send");
    reveal_strlit("v3.1/send");
    reveal_strlit("/v3/send");
    reveal_strlit("/v3.1/send");
    let legacy_url = view.use_api_version(ApiVersion::V3).send_url();
    let current_url = view.use_api_version(ApiVersion::V3_1).send_url();
    assert(legacy_url =~= view.api_url + "/v3/send"@);
    assert(current_url =~= view.api_url + "/v3.1/send"@);
    assert(legacy_url.len() != current_url.len());
}

/// Sandbox mode follows the version: asking for it changes nothing while the
/// legacy version is selected, switches it on once the current version is, and
/// switching it off always leaves it off.
pub proof fn lemma_sandbox_follows_version(view: ClientView)
    ensures
        view.api_version == ApiVersion::V3 ==> view.enable_sandbox_mode() == view,
        view.use_api_version(ApiVersion::V3_1).enable_sandbox_mode().sandbox_mode,
        !view.disable_sandbox_mode().sandbox_mode,
        !view.use_api_version(
            ApiVersion::V3_1,
        ).enable_sandbox_mode().disable_sandbox_mode().sandbox_mode,
        view.enable_sandbox_mode().api_version == view.api_version,
        view.disable_sandbox_mode().api_version == view.api_version,
{
}

/// A response with status 400 is a bad request, whatever its body and the
/// version: it never reads as a success.
pub proof fn lemma_status_400_is_bad_request(
    version: ApiVersion,
    outcome: HttpOutcome,
    result: Result<Response, ClientError>,
)
    requires
        outcome matches HttpOutcome::Answer { status_code, .. } && status_code == 400,
        reads(version, outcome, result),
    ensures
        result matches Err(ClientError::BadRequest(_)),
        !(result is Ok),
{
}

/// A response with status 200 and a body that follows the schema reads as a
/// payload with one item for each entry of the list in the body.
pub proof fn lemma_well_formed_body_is_payload(
    version: ApiVersion,
    outcome: HttpOutcome,
    document: Json,
    result: Result<Response, ClientError>,
)
    requires
        outcome matches HttpOutcome::Answer { status_code, body } && status_code == 200
            && json_parsed(body@) == Ok::<Json, Seq<char>>(document),
        payload_readable(version, document),
        reads(version, outcome, result),
    ensures
        ({
            &&& result matches Ok(response)
            &&& response.status_code == 200
            &&& response.payload matches Some(payload)
            &&& payload.len() == payload_list(version, document)->0.len()
        }),
{
}

/// A failure is reported as success only by a status that tells of success:
/// whatever the outcome, a result that is a response carries a status that the
/// version accepts, and a payload.
pub proof fn lemma_response_means_accepted_status(
    version: ApiVersion,
    outcome: HttpOutcome,
    result: Result<Response, ClientError>,
)
    requires
        reads(version, outcome, result),
        result is Ok,
    ensures
        outcome matches HttpOutcome::Answer { status_code, .. } && accepts(version, status_code)
            && result->Ok_0.status_code == status_code,
        result->Ok_0.payload is Some,
{
}

} // verus!
