//! A builder for the client.

use crate::error::ClientError;
use crate::mailjet_api::ApiVersion;
use crate::mailjet_client::{MailjetClient, DEFAULT_API_URL, DEFAULT_USER_AGENT};
use crate::secret::Credential;
use crate::text::{opt_str, opt_text};
use vstd::prelude::*;
use vstd::string::StringExecFns;

verus! {

/// Collects the settings of a [`MailjetClient`] one by one.
///
/// A builder always holds credentials. The default builder holds the word
/// `None` in their place, so that a client can be built before the real ones
/// are known; the API refuses such a client's requests.
pub struct MailjetClientBuilder {
    email_address: Option<String>,
    email_name: Option<String>,
    user_agent: Option<String>,
    api_user: Credential,
    api_key: Credential,
    api_url: Option<String>,
    api_version: Option<String>,
}

/// The settings of a builder as plain values.
pub struct BuilderView {
    pub email_address: Option<Seq<char>>,
    pub email_name: Option<Seq<char>>,
    pub user_agent: Option<Seq<char>>,
    pub api_user: Seq<char>,
    pub api_key: Seq<char>,
    pub api_url: Option<Seq<char>>,
    pub api_version: Option<Seq<char>>,
}

/// The word that stands in for a credential that was not given.
pub open spec fn placeholder_credential() -> Seq<char> {
    "None"@
}

impl BuilderView {
    /// The settings of the default builder: placeholder credentials, the
    /// public base URL and the legacy version.
    pub open spec fn initial() -> BuilderView {
        BuilderView {
            email_address: None,
            email_name: None,
            user_agent: None,
            api_user: placeholder_credential(),
            api_key: placeholder_credential(),
            api_url: Some(DEFAULT_API_URL@),
            api_version: Some(ApiVersion::V3.segment()),
        }
    }

    /// The settings of a builder that holds nothing but credentials.
    pub open spec fn with_credentials(api_user: Seq<char>, api_key: Seq<char>) -> BuilderView {
        BuilderView {
            email_address: None,
            email_name: None,
            user_agent: None,
            api_user,
            api_key,
            api_url: None,
            api_version: None,
        }
    }
}

impl View for MailjetClientBuilder {
    type V = BuilderView;

    closed spec fn view(&self) -> BuilderView {
        BuilderView {
            email_address: opt_text(self.email_address),
            email_name: opt_text(self.email_name),
            user_agent: opt_text(self.user_agent),
            api_user: self.api_user@,
            api_key: self.api_key@,
            api_url: opt_text(self.api_url),
            api_version: opt_text(self.api_version),
        }
    }
}

/// A borrowed view of an optional string.
fn borrowed(text: &Option<String>) -> (slice: Option<&str>)
    ensures
        opt_str(slice) == opt_text(*text),
{
    match text {
        Some(t) => Some(t.as_str()),
        None => None,
    }
}

impl Default for MailjetClientBuilder {
    /// A builder with placeholder credentials, the public base URL and the
    /// legacy version.
    fn default() -> (builder: MailjetClientBuilder)
        ensures
            builder@ == BuilderView::initial(),
    {
        MailjetClientBuilder {
            email_address: None,
            email_name: None,
            user_agent: None,
            api_user: Credential::new(String::from_str("None")),
            api_key: Credential::new(String::from_str("None")),
            api_url: Some(String::from_str(DEFAULT_API_URL)),
            api_version: Some(ApiVersion::V3.to_string()),
        }
    }
}

impl MailjetClientBuilder {
    /// Sets the address that emails are sent from.
    pub fn with_email_address(self, email: &str) -> (builder: MailjetClientBuilder)
        ensures
            builder@ == (BuilderView { email_address: Some(email@), ..self@ }),
    {
        let mut builder = self;
        builder.email_address = Some(String::from_str(email));
        builder
    }

    /// Sets the name that goes with the sender's address.
    pub fn with_email_name(self, name: &str) -> (builder: MailjetClientBuilder)
        ensures
            builder@ == (BuilderView { email_name: Some(name@), ..self@ }),
    {
        let mut builder = self;
        builder.email_name = Some(String::from_str(name));
        builder
    }

    /// Sets the name under which the client introduces itself.
    pub fn with_user_agent(self, name: &str) -> (builder: MailjetClientBuilder)
        ensures
            builder@ == (BuilderView { user_agent: Some(name@), ..self@ }),
    {
        let mut builder = self;
        builder.user_agent = Some(String::from_str(name));
        builder
    }

    /// Sets the user token of the account.
    pub fn with_api_user(self, api_user: Credential) -> (builder: MailjetClientBuilder)
        ensures
            builder@ == (BuilderView { api_user: api_user@, ..self@ }),
    {
        let mut builder = self;
        builder.api_user = api_user;
        builder
    }

    /// Sets the private token of the account.
    pub fn with_api_key(self, api_key: Credential) -> (builder: MailjetClientBuilder)
        ensures
            builder@ == (BuilderView { api_key: api_key@, ..self@ }),
    {
        let mut builder = self;
        builder.api_key = api_key;
        builder
    }

    /// Sets the base URL of the API.
    pub fn with_api_url(self, url: &str) -> (builder: MailjetClientBuilder)
        ensures
            builder@ == (BuilderView { api_url: Some(url@), ..self@ }),
    {
        let mut builder = self;
        builder.api_url = Some(String::from_str(url));
        builder
    }

    /// Sets the name of the version of the API to speak. The name is checked
    /// when the client is built.
    pub fn with_api_version(self, version: &str) -> (builder: MailjetClientBuilder)
        ensures
            builder@ == (BuilderView { api_version: Some(version@), ..self@ }),
    {
        let mut builder = self;
        builder.api_version = Some(String::from_str(version));
        builder
    }

    /// The address that emails are sent from, if it was given.
    pub fn email_address(&self) -> (address: Option<&str>)
        ensures
            opt_str(address) == self@.email_address,
    {
        borrowed(&self.email_address)
    }

    /// The name that goes with the sender's address, if it was given.
    pub fn email_name(&self) -> (name: Option<&str>)
        ensures
            opt_str(name) == self@.email_name,
    {
        borrowed(&self.email_name)
    }

    /// The name under which the client introduces itself, if it was given.
    pub fn user_agent(&self) -> (name: Option<&str>)
        ensures
            opt_str(name) == self@.user_agent,
    {
        borrowed(&self.user_agent)
    }

    /// The user token of the account.
    pub fn api_user(&self) -> (secret: &Credential)
        ensures
            secret@ == self@.api_user,
    {
        &self.api_user
    }

    /// The private token of the account.
    pub fn api_key(&self) -> (secret: &Credential)
        ensures
            secret@ == self@.api_key,
    {
        &self.api_key
    }

    /// The base URL of the API, if it was given.
    pub fn api_url(&self) -> (url: Option<&str>)
        ensures
            opt_str(url) == self@.api_url,
    {
        borrowed(&self.api_url)
    }

    /// The name of the version of the API to speak, if it was given.
    pub fn api_version(&self) -> (name: Option<&str>)
        ensures
            opt_str(name) == self@.api_version,
    {
        borrowed(&self.api_version)
    }

    /// A builder that holds the given credentials and nothing else.
    pub fn new(api_user: Credential, api_key: Credential) -> (builder: MailjetClientBuilder)
        ensures
            builder@ == BuilderView::with_credentials(api_user@, api_key@),
    {
        MailjetClientBuilder {
            api_user,
            api_key,
            email_address: None,
            email_name: None,
            user_agent: None,
            api_url: None,
            api_version: None,
        }
    }

    /// Builds the client from what was collected. It fails as
    /// [`MailjetClient::new`] does: on an unknown version name, or if the
    /// transport cannot be built.
    pub fn build(self) -> (outcome: Result<MailjetClient, ClientError>)
        ensures
            MailjetClient::builds(
                self@.api_user,
                self@.api_key,
                self@.email_address,
                self@.email_name,
                self@.user_agent,
                self@.api_url,
                self@.api_version,
                None,
                outcome,
            ),
    {
        MailjetClient::new(
            self.api_user,
            self.api_key,
            borrowed(&self.email_address),
            borrowed(&self.email_name),
            borrowed(&self.user_agent),
            borrowed(&self.api_url),
            borrowed(&self.api_version),
            None,
        )
    }
}

/// A client built from the default builder, or from a builder that was given
/// nothing but credentials, speaks the legacy version at the public base URL,
/// introduces itself by the default name and refuses plain HTTP; neither
/// builder is refused for its version.
pub proof fn lemma_default_client_is_legacy(
    builder: BuilderView,
    outcome: Result<MailjetClient, ClientError>,
)
    requires
        builder == BuilderView::initial() || builder == BuilderView::with_credentials(
            builder.api_user,
            builder.api_key,
        ),
        MailjetClient::builds(
            builder.api_user,
            builder.api_key,
            builder.email_address,
            builder.email_name,
            builder.user_agent,
            builder.api_url,
            builder.api_version,
            None,
            outcome,
        ),
    ensures
        !(outcome matches Err(ClientError::WrongApiVersion)),
        outcome matches Ok(client) ==> client@.api_version == ApiVersion::V3 && client@.api_url
            == DEFAULT_API_URL@ && !client@.sandbox_mode,
        outcome matches Ok(client) ==> client.transport_built_with(DEFAULT_USER_AGENT@, true),
{
}

} // verus!
