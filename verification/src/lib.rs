//! Client core for Mailjet's transactional-email REST API.
//!
//! The crate models the two generations of the `/send` endpoint, API v3 and
//! API v3.1. It selects the wire schema from the configured API version,
//! prepares the HTTP request to post and classifies what the server answered.
//! It performs no network I/O itself: a caller posts the prepared request with
//! the client's transport and hands the outcome back.
//!
//! # Sending an email
//!
//! 1. Build a [`MailjetClient`], directly or with a [`MailjetClientBuilder`].
//! 2. Compose a [`data_objects::SimpleMessage`] (API v3) or a
//!    [`data_objects::SendEmailParams`] (API v3.1).
//! 3. Call [`MailjetClient::send_email`] for the [`PreparedRequest`].
//! 4. Post it, and give what came back to [`PreparedRequest::read_response`].
//!
//! # Modules
//!
//! - [`mailjet_api`]: the API versions and the paths of the endpoints.
//! - [`data_objects`]: the requests and responses, and their wire format.
//! - [`mailjet_client`], [`mailjet_client_builder`]: the client.
//! - [`json`], [`wire`]: JSON documents, and how values are written to and read
//!   from them.
//! - [`error`], [`secret`], [`text`]: errors, credentials and composed texts.

pub mod data_objects;
pub mod error;
pub mod json;
pub mod mailjet_api;
pub mod mailjet_client;
pub mod mailjet_client_builder;
pub mod secret;
pub mod text;
pub mod wire;

pub use data_objects::Response;
pub use error::ClientError;
pub use mailjet_api::{ApiUrl, ApiVersion};
pub use mailjet_client::{HttpOutcome, MailjetClient, PreparedRequest};
pub use mailjet_client_builder::MailjetClientBuilder;
pub use secret::Credential;
