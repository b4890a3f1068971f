//! API versions and the paths of the endpoints.

use crate::error::ClientError;
use vstd::prelude::*;
use vstd::string::StrSliceExecFns;
use vstd::string::StringExecFns;

verus! {

/// The generations of Mailjet's REST API that the client can speak.
#[derive(Clone, Copy, Debug, PartialEq, Eq, Structural)]
pub enum ApiVersion {
    /// The legacy generation, with one flat message per request.
    V3,
    /// The current generation, with a batch of structured messages per request.
    V3_1,
}

/// The version that a configuration string names, if it names one.
///
/// The names are `v3` and `v3.1`; the letter may be written in either case.
/// Every other string names no version.
pub open spec fn version_named(name: Seq<char>) -> Option<ApiVersion> {
    if name == "v3"@ || name == "V3"@ {
        Some(ApiVersion::V3)
    } else if name == "v3.1"@ || name == "V3.1"@ {
        Some(ApiVersion::V3_1)
    } else {
        None
    }
}

impl ApiVersion {
    /// The path segment that stands for the version in a URL.
    pub open spec fn segment(self) -> Seq<char> {
        match self {
            ApiVersion::V3 => "v3"@,
            ApiVersion::V3_1 => "v3.1"@,
        }
    }

    /// Returns the path segment that stands for the version in a URL.
    pub fn to_string(&self) -> (text: String)
        ensures
            text@ == self.segment(),
    {
        match self {
            ApiVersion::V3 => String::from_str("v3"),
            ApiVersion::V3_1 => String::from_str("v3.1"),
        }
    }

    /// Reads a version from its name.
    pub fn parse(name: &str) -> (version: Result<ApiVersion, ClientError>)
        ensures
            version == match version_named(name@) {
                Some(v) => Ok::<ApiVersion, ClientError>(v),
                None => Err::<ApiVersion, ClientError>(ClientError::WrongApiVersion),
            },
    {
        proof {
            reveal_strlit("v3");
            reveal_strlit("V3");
            reveal_strlit("v3.1");
            reveal_strlit("V3.1");
        }
        let len = name.unicode_len();
        if len == 2 {
            let letter = name.get_char(0);
            if (letter == 'v' || letter == 'V') && name.get_char(1) == '3' {
                assert(name@ =~= "v3"@ || name@ =~= "V3"@);
                return Ok(ApiVersion::V3);
            }
        } else if len == 4 {
            let letter = name.get_char(0);
            if (letter == 'v' || letter == 'V') && name.get_char(1) == '3' && name.get_char(2)
                == '.' && name.get_char(3) == '1' {
                assert(name@ =~= "v3.1"@ || name@ =~= "V3.1"@);
                return Ok(ApiVersion::V3_1);
            }
        }
        Err(ClientError::WrongApiVersion)
    }
}

impl TryFrom<&str> for ApiVersion {
    type Error = ClientError;

    /// Reads a version from its name; any string that names none is refused.
    fn try_from(value: &str) -> (version: Result<ApiVersion, ClientError>) {
        ApiVersion::parse(value)
    }
}

impl vstd::std_specs::convert::TryFromSpecImpl<&str> for ApiVersion {
    open spec fn obeys_try_from_spec() -> bool {
        true
    }

    open spec fn try_from_spec(value: &str) -> Result<ApiVersion, ClientError> {
        match version_named(value@) {
            Some(v) => Ok(v),
            None => Err(ClientError::WrongApiVersion),
        }
    }
}

impl Default for ApiVersion {
    /// The legacy version is the default.
    fn default() -> (version: ApiVersion)
        ensures
            version == ApiVersion::V3,
    {
        ApiVersion::V3
    }
}

/// Builds the path of each endpoint below the base URL of the API.
pub struct ApiUrl;

impl ApiUrl {
    /// The path of the `send` endpoint for a version.
    pub open spec fn send_path(api_version: ApiVersion) -> Seq<char> {
        match api_version {
            ApiVersion::V3 => "v3/send"@,
            ApiVersion::V3_1 => "v3.1/send"@,
        }
    }

    /// The path of the `contact` endpoint, which only the legacy version serves.
    pub open spec fn contact_path(api_version: ApiVersion) -> Seq<char> {
        "v3/REST/contact"@
    }

    /// Returns the path of the `send` endpoint for `api_version`.
    pub fn send(api_version: &ApiVersion) -> (path: String)
        ensures
            path@ == Self::send_path(*api_version),
    {
        let mut path = match api_version {
            ApiVersion::V3_1 => api_version.to_string(),
            _ => ApiVersion::default().to_string(),
        };
        path.append("/");
        path.append("send");
        proof {
            reveal_strlit("v3");
            reveal_strlit("v3.1");
            reveal_strlit("/");
            reveal_strlit("send");
            reveal_strlit("v3/send");
            reveal_strlit("v3.1/send");
            assert(path@ =~= Self::send_path(*api_version));
        }
        path
    }

    /// Returns the path of the `contact` endpoint, whatever the version.
    pub fn contact(api_version: &ApiVersion) -> (path: String)
        ensures
            path@ == Self::contact_path(*api_version),
    {
        let mut path = ApiVersion::default().to_string();
        path.append("/REST/");
        path.append("contact");
        proof {
            reveal_strlit("v3");
            reveal_strlit("/REST/");
            reveal_strlit("contact");
            reveal_strlit("v3/REST/contact");
            assert(path@ =~= Self::contact_path(*api_version));
        }
        path
    }
}

} // verus!
