//! Fetching an application's API key from Artifactory.
use vstd::prelude::*;
use crate::common::text::{trim, trimmed};

verus! {

/// Why no API key was fetched.
#[derive(Debug, Clone, PartialEq, Eq)]
pub enum ArtifactoryError {
    /// The HTTP client failed, with its message.
    Hyper(String),
    /// Artifactory answered with this status instead of 200.
    Status(u16),
}

/// Where the API keys lie: a base URI and a path below it.
pub struct ArtifactoryClient {
    pub base_uri: String,
    pub certificate_path: String,
}

/// The URI of the API key of `folder`.
pub open spec fn api_key_uri(base_uri: Seq<char>, certificate_path: Seq<char>, folder: Seq<char>) -> Seq<char> {
    base_uri + "/"@ + certificate_path + "/"@ + folder + "/api_key"@
}

impl ArtifactoryClient {
    /// A client for keys under `base_uri`/`certificate_path`.
    pub fn new(base_uri: String, certificate_path: String) -> (r: ArtifactoryClient)
        ensures
            r.base_uri == base_uri,
            r.certificate_path == certificate_path,
    {
        ArtifactoryClient { base_uri, certificate_path }
    }

    /// The URI of the API key of `folder`.
    pub fn api_key_uri(&self, folder: &str) -> (r: String)
        ensures
            r@ == api_key_uri(self.base_uri@, self.certificate_path@, folder@),
    {
        let mut uri = self.base_uri.clone();
        uri.append("/");
        uri.append(self.certificate_path.as_str());
        uri.append("/");
        uri.append(folder);
        uri.append("/api_key");
        uri
    }

    /// Accepts only a 200 answer.
    pub fn check_status(status: u16) -> (r: Result<(), ArtifactoryError>)
        ensures
            status == 200 ==> r is Ok,
            status != 200 ==> r == Err::<(), ArtifactoryError>(ArtifactoryError::Status(status)),
    {
        if status == 200 { Ok(()) } else { Err(ArtifactoryError::Status(status)) }
    }

    /// Fetches the API key of `folder`: `fetch` gets the body at its URI;
    /// the key is that body without surrounding white space.
    pub fn fetch_api_key<F>(&self, folder: &str, fetch: F) -> (r: Result<String, ArtifactoryError>)
        where
            F: FnOnce(String) -> Result<String, ArtifactoryError>,
        requires
            forall|uri: String| fetch.requires((uri,)),
        ensures
            exists|uri: String, body: Result<String, ArtifactoryError>| {
                &&& uri@ == api_key_uri(self.base_uri@, self.certificate_path@, folder@)
                &&& fetch.ensures((uri,), body)
                &&& match body {
                    Ok(b) => r matches Ok(k) && k@ == trimmed(b@),
                    Err(e) => r == Err::<String, ArtifactoryError>(e),
                }
            },
    {
        let uri = self.api_key_uri(folder);
        let ghost u = uri;
        match fetch(uri) {
            Ok(body) => Ok(trim(body.as_str())),
            Err(e) => Err(e),
        }
    }
}

} // verus!
