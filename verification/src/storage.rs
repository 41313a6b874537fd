//! Where stored files live: in a local directory, and in a remote bucket
//! where one is set up.

use vstd::prelude::*;
use vstd::string::StringExecFns;
use crate::config::Config;
use crate::error::{AppError, AppErrorView};

verus! {

/// The places where files are stored.
#[derive(Clone, Debug, PartialEq, Eq)]
pub struct StorageService {
    pub storage_path: String,
    pub s3_endpoint: Option<String>,
    pub s3_bucket: Option<String>,
}

/// The address of the object `file_id` in `bucket` at `endpoint`.
pub open spec fn object_url_of(endpoint: Seq<char>, bucket: Seq<char>, file_id: Seq<char>) -> Seq<char> {
    endpoint + "/"@ + bucket + "/"@ + file_id
}

/// What is reported for a file that is in no place.
pub open spec fn missing_file_note(file_id: Seq<char>) -> Seq<char> {
    "File not found: "@ + file_id
}

impl StorageService {
    /// The places that `config` names.
    pub fn new(config: &Config) -> (r: Self)
        ensures
            r.storage_path@ == config.storage_path@,
            r.s3_endpoint is Some <==> config.s3_endpoint is Some,
            r.s3_bucket is Some <==> config.s3_bucket is Some,
            r.s3_endpoint matches Some(e) ==> e@ == config.s3_endpoint->0@,
            r.s3_bucket matches Some(b) ==> b@ == config.s3_bucket->0@,
    {
        StorageService {
            storage_path: config.storage_path.clone(),
            s3_endpoint: match &config.s3_endpoint {
                Some(endpoint) => Some(endpoint.clone()),
                None => None,
            },
            s3_bucket: match &config.s3_bucket {
                Some(bucket) => Some(bucket.clone()),
                None => None,
            },
        }
    }

    /// Whether a stored file is copied to the remote bucket: where both
    /// the endpoint and the bucket are set.
    pub fn replicates(&self) -> (b: bool)
        ensures
            b == (self.s3_endpoint is Some && self.s3_bucket is Some),
    {
        self.s3_endpoint.is_some() && self.s3_bucket.is_some()
    }

    /// The address of the object `file_id` in the remote bucket, where
    /// both the endpoint and the bucket are set.
    pub fn object_url(&self, file_id: &str) -> (r: Option<String>)
        ensures
            match r {
                Some(url) => self.s3_endpoint matches Some(endpoint) && self.s3_bucket matches Some(bucket)
                    && url@ == object_url_of(endpoint@, bucket@, file_id@),
                None => self.s3_endpoint is None || self.s3_bucket is None,
            },
    {
        match (&self.s3_endpoint, &self.s3_bucket) {
            (Some(endpoint), Some(bucket)) => {
                let mut url = endpoint.clone();
                url.append("/");
                url.append(bucket.as_str());
                url.append("/");
                url.append(file_id);
                Some(url)
            },
            _ => None,
        }
    }

    /// What to do for a file that the local directory does not hold: the
    /// address to fetch it from where an endpoint and a bucket are set,
    /// and the error for a missing file otherwise.
    pub fn fallback_for(&self, file_id: &str) -> (r: Result<String, AppError>)
        ensures
            match r {
                Ok(url) => self.s3_endpoint matches Some(endpoint) && self.s3_bucket matches Some(bucket)
                    && url@ == object_url_of(endpoint@, bucket@, file_id@),
                Err(e) => (self.s3_endpoint is None || self.s3_bucket is None) && e@
                    == AppErrorView::NotFound(missing_file_note(file_id@)),
            },
    {
        match self.object_url(file_id) {
            Some(url) => Ok(url),
            None => {
                let mut note = String::from_str("File not found: ");
                note.append(file_id);
                Err(AppError::NotFound(note))
            },
        }
    }
}

} // verus!
