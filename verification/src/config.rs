//! The settings of the service.

use vstd::prelude::*;
use vstd::string::StringExecFns;
use crate::error::{AppError, AppErrorView};

verus! {

/// The settings of the service.
#[derive(Clone, Debug, PartialEq, Eq)]
pub struct Config {
    pub server_address: String,
    pub database_url: String,
    pub openai_api_key: String,
    pub gemini_api_key: String,
    pub storage_path: String,
    pub s3_endpoint: Option<String>,
    pub s3_bucket: Option<String>,
    pub s3_access_key: Option<String>,
    pub s3_secret_key: Option<String>,
}

/// The settings as they were found, each present or not.
#[derive(Clone, Debug, PartialEq, Eq)]
pub struct Settings {
    pub server_address: Option<String>,
    pub database_url: Option<String>,
    pub openai_api_key: Option<String>,
    pub gemini_api_key: Option<String>,
    pub storage_path: Option<String>,
    pub s3_endpoint: Option<String>,
    pub s3_bucket: Option<String>,
    pub s3_access_key: Option<String>,
    pub s3_secret_key: Option<String>,
}

/// The text of a setting, or `fallback` where it is not set.
pub open spec fn text_or(value: Option<String>, fallback: Seq<char>) -> Seq<char> {
    match value {
        Some(text) => text@,
        None => fallback,
    }
}

/// The text of a setting that may be absent.
pub open spec fn optional_text(value: Option<String>) -> Option<Seq<char>> {
    match value {
        Some(text) => Some(text@),
        None => None,
    }
}

/// The address the service listens on unless one is set.
pub open spec fn default_server_address() -> Seq<char> {
    "0.0.0.0:8080"@
}

/// The database the service uses unless one is set.
pub open spec fn default_database_url() -> Seq<char> {
    "memory"@
}

/// The directory the service stores files in unless one is set.
pub open spec fn default_storage_path() -> Seq<char> {
    "./storage"@
}

/// What is reported where the key of the primary provider is not set.
pub open spec fn missing_openai_key_note() -> Seq<char> {
    "OPENAI_API_KEY is not set"@
}

/// What is reported where the key of the secondary provider is not set.
pub open spec fn missing_gemini_key_note() -> Seq<char> {
    "GEMINI_API_KEY is not set"@
}

fn or_default(value: Option<String>, fallback: &str) -> (r: String)
    ensures
        r@ == text_or(value, fallback@),
{
    match value {
        Some(text) => text,
        None => String::from_str(fallback),
    }
}

impl Config {
    /// The settings of the service from what was found. The two provider
    /// keys must be set, the primary one being looked at first; the
    /// address, the database and the storage directory have defaults.
    pub fn from_settings(found: Settings) -> (r: Result<Config, AppError>)
        ensures
            match r {
                Ok(config) => {
                    &&& found.openai_api_key matches Some(key) && config.openai_api_key@ == key@
                    &&& found.gemini_api_key matches Some(key) && config.gemini_api_key@ == key@
                    &&& config.server_address@ == text_or(found.server_address, default_server_address())
                    &&& config.database_url@ == text_or(found.database_url, default_database_url())
                    &&& config.storage_path@ == text_or(found.storage_path, default_storage_path())
                    &&& optional_text(config.s3_endpoint) == optional_text(found.s3_endpoint)
                    &&& optional_text(config.s3_bucket) == optional_text(found.s3_bucket)
                    &&& optional_text(config.s3_access_key) == optional_text(found.s3_access_key)
                    &&& optional_text(config.s3_secret_key) == optional_text(found.s3_secret_key)
                },
                Err(e) => if found.openai_api_key is None {
                    e@ == AppErrorView::Internal(missing_openai_key_note())
                } else {
                    found.gemini_api_key is None && e@ == AppErrorView::Internal(missing_gemini_key_note())
                },
            },
    {
        let openai_api_key = match found.openai_api_key {
            Some(key) => key,
            None => {
                return Err(AppError::Internal(String::from_str("OPENAI_API_KEY is not set")));
            },
        };
        let gemini_api_key = match found.gemini_api_key {
            Some(key) => key,
            None => {
                return Err(AppError::Internal(String::from_str("GEMINI_API_KEY is not set")));
            },
        };
        Ok(
            Config {
                server_address: or_default(found.server_address, "0.0.0.0:8080"),
                database_url: or_default(found.database_url, "memory"),
                openai_api_key,
                gemini_api_key,
                storage_path: or_default(found.storage_path, "./storage"),
                s3_endpoint: found.s3_endpoint,
                s3_bucket: found.s3_bucket,
                s3_access_key: found.s3_access_key,
                s3_secret_key: found.s3_secret_key,
            },
        )
    }
}

} // verus!
