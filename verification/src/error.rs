//! Error types of the library.

use vstd::prelude::*;

verus! {

/// Error type for the client.
#[derive(Debug, PartialEq, Eq, Structural, Clone, Copy)]
pub enum JfError {
    /// The media type reported by the server is of an unrecognized kind.
    UnrecognizedMediaType,
    /// The content is blacklisted and must not be shown.
    ContentBlacklist,
    /// The builder lacks a URL, a username or an API key.
    MissingRequiredValues,
    /// The server holds no primary image for the item.
    NoImage,
    /// The configured server URL does not parse.
    InvalidUrl,
}

impl JfError {
    /// The message the error prints.
    pub fn message(&self) -> (r: String)
        ensures
            r@ == jf_error_message(*self),
    {
        match *self {
            JfError::UnrecognizedMediaType => String::from_str("unrecognized media type"),
            JfError::ContentBlacklist => String::from_str("content is blacklisted"),
            JfError::MissingRequiredValues => String::from_str(
                "missing required values to build client",
            ),
            JfError::NoImage => String::from_str("no primary image"),
            JfError::InvalidUrl => String::from_str("invalid url"),
        }
    }
}

/// The message each error prints.
pub open spec fn jf_error_message(e: JfError) -> Seq<char> {
    match e {
        JfError::UnrecognizedMediaType => "unrecognized media type"@,
        JfError::ContentBlacklist => "content is blacklisted"@,
        JfError::MissingRequiredValues => "missing required values to build client"@,
        JfError::NoImage => "no primary image"@,
        JfError::InvalidUrl => "invalid url"@,
    }
}

/// Error type for the config module.
#[derive(Debug, Clone)]
pub enum ConfigError {
    /// Returns when it can't find the config file.
    MissingConfig(String),
    /// Returns when it can't read the config file.
    Io(String),
    /// Returns when it's unable to parse the config file.
    Json(String),
    /// Returns when environment variables fail to be read.
    VarError(String),
}

/// Error type for the image-upload module.
#[derive(Debug, Clone)]
pub enum ImgurError {
    /// Returns when the response from the image host is invalid.
    InvalidResponse,
    /// Returns on transport errors while uploading.
    Reqwest(String),
    /// Returns when the URL cache file can't be read.
    Io(String),
    /// Returns when the URL cache file can't be parsed.
    Json(String),
    /// Returns when environment variables fail to be read.
    VarError(String),
    /// Returns when a required value is absent.
    MissingValue,
}

} // verus!
