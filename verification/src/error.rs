//! What can go wrong while a client is built.

use reqwest::header::{InvalidHeaderName, InvalidHeaderValue};
use vstd::prelude::*;
use vstd::std_specs::convert::FromSpecImpl;

verus! {

/// Why a build failed.
#[derive(Debug)]
pub enum OnlyFansBuilderError {
    /// No user agent was set.
    MissingUserAgent,
    /// No browser-check token was set.
    MissingXBC,
    /// No account id was set.
    MissingAuthID,
    /// No session token was set.
    MissingSession,
    /// No proxy address was set.
    MissingProxy,
    /// A header name is malformed.
    HeaderName(InvalidHeaderName),
    /// A fragment holds a character that no header value can hold.
    HeaderValue(InvalidHeaderValue),
    /// The transport refused the proxy address or could not be set up.
    Http(reqwest::Error),
}

impl From<InvalidHeaderName> for OnlyFansBuilderError {
    fn from(source: InvalidHeaderName) -> (error: Self) {
        OnlyFansBuilderError::HeaderName(source)
    }
}

impl FromSpecImpl<InvalidHeaderName> for OnlyFansBuilderError {
    open spec fn obeys_from_spec() -> bool {
        true
    }

    open spec fn from_spec(source: InvalidHeaderName) -> Self {
        OnlyFansBuilderError::HeaderName(source)
    }
}

impl From<InvalidHeaderValue> for OnlyFansBuilderError {
    fn from(source: InvalidHeaderValue) -> (error: Self) {
        OnlyFansBuilderError::HeaderValue(source)
    }
}

impl FromSpecImpl<InvalidHeaderValue> for OnlyFansBuilderError {
    open spec fn obeys_from_spec() -> bool {
        true
    }

    open spec fn from_spec(source: InvalidHeaderValue) -> Self {
        OnlyFansBuilderError::HeaderValue(source)
    }
}

impl From<reqwest::Error> for OnlyFansBuilderError {
    fn from(source: reqwest::Error) -> (error: Self) {
        OnlyFansBuilderError::Http(source)
    }
}

impl FromSpecImpl<reqwest::Error> for OnlyFansBuilderError {
    open spec fn obeys_from_spec() -> bool {
        true
    }

    open spec fn from_spec(source: reqwest::Error) -> Self {
        OnlyFansBuilderError::Http(source)
    }
}

} // verus!
