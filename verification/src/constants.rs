//! Fixed header names and values sent with every request.

use vstd::prelude::*;

verus! {

/// Name of the application-identity header.
pub const APP_TOKEN_HEADER: &'static str = "app-token";

/// Value of the application-identity header.
pub const APP_TOKEN_VALUE: &'static str = "33d57ade8c02dbc5a333db99ff9ae26a";

/// Name of the header that carries the browser-check token.
pub const XBC_HEADER: &'static str = "x-bc";

/// Name of the header that carries the account id.
pub const USER_ID_HEADER: &'static str = "user-id";

} // verus!
