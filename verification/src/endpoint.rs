//! The upstream endpoint that the client talks to by default.

use vstd::prelude::*;

verus! {

/// Base URL of the public BrasilAPI service.
pub const BRASIL_API_URL: &'static str = "https://brasilapi.com.br";

} // verus!
