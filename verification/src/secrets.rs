//! The names under which secrets are kept in the system keyring.

use vstd::prelude::*;

verus! {

pub const JELLYFIN_TOKEN: &'static str = "jellyfin-token";

pub const JELLYFIN_PASSWORD: &'static str = "jellyfin-password";

pub const RADARR_API_KEY: &'static str = "radarr-api-key";

pub const SONARR_API_KEY: &'static str = "sonarr-api-key";

} // verus!
