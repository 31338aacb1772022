//! Path and protocol constants of the Pubky.app data model.
use vstd::prelude::*;

verus! {

/// Application version of this data-model crate.
pub const VERSION: &'static str = "0.6.2";

/// Prefix of public (world-readable) homeserver storage.
pub const PUBLIC_PATH: &'static str = "/pub/";

/// Prefix of authenticated private storage: the homeserver refuses reads,
/// listings and writes from anyone but the owner's session. Records under
/// this prefix are invisible to watchers and indexers.
pub const PRIVATE_PATH: &'static str = "/priv/";

/// The application namespace.
pub const APP_PATH: &'static str = "pubky.app/";

/// The URI scheme of pubky URIs.
pub const PROTOCOL: &'static str = "pubky://";

/// Namespace of the marketplace records, below the application namespace.
pub const MARKETPLACE_PATH: &'static str = "marketplace/v1/";

} // verus!
