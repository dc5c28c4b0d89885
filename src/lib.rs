//! Serving content addressed through on-chain user data: a request path is
//! resolved, tier by tier, into content identifiers, and the first one that the
//! cache holds is served.
pub mod external;
pub mod laws;
pub mod path;
pub mod server;
pub mod user_data;
pub mod step;
