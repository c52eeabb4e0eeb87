//! Rollout persistence policy: which rollout items are written to history and
//! how inline media payloads are removed from them before they are stored.

pub mod json;
pub mod web_search;
pub mod protocol;
pub mod rollout;
pub mod policy;
pub mod laws;
pub mod notification_media;
pub mod command_cwd;
