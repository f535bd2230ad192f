//! Action router for a sandboxed extension: maps an action name and a JSON
//! payload to a response envelope that lists the effects the host should apply.

pub mod json;
pub mod effect;
pub mod router;
