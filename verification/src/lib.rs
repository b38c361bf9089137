//! Verified core of a small micro-blogging web service: request decisions,
//! login tokens, password checks and the server's port setting.

pub mod api;
