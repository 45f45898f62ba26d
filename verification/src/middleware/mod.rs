//! What stands between a request and the handlers.

pub mod api_user_auth;
