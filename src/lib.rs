//! Authentication backend: registration and sign-in with passwords or
//! OpenID Connect, single-purpose tokens with expiry, out-of-band mails,
//! and per-route access control, with the browser client's side of the
//! same flows.
pub mod text;
pub mod codec;
pub mod result;
pub mod route;
pub mod frontend_route;
pub mod api;
pub mod user;
pub mod password;
pub mod token;
pub mod openid;
pub mod access;
pub mod mailer;
pub mod service;
pub mod dispatch;
pub mod client;
