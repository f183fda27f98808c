//! Logic of a small poem page server: provisioning the access token, reading
//! the poem service's JSON answer, wording the attribution line, planning the
//! two rendered text fragments, filling the page template, the request
//! handler's decisions, and the server's TLS identity.

pub mod json;
pub mod poem;
pub mod token;
pub mod layout;
pub mod page;
pub mod handler;
pub mod tls;
