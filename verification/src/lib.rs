//! Verified core of the `homework` practice site: the exercise catalogue,
//! the language banner, the per-page Content-Security-Policy, the sitemap
//! and the structured-data documents. The HTTP server, the HTML templates
//! and the serialisation live in the application crate around it.

pub mod headers;
pub mod text;
pub mod exercises;
pub mod assets;
pub mod csp;
pub mod digest;
pub mod markup;
pub mod clock;
pub mod forms;
pub mod about;
pub mod language_banner;
pub mod layout;
pub mod page;
pub mod json_ld;
pub mod routes;
pub mod redirect;
