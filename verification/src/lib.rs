//! The verified core of a local markdown previewer: a registry that
//! coordinates long-poll waiters with the broadcast that a file change
//! triggers, the classification of filesystem events, the request router,
//! the page template, and the containment check behind static serving.

pub mod config;
pub mod page;
pub mod registry;
pub mod respond;
pub mod route;
pub mod static_path;
pub mod text;
pub mod watch;
