//! The configuration fixed at startup and shared read-only by every
//! handler for the process lifetime.

use vstd::prelude::*;

verus! {

/// The tool's configuration: the watched markdown file, where to bind, the
/// client's poll interval, and whether sibling files are served.
pub struct Config {
    /// The markdown file to serve, as given on the command line.
    pub md_file: String,
    /// The address to bind, in its textual form.
    pub host: String,
    /// The port to bind.
    pub port: u16,
    /// The long-poll timeout interval handed to the client script.
    pub interval: u32,
    /// Whether files beside the markdown file are served.
    pub serve_static: bool,
}

impl Config {
    pub fn new(md_file: String, host: String, port: u16, interval: u32, serve_static: bool) -> (r:
        Config)
        ensures
            r.md_file == md_file,
            r.host == host,
            r.port == port,
            r.interval == interval,
            r.serve_static == serve_static,
    {
        Config { md_file, host, port, interval, serve_static }
    }
}

} // verus!
