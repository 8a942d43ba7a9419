//! The server's configuration values. Reading them from the
//! environment happens outside the crate; the crate holds the shape.

use vstd::prelude::*;

verus! {

/// Where the server listens and where it writes received files.
#[derive(Debug)]
pub struct Config {
    pub ferris_base_path: String,
    pub ferris_port: u16,
    pub ferris_host: String,
}

} // verus!
