//! A verified core for a command-line gist client.
//!
//! The crate models the gist synchronization workflow: reading and writing
//! the stored access token, building the JSON bodies and HTTP requests that
//! the service expects, labelling gists for interactive selection, and
//! deciding what each operation does with the status code and payload that
//! comes back.  The surrounding process (argument parsing, terminal
//! prompting, the network transport itself) lives outside the library and
//! only carries plain values in and out.

pub mod gist;
pub mod http;
pub mod json;
pub mod selector;
pub mod token;
pub mod workflow;
