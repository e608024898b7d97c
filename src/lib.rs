//! Resolution of sandboxed process requests from flat arguments, action
//! digests or result URLs, and the plan of the runner chain that executes them.

pub mod digest;
pub mod error;
pub mod keyvalue;
pub mod laws;
pub mod path;
pub mod pipeline;
pub mod proto;
pub mod request;
pub mod resolve;
pub mod url;
pub mod wire;
