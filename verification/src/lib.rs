//! Verified request logic of the Open Chronology gateway: the filter proxy
//! that forwards client requests to PostgREST, and the runner that prunes
//! idle sessions.

pub mod headers;
pub mod port;
pub mod prune;
pub mod text;
pub mod upstream;
