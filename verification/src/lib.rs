//! The logic of a small content service, with its contracts.
//!
//! `auth` is identity and access control: role ranking and the
//! authorization decision, password hashing, signed identity tokens, the
//! session-cookie policy, the request guards and the operations built on
//! them. `blog` takes uploaded posts apart and renders them. `config` is the
//! shape of the configuration, and `status` the outcomes reported to the
//! routing layer.
//!
//! Nothing here touches a socket, a file or a database: the operations take
//! what the request and the stores supplied, and answer with what to do.

pub mod auth;
pub mod blog;
pub mod config;
pub mod status;
