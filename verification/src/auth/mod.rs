//! Authentication and authorization.

pub mod auth_user;
pub mod claims;
pub mod clock;
pub mod cookie;
pub mod db;
pub mod endpoints;
pub mod link;
pub mod login_request;
pub mod password;
pub mod roles;
pub mod token;
pub mod user;

pub use auth_user::AuthUser;
pub use db::authorize_role;
pub use endpoints::{admin, create_admin, links, login, logout, me, signup};
pub use login_request::LoginRequest;
pub use roles::Roles;
