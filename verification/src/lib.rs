//! Verified core of the PIOKI social service: request decisions, record
//! construction, validation and the keep / pass-along rules for posts.
pub mod text;
pub mod keeping;
pub mod passing;
pub mod validation;
pub mod dtos;
pub mod external;
pub mod models;
pub mod response;
pub mod access;
pub mod db;
pub mod users;
pub mod friends;
pub mod posts;
