//! Authorization core of a blogging backend: bearer-token issue and
//! verification, the request context built from a verified token, the
//! permission check run before every mutating operation, and the small
//! pure pieces around them (error statuses, media types, object keys,
//! partial-update merges).

pub mod text;
pub mod role;
pub mod identity;
pub mod error;
pub mod jwt;
pub mod context;
pub mod image;
pub mod storage;
pub mod env;
pub mod config;
pub mod models;
pub mod update;
pub mod form;
pub mod records;
