//! A storage backend adapter framework: builders turn key/value configuration
//! into immutable backend instances, backends turn storage operations into
//! plain HTTP request values and interpret the remote replies, and every
//! failure is normalized onto one small error taxonomy.
//!
//! The HTTP transport itself is an injected collaborator: this crate only
//! builds request values and interprets response values.

pub mod capability;
pub mod error;
pub mod gdrive;
pub mod http_model;
pub mod kv;
pub mod ops;
pub mod path;
pub mod vercel_artifacts;

