//! A command-line client for an object-storage service, with its decisions
//! verified: each command is a session that asks the service for one thing at a
//! time and decides from the reply what to ask next, what to print, and how to
//! end.

pub mod commands;
pub mod laws;
pub mod lines;
pub mod listing;
pub mod path;
pub mod session;

pub use commands::{
    create_bucket, delete_bucket, delete_object, list_buckets, list_objects, upload_object,
    upload_object_as,
};
pub use listing::bucket_exists;
pub use session::{Next, Reply, Request, Session, Step};
