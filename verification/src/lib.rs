//! Verified request validation, access-control decisions and workflow steps
//! of the Drive service.
use vstd::prelude::*;

pub mod text;
pub mod errors;
pub mod numbers;
pub mod validators;
pub mod app_context;
pub mod query;
pub mod acl;
pub mod pagination;
pub mod outbox;
pub mod hashing;
pub mod delivery;
pub mod transaction;
pub mod changes;
pub mod uploads;
pub mod completion;
pub mod nodes;
pub mod uploader;
pub mod versions;
pub mod trash;
pub mod archive;
pub mod spaces;
pub mod hierarchy;
pub mod permissions;
pub mod collab;

verus! {

} // verus!
