//! A registry of GPT partition-type GUIDs, grouped by the system that
//! defines them.
//!
//! The registry maps the name of a partition type, within the group of its
//! owning system, to the GUID that a GPT partition entry carries in its type
//! field, and maps a GUID back to the names and owners that use it. It is
//! built whole from literal tables and is only read afterwards.

pub mod facts;
pub mod guid;
pub mod laws;
pub mod model;
pub mod registry;
pub mod system;
pub mod table;
pub mod text;

pub use guid::{validate_guid_text, MalformedGuid, GUID};
pub use registry::{Group, Registry};
pub use system::System;
