//! Search a repository-hosting service and lay the results out as
//! fixed-width terminal text.

pub mod text;
pub mod model;
pub mod layout;
pub mod query;
pub mod report;
