//! Verified core of a project scaffolding generator: the templates that are
//! rendered for a new extension project, the plan of filesystem and process
//! steps that builds it, and the fail-fast driver that sequences those steps.

pub mod template;
pub mod layout;
pub mod pipeline;
pub mod model;
pub mod process;
pub mod some_value;
