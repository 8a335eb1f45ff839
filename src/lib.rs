//! Keeps a chat guild's channel groups in step with a source-control
//! organization's repositories: the decisions of each reconciliation pass,
//! the provisioning sequence for one repository, and the supervision of the
//! polling loop, each stated and proved.
pub mod names;
pub mod inventory;
pub mod events;
pub mod provision;
pub mod supervisor;
pub mod github;
