//! Object-storage command-line support: the bucket handler's configuration,
//! the operations a user can ask for, the environment check that runs before
//! any of them, and the status lines reported after each one.

pub mod handler;
pub mod messages;
pub mod operation;
pub mod settings;
