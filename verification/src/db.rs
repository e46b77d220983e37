//! Records of the persistent store and the pure parts of the services that
//! read and write them.

pub mod model;
pub mod scheduler_model;
pub mod scheduler_service;
pub mod service;
