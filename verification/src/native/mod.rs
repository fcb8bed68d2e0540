//! Logic of the native (Node-API) module.

pub mod ai;
pub mod db;
pub mod screenshot;
