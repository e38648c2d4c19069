//! Mirrors a transceiver's operating state into a Wavelog logging instance:
//! the rules that turn a rig reading into an update record, the record sent
//! to the service, and the decisions of the synchronisation loop.

pub mod config;
pub mod mode;
pub mod propagation;
pub mod update;
pub mod timestamp;
pub mod wavelog;
pub mod sync;
pub mod text;
