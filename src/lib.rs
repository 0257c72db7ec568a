//! Control plane of a video output appliance: the fleet registry that routes
//! commands to output nodes, the node and pipeline-watcher lifecycles, and the
//! per-connection session state machine, each as verified step functions that
//! an actor runtime drives.

pub mod ident;
pub mod command;
pub mod registry;
pub mod node;
pub mod watcher;
pub mod decklink;
pub mod controller;
