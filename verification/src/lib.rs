//! Verified core of a local-network clipboard synchroniser: the data model,
//! the device and transfer registries, the message protocol decisions, the
//! clipboard monitor's state machine and the small formatting routines.

pub mod text;
pub mod codec;
pub mod state;
pub mod devices;
pub mod dedup;
pub mod transfers;
pub mod monitor;
pub mod protocol;
pub mod batch;
pub mod settings;
pub mod network;
pub mod sync;
pub mod commands;
pub mod logtime;
pub mod pasteboard;
