//! Verified core of the WinDbg MCP extension.

pub mod callback_registration;
pub mod clock;
pub mod dbgeng;
pub mod dispatcher;
pub mod execution_gate;
pub mod extension;
pub mod notify;
pub mod output;
pub mod plugin_server;
pub mod registry;
pub mod registry_payload;
pub mod registry_write;
pub mod server_bind;
pub mod server_start;
pub mod server_stop;
pub mod session;
pub mod snapshot_worker;
pub mod target_capture;
pub mod target_events;
pub mod target_snapshot;
pub mod text;
pub mod transport;
pub mod transport_laws;
