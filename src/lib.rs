//! Object-graph mirror and command resolution for a toplevel/workspace
//! management client.
//!
//! Remote objects are identified by their protocol object ids (`u32`); the
//! transport that produces events and carries requests lives outside this
//! library and hands it plain values.
pub mod dispatch;
pub mod registry;
pub mod resolve;
pub mod state;
pub mod text;
pub mod wait;
