//! Frame-capture negotiation and buffer-backing core for a Wayland
//! screen-capture video source.
//!
//! The library decides, per captured frame, which pixel format and which
//! memory-sharing strategy (zero-copy GPU buffer vs. sealed shared memory)
//! to use, and fabricates buffers that satisfy both the negotiated video
//! layout and the compositor's buffer-import requirements.  Protocol
//! transport (connection setup, message dispatch) stays outside; the
//! library consumes plain event values and hands back plain commands.

pub mod allocators;
pub mod frame;
pub mod format;
pub mod layout;
pub mod outputs;
pub mod pool;
pub mod session;
