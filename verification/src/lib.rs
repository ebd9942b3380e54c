//! The interaction engine of a pane-based, terminal-style configuration manager: the
//! panes and the focus that moves between them, the modal editor and its buffer, and
//! the traffic with the server and the local cache that keeps the lists up to date.
//!
//! Nothing here reads a key, draws a cell or opens a connection. A front end hands
//! each key press to [`events::handle_key_event`] and sends the request that comes
//! back; it hands each answer to [`events::complete`]; and it draws what [`ui`] makes
//! of the state.

pub mod api;
pub mod buffer;
pub mod events;
pub mod keys;
pub mod order;
pub mod selection;
pub mod server;
pub mod state;
pub mod storage;
pub mod text;
pub mod theme;
pub mod ui;
pub mod version;
