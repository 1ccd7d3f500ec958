//! WebSocket connection state shared by the connection clients.

use vstd::prelude::*;

verus! {

/// WebSocket connection state.
#[derive(Clone, Debug)]
pub enum WsState {
    Connecting,
    Connected,
    Disconnected,
    Error(String),
}

impl WsState {
    /// True exactly when the connection is established.
    pub fn is_connected(&self) -> (r: bool)
        ensures
            r == (*self is Connected),
    {
        match self {
            WsState::Connected => true,
            _ => false,
        }
    }
}

} // verus!
