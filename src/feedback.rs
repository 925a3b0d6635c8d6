//! Session lifecycle notifications sent to the application's control loop.
use vstd::prelude::*;

verus! {

/// Where a streaming session stands.
#[derive(Debug, Clone, Copy, PartialEq, Eq, Structural)]
pub enum StreamingState {
    Started,
    Ended,
}

/// Streaming state feedback for a client.
#[derive(Debug, Clone, PartialEq, Eq)]
pub struct StreamerFeedBack {
    /// The client's address without its port.
    pub remote_ip: String,
    pub streaming_state: StreamingState,
}

impl StreamerFeedBack {
    /// The event as plain values: client address and state.
    pub open spec fn view(&self) -> (Seq<char>, StreamingState) {
        (self.remote_ip@, self.streaming_state)
    }
}

} // verus!
