//! Recording-side bookkeeping: which session, if any, a recording is
//! currently attached to.

use vstd::prelude::*;
use std::sync::Arc;
use crate::session::Session;

verus! {

/// State of one recording: the session it records from, once attached.
#[derive(Debug)]
pub struct RecordingState {
    pub peer_connection: Option<Arc<Session>>,
}

impl RecordingState {
    /// A fresh recording, not yet attached to any session.
    pub fn new() -> (r: RecordingState)
        ensures
            r.peer_connection is None,
    {
        RecordingState { peer_connection: None }
    }
}

} // verus!
